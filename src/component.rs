//! The outcome of a compile.
use vstd::prelude::*;
use crate::diagnostics::{flatten_diagnostics, flattens, CompileError, DiagnosticRecord};

verus! {

/// The result of a compile, from what the engine produced and its diagnostics
/// as records: the compiled component when one came out, else the aggregate
/// error of the diagnostics.
pub fn compile_outcome<C>(
    definition: Option<C>,
    records: &Vec<DiagnosticRecord>,
) -> (r: Result<C, CompileError>)
    ensures
        r is Ok <==> definition is Some,
        definition matches Some(d) ==> r == Ok::<C, CompileError>(d),
        definition is None ==> flattens(r->Err_0, records@),
{
    match definition {
        Some(d) => Ok(d),
        None => Err(flatten_diagnostics(records)),
    }
}

} // verus!
