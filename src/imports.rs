//! Decisions around the host's two import callbacks: whether a custom file
//! loader is installed at all, what the resolver's answer asks for, and what
//! the loader's settled promise hands to the engine.
use vstd::prelude::*;

verus! {

/// What to do with an import once the resolver has been asked.
pub enum ImportAction {
    /// Let the engine resolve and load the import as it would by itself.
    UseDefault,
    /// Load the content at this path through the host's loader.
    Load(String),
}

/// The resolver's answer as seen from the host call: `None` when the call
/// threw, `Some(None)` when it returned something other than a string.
pub open spec fn action_for(resolver_returned: Option<Option<String>>) -> ImportAction {
    match resolver_returned {
        Some(Some(p)) => ImportAction::Load(p),
        _ => ImportAction::UseDefault,
    }
}

/// The loader's settled promise as seen from the host: fulfilled or rejected,
/// each with its value when that is a string.
pub open spec fn source_for(settled: Result<Option<String>, Option<String>>) -> Result<Seq<char>, Seq<char>> {
    match settled {
        Ok(Some(c)) => Ok(c@),
        Ok(None) => Ok(Seq::empty()),
        Err(Some(m)) => Err(m@),
        Err(None) => Err(Seq::empty()),
    }
}

/// With both callbacks in place, the path that the resolver returns is the
/// one the loader is asked for, unchanged, and what the loader's promise
/// settles with, content or error, is what the engine receives.
pub proof fn law_imports_pass_verbatim(
    path: String,
    settled: Result<String, String>,
)
    ensures
        action_for(Some(Some(path))) == ImportAction::Load(path),
        settled matches Ok(c) ==> source_for(Ok(Some(c))) == Ok::<Seq<char>, Seq<char>>(c@),
        settled matches Err(m) ==> source_for(Err(Some(m))) == Err::<Seq<char>, Seq<char>>(m@),
{
}

/// A custom file loader is installed only when both callbacks are supplied;
/// then it is made of exactly those two.
pub fn pair_callbacks<R, L>(resolve: Option<R>, load: Option<L>) -> (r: Option<(R, L)>)
    ensures
        r is Some <==> (resolve is Some && load is Some),
        r matches Some((a, b)) ==> resolve == Some(a) && load == Some(b),
{
    match (resolve, load) {
        (Some(a), Some(b)) => Some((a, b)),
        _ => None,
    }
}

/// What the resolver's answer asks for: its path, verbatim, or the default.
pub fn import_action(resolver_returned: Option<Option<String>>) -> (a: ImportAction)
    ensures
        a == action_for(resolver_returned),
{
    match resolver_returned {
        Some(Some(p)) => ImportAction::Load(p),
        _ => ImportAction::UseDefault,
    }
}

/// What the engine receives for a loaded import: the fulfilled content, or
/// the rejection's message as the load error; an empty text where the value
/// was not a string.
pub fn loaded_source(settled: Result<Option<String>, Option<String>>) -> (r: Result<String, String>)
    ensures
        match r {
            Ok(c) => source_for(settled) == Ok::<Seq<char>, Seq<char>>(c@),
            Err(m) => source_for(settled) == Err::<Seq<char>, Seq<char>>(m@),
        },
{
    match settled {
        Ok(Some(c)) => Ok(c),
        Ok(None) => Ok(String::new()),
        Err(Some(m)) => Err(m),
        Err(None) => Err(String::new()),
    }
}

} // verus!
