//! Compile diagnostics as plain records, and their flattening into one
//! aggregate error: a combined text plus one host-facing entry per record.
use vstd::prelude::*;
use crate::decimal::{decimal, push_decimal};

verus! {

/// How serious a diagnostic is.
#[derive(Clone, Copy, PartialEq, Eq, Structural, Debug)]
pub enum Severity {
    Error,
    Warning,
}

/// One diagnostic, as the engine reports it.
pub struct DiagnosticRecord {
    pub message: String,
    /// The file the diagnostic is attached to, if any.
    pub source_file: Option<String>,
    /// Line, starting at 1 (0 when no file is attached).
    pub line: usize,
    pub column: usize,
    pub severity: Severity,
}

/// One entry of the aggregate error, in the shape the host reads.
pub struct ErrorEntry {
    pub message: String,
    pub line_number: usize,
    pub column_number: usize,
    pub file_name: String,
    pub level: i8,
}

/// The aggregate error of a failed compile.
pub struct CompileError {
    /// One line per diagnostic, separated by newlines.
    pub summary: String,
    /// One entry per diagnostic, in the same order.
    pub errors: Vec<ErrorEntry>,
}

/// The numeric level the host sees: the severity's position in its enum.
pub open spec fn level_code(s: Severity) -> i8 {
    match s {
        Severity::Error => 0i8,
        Severity::Warning => 1i8,
    }
}

impl Severity {
    pub fn code(&self) -> (r: i8)
        ensures
            r == level_code(*self),
    {
        match self {
            Severity::Error => 0,
            Severity::Warning => 1,
        }
    }
}

/// The file name shown for a record: its file, or nothing.
pub open spec fn file_name_of(r: DiagnosticRecord) -> Seq<char> {
    match r.source_file {
        Some(p) => p@,
        None => Seq::empty(),
    }
}

/// The location of a record as the combined text writes it:
/// `file:line:column`.
pub open spec fn location_of(r: DiagnosticRecord) -> Seq<char> {
    file_name_of(r) + seq![':'] + decimal(r.line as nat) + seq![':'] + decimal(r.column as nat)
}

/// The line of the combined text for one record: `file:line:column: message`.
pub open spec fn summary_line(r: DiagnosticRecord) -> Seq<char> {
    location_of(r) + seq![':', ' '] + r.message@
}

/// The combined text: the records' lines joined by newlines.
pub open spec fn summary_of(recs: Seq<DiagnosticRecord>) -> Seq<char>
    decreases recs.len(),
{
    if recs.len() == 0 {
        Seq::empty()
    } else if recs.len() == 1 {
        summary_line(recs[0])
    } else {
        summary_of(recs.drop_last()) + seq!['\n'] + summary_line(recs.last())
    }
}

/// The host-facing entry `e` carries exactly the fields of record `r`.
pub open spec fn entry_of(e: ErrorEntry, r: DiagnosticRecord) -> bool {
    &&& e.message@ == r.message@
    &&& e.line_number == r.line
    &&& e.column_number == r.column
    &&& e.file_name@ == file_name_of(r)
    &&& e.level == level_code(r.severity)
}

/// `e` is the aggregate error built from `recs`.
pub open spec fn flattens(e: CompileError, recs: Seq<DiagnosticRecord>) -> bool {
    &&& e.summary@ == summary_of(recs)
    &&& e.errors@.len() == recs.len()
    &&& forall|i: int| 0 <= i < recs.len() ==> #[trigger] entry_of(e.errors@[i], recs[i])
}

impl DiagnosticRecord {
    /// The file name shown for this record.
    pub fn file_name(&self) -> (r: String)
        ensures
            r@ == file_name_of(*self),
    {
        match &self.source_file {
            Some(p) => p.clone(),
            None => String::new(),
        }
    }

    /// Appends this record's line of the combined text.
    pub fn push_summary_line(&self, out: &mut String)
        ensures
            final(out)@ == old(out)@ + summary_line(*self),
    {
        proof {
            reveal_strlit(":");
            reveal_strlit(": ");
        }
        let name = self.file_name();
        out.append(name.as_str());
        out.append(":");
        push_decimal(out, self.line);
        out.append(":");
        push_decimal(out, self.column);
        out.append(": ");
        out.append(self.message.as_str());
        assert(final(out)@ =~= old(out)@ + summary_line(*self));
    }

    /// The host-facing entry for this record.
    pub fn to_entry(&self) -> (e: ErrorEntry)
        ensures
            entry_of(e, *self),
    {
        ErrorEntry {
            message: self.message.clone(),
            line_number: self.line,
            column_number: self.column,
            file_name: self.file_name(),
            level: self.severity.code(),
        }
    }
}

/// The combined text opens with the line of the first record.
pub proof fn lemma_summary_opens_with_first(recs: Seq<DiagnosticRecord>)
    requires
        recs.len() >= 1,
    ensures
        summary_line(recs[0]).len() <= summary_of(recs).len(),
        summary_of(recs).subrange(0, summary_line(recs[0]).len() as int) == summary_line(recs[0]),
    decreases recs.len(),
{
    let first = summary_line(recs[0]);
    if recs.len() == 1 {
        assert(summary_of(recs).subrange(0, first.len() as int) =~= first);
    } else {
        let rest = recs.drop_last();
        lemma_summary_opens_with_first(rest);
        assert(rest[0] == recs[0]);
        let tail = seq!['\n'] + summary_line(recs.last());
        assert(summary_of(recs) == summary_of(rest) + tail);
        assert(summary_of(recs).subrange(0, first.len() as int)
            =~= summary_of(rest).subrange(0, first.len() as int));
    }
}

/// A failed compile with at least one diagnostic reports at least one entry,
/// and its combined text opens with the first entry's file name, line and
/// column, written `file:line:column`.
pub proof fn law_failed_compile_names_a_location(e: CompileError, recs: Seq<DiagnosticRecord>)
    requires
        flattens(e, recs),
        recs.len() >= 1,
    ensures
        e.errors@.len() >= 1,
        ({
            let entry = e.errors@[0];
            let loc = entry.file_name@ + seq![':'] + decimal(entry.line_number as nat) + seq![':']
                + decimal(entry.column_number as nat);
            loc.len() <= e.summary@.len() && e.summary@.subrange(0, loc.len() as int) == loc
        }),
{
    lemma_summary_opens_with_first(recs);
    assert(entry_of(e.errors@[0], recs[0]));
    let entry = e.errors@[0];
    let loc = entry.file_name@ + seq![':'] + decimal(entry.line_number as nat) + seq![':']
        + decimal(entry.column_number as nat);
    assert(loc == location_of(recs[0]));
    let first = summary_line(recs[0]);
    assert(first.subrange(0, loc.len() as int) =~= loc);
    assert(e.summary@.subrange(0, loc.len() as int)
        =~= e.summary@.subrange(0, first.len() as int).subrange(0, loc.len() as int));
}

/// Builds the aggregate error of a failed compile from its diagnostics.
pub fn flatten_diagnostics(records: &Vec<DiagnosticRecord>) -> (e: CompileError)
    ensures
        flattens(e, records@),
{
    let mut summary = String::new();
    let mut errors: Vec<ErrorEntry> = Vec::new();
    let mut i: usize = 0;
    while i < records.len()
        invariant
            i <= records@.len(),
            summary@ == summary_of(records@.subrange(0, i as int)),
            errors@.len() == i,
            forall|k: int| 0 <= k < i ==> #[trigger] entry_of(errors@[k], records@[k]),
        decreases records@.len() - i,
    {
        proof {
            reveal_strlit("\n");
        }
        let r = &records[i];
        let ghost prefix = records@.subrange(0, i as int + 1);
        assert(prefix.drop_last() =~= records@.subrange(0, i as int));
        assert(prefix.last() == records@[i as int]);
        assert(prefix.len() == i + 1);
        let ghost before = summary@;
        if i > 0 {
            summary.append("\n");
            r.push_summary_line(&mut summary);
            assert(summary@ =~= before + seq!['\n'] + summary_line(records@[i as int]));
        } else {
            assert(before =~= Seq::<char>::empty());
            r.push_summary_line(&mut summary);
            assert(summary@ =~= summary_line(records@[i as int]));
            assert(prefix[0] == records@[0]);
        }
        assert(summary@ =~= summary_of(prefix));
        errors.push(r.to_entry());
        i = i + 1;
    }
    assert(records@.subrange(0, records@.len() as int) =~= records@);
    CompileError { summary, errors }
}

} // verus!
