//! Diagnostics: every lexical, syntactic or runtime error is reported as a
//! source line number and a message.  Reporting is non-fatal; the phase that
//! reports keeps going.

use vstd::prelude::*;

verus! {

/// One reported error: the source line it concerns and its message.
#[derive(Debug)]
pub struct Diagnostic {
    pub line: u32,
    pub message: String,
}

/// The mathematical image of a diagnostic.
#[verifier::ext_equal]
pub struct DiagV {
    pub line: u32,
    pub message: Seq<char>,
}

impl Diagnostic {
    pub open spec fn view(&self) -> DiagV {
        DiagV { line: self.line, message: self.message@ }
    }
}

/// Builds the diagnostic for `message` at `line`.
pub fn error(line: u32, message: String) -> (d: Diagnostic)
    ensures
        d@ == (DiagV { line, message: message@ }),
{
    Diagnostic { line, message }
}

/// The image of an optional diagnostic as a sequence of zero or one entries.
pub open spec fn diag_opt_seq(d: Option<DiagV>) -> Seq<DiagV> {
    match d {
        Option::Some(x) => seq![x],
        Option::None => Seq::empty(),
    }
}

/// The image of a vector of diagnostics.
pub open spec fn diags_view(s: Seq<Diagnostic>) -> Seq<DiagV> {
    Seq::new(s.len(), |i: int| s[i]@)
}

} // verus!
