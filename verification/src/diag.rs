use vstd::prelude::*;

verus! {

/// One entry of the diagnostics sink: a warning or an error, keyed by the
/// source location (`span`) of the construct it concerns.
pub struct Diagnostic {
    pub span: u64,
    pub error: bool,
    pub msg: String,
}

/// The mathematical content of a diagnostic: location, severity, message text.
pub struct DiagView {
    pub span: u64,
    pub error: bool,
    pub msg: Seq<char>,
}

impl View for Diagnostic {
    type V = DiagView;

    open spec fn view(&self) -> DiagView {
        DiagView { span: self.span, error: self.error, msg: self.msg@ }
    }
}

/// The views of a whole sink, in order.
pub open spec fn diag_views(s: Seq<Diagnostic>) -> Seq<DiagView> {
    s.map_values(|d: Diagnostic| d@)
}

/// A warning at `span` whose text is `msg`.
pub open spec fn warning_at(span: u64, msg: Seq<char>) -> DiagView {
    DiagView { span, error: false, msg }
}

/// An error at `span` whose text is `msg`.
pub open spec fn error_at(span: u64, msg: Seq<char>) -> DiagView {
    DiagView { span, error: true, msg }
}

/// Appends a warning to the sink.
pub fn push_warning(diags: &mut Vec<Diagnostic>, span: u64, msg: String)
    ensures
        diag_views(final(diags)@) == diag_views(old(diags)@).push(warning_at(span, msg@)),
{
    let ghost pre = diags@;
    diags.push(Diagnostic { span, error: false, msg });
    proof {
        assert(diag_views(diags@) =~= diag_views(pre).push(warning_at(span, diags@.last().msg@)));
    }
}

/// Appends an error to the sink.
pub fn push_error(diags: &mut Vec<Diagnostic>, span: u64, msg: String)
    ensures
        diag_views(final(diags)@) == diag_views(old(diags)@).push(error_at(span, msg@)),
{
    let ghost pre = diags@;
    diags.push(Diagnostic { span, error: true, msg });
    proof {
        assert(diag_views(diags@) =~= diag_views(pre).push(error_at(span, diags@.last().msg@)));
    }
}

} // verus!
