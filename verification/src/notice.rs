//! What the bridge asks its host to write to the log.

use vstd::prelude::*;

verus! {

/// How loud a log record is.
#[derive(Clone, Copy, Debug, PartialEq, Eq, Hash, Structural)]
pub enum Severity {
    /// For the curious only; nothing went wrong.
    Debug,
    /// Something that was asked for did not happen.
    Error,
}

/// One log record. The host appends the detail of the failure it saw.
#[derive(Clone, Copy, Debug, PartialEq, Eq)]
pub struct Notice {
    pub severity: Severity,
    pub message: &'static str,
}

pub struct NoticeView {
    pub severity: Severity,
    pub message: Seq<char>,
}

impl View for Notice {
    type V = NoticeView;

    open spec fn view(&self) -> NoticeView {
        NoticeView { severity: self.severity, message: self.message@ }
    }
}

impl DeepView for Notice {
    type V = NoticeView;

    open spec fn deep_view(&self) -> NoticeView {
        self@
    }
}

} // verus!
