//! Handing a write over to the device, and what to say when it fails.

use crate::notice::{Notice, NoticeView, Severity};
use crate::setting::{Command, CommandView, SettingId, Value};
use std::sync::Arc;
use vstd::prelude::*;

verus! {

/// One batched write for one device. The host runs it as a task of its own
/// and waits for no result: two submissions are not ordered with respect to
/// each other, and none is tried again.
#[derive(Debug)]
pub struct Submission<D> {
    /// The device to write to.
    pub device: Arc<D>,
    /// The batch: always exactly one command.
    pub commands: Vec<Command>,
    /// What to log, ahead of the failure's detail, if the write fails.
    pub failure_message: &'static str,
}

pub struct SubmissionView<D> {
    pub device: Arc<D>,
    pub commands: Seq<CommandView>,
    pub failure_message: Seq<char>,
}

impl<D> View for Submission<D> {
    type V = SubmissionView<D>;

    open spec fn view(&self) -> SubmissionView<D> {
        SubmissionView {
            device: self.device,
            commands: self.commands.deep_view(),
            failure_message: self.failure_message@,
        }
    }
}

impl<D> DeepView for Submission<D> {
    type V = SubmissionView<D>;

    open spec fn deep_view(&self) -> SubmissionView<D> {
        self@
    }
}

/// The submission that a click leads to: one for a device and a command,
/// none as soon as either is missing.
pub open spec fn dispatch<D>(
    device: Option<Arc<D>>,
    command: Option<CommandView>,
    failure_message: Seq<char>,
) -> Option<SubmissionView<D>> {
    match (device, command) {
        (Some(device), Some(command)) => Some(
            SubmissionView { device, commands: seq![command], failure_message },
        ),
        _ => None,
    }
}

/// Packs the write of `value` to the setting `id` of `device` as a batch of
/// one command.
pub fn submit<D>(
    device: Arc<D>,
    id: SettingId,
    value: Value,
    failure_message: &'static str,
) -> (submission: Submission<D>)
    ensures
        submission@ == (SubmissionView {
            device,
            commands: seq![CommandView { id, value: value@ }],
            failure_message: failure_message@,
        }),
{
    let commands = vec![Command { id, value }];
    assert(commands.deep_view() =~= seq![CommandView { id, value: value@ }]);
    Submission { device, commands, failure_message }
}

impl<D> Submission<D> {
    /// What to log once the write has ended: nothing after a success, one
    /// record at `Error` severity after a failure.
    pub fn completed(&self, succeeded: bool) -> (notice: Option<Notice>)
        ensures
            succeeded ==> notice is None,
            !succeeded ==> notice.deep_view() == Some(
                NoticeView { severity: Severity::Error, message: self@.failure_message },
            ),
    {
        if succeeded {
            None
        } else {
            Some(Notice { severity: Severity::Error, message: self.failure_message })
        }
    }
}

} // verus!
