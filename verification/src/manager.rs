//! The bridge between the menu and the device.

use crate::dispatch::{dispatch, submit, Submission, SubmissionView};
use crate::menu::{Action, ActionView};
use crate::preset::{preset_command, preset_outcome};
use crate::resolver::{cycle_command, cycle_outcome, toggle_command, toggle_outcome};
use crate::setting::{Setting, SettingId, SettingView};
use crate::slot::{share, DeviceSlot};
use std::sync::Arc;
use vstd::prelude::*;

verus! {

/// What the host does after a click.
#[derive(Debug)]
pub enum Effect<D> {
    /// The click led to nothing: no write, no log record.
    Nothing,
    /// Start this write and return at once.
    Submit(Submission<D>),
    /// End the whole program, not only the menu, with this exit status.
    Exit { status: i32 },
}

pub enum EffectView<D> {
    Nothing,
    Submit(SubmissionView<D>),
    Exit { status: i32 },
}

impl<D> View for Effect<D> {
    type V = EffectView<D>;

    open spec fn view(&self) -> EffectView<D> {
        match *self {
            Effect::Nothing => EffectView::Nothing,
            Effect::Submit(submission) => EffectView::Submit(submission@),
            Effect::Exit { status } => EffectView::Exit { status },
        }
    }
}

/// The log text for a toggle that the device refused.
pub open spec fn toggle_failure() -> Seq<char> {
    "Failed to set setting"@
}

/// The log text for a change of ambient sound mode that the device refused.
pub open spec fn cycle_failure() -> Seq<char> {
    "Failed to set ambient sound mode"@
}

/// The log text for an equalizer preset that the device refused.
pub open spec fn preset_failure() -> Seq<char> {
    "Failed to set equalizer preset"@
}

/// What a click leads to, given the device in the slot and what that device
/// reported for the setting that the action reads.
pub open spec fn click_effect<D>(
    device: Option<Arc<D>>,
    action: ActionView,
    reading: Option<SettingView>,
) -> EffectView<D> {
    let submission = match action {
        ActionView::Toggle(id) => dispatch(device, toggle_outcome(id, reading), toggle_failure()),
        ActionView::CycleAmbientSound => dispatch(
            device,
            cycle_outcome(SettingId::AmbientSoundMode, reading),
            cycle_failure(),
        ),
        ActionView::SelectPreset(label) => dispatch(
            device,
            preset_outcome(SettingId::PresetEqualizerProfile, label, reading),
            preset_failure(),
        ),
        ActionView::Quit => None,
    };
    match (action, submission) {
        (ActionView::Quit, _) => EffectView::Exit { status: 0 },
        (_, Some(submission)) => EffectView::Submit(submission),
        (_, None) => EffectView::Nothing,
    }
}

/// The bridge: it keeps the device that the menu acts on.
///
/// The connection's owner calls `update_device`; each menu callback looks up
/// the setting it needs on the device in the slot and passes the answer, as
/// `reading`, to the function that belongs to its entry. A host with more
/// than one thread keeps the manager behind a lock and starts the returned
/// write only after it has let go of the lock.
pub struct TrayManager<D> {
    device: DeviceSlot<D>,
}

impl<D> TrayManager<D> {
    /// The device that the menu currently acts on.
    pub closed spec fn view(&self) -> Option<Arc<D>> {
        self.device@
    }

    /// A bridge with no device.
    pub fn new() -> (manager: Self)
        ensures
            manager@ is None,
    {
        TrayManager { device: DeviceSlot::new() }
    }

    /// Tells the bridge that `device` is now the connected device, or, with
    /// `None`, that no device is connected any more.
    pub fn update_device(&mut self, device: Option<&Arc<D>>)
        ensures
            final(self)@ == (match device {
                Some(connected) => Some(*connected),
                None => None,
            }),
    {
        let new = match device {
            Some(connected) => Some(share(connected)),
            None => None,
        };
        self.device.replace(new);
    }

    /// The slot that the menu callbacks read.
    pub fn slot(&self) -> (slot: &DeviceSlot<D>)
        ensures
            slot@ == self@,
    {
        &self.device
    }

    /// Ends the bridge. Writes that are under way are neither awaited nor
    /// stopped.
    pub fn shutdown(self) {
    }

    /// Negates the boolean setting `setting_id`.
    ///
    /// `reading` is what the device in the slot reported for `setting_id`.
    /// With no device in the slot, with no reading, or with a reading that is
    /// no toggle, there is nothing to submit.
    pub fn toggle_setting(
        device: &DeviceSlot<D>,
        setting_id: SettingId,
        reading: Option<&Setting>,
    ) -> (submission: Option<Submission<D>>)
        ensures
            device@ is None ==> submission is None,
            submission.deep_view() == dispatch(
                device@,
                toggle_outcome(setting_id, reading.deep_view()),
                toggle_failure(),
            ),
    {
        if device.is_empty() {
            return None;
        }
        match toggle_command(setting_id, reading) {
            Some(command) => match device.snapshot() {
                Some(target) => Some(
                    submit(target, command.id, command.value, "Failed to set setting"),
                ),
                None => None,
            },
            None => None,
        }
    }

    /// Advances the ambient sound mode to the option after the current one.
    ///
    /// `reading` is what the device in the slot reported for the ambient
    /// sound mode. With no device in the slot, with no reading, with a
    /// reading that is no selection, or with a selection that has no options,
    /// there is nothing to submit.
    pub fn cycle_ambient_sound(device: &DeviceSlot<D>, reading: Option<&Setting>) -> (submission:
        Option<Submission<D>>)
        ensures
            device@ is None ==> submission is None,
            (reading matches Some(Setting::Select { options, .. }) && options.len() == 0)
                ==> submission is None,
            submission.deep_view() == dispatch(
                device@,
                cycle_outcome(SettingId::AmbientSoundMode, reading.deep_view()),
                cycle_failure(),
            ),
    {
        if device.is_empty() {
            return None;
        }
        match cycle_command(SettingId::AmbientSoundMode, reading) {
            Some(command) => match device.snapshot() {
                Some(target) => Some(
                    submit(target, command.id, command.value, "Failed to set ambient sound mode"),
                ),
                None => None,
            },
            None => None,
        }
    }

    /// Selects the equalizer preset whose display label is `preset_name`,
    /// whatever the case of its letters.
    ///
    /// `reading` is what the device in the slot reported for the equalizer
    /// preset. With no device in the slot, with no reading, with a reading
    /// that is no selection, or with no label that matches, there is nothing
    /// to submit.
    pub fn set_equalizer_preset(
        device: &DeviceSlot<D>,
        preset_name: &str,
        reading: Option<&Setting>,
    ) -> (submission: Option<Submission<D>>)
        requires
            reading matches Some(setting) ==> setting@.wf(),
        ensures
            device@ is None ==> submission is None,
            submission.deep_view() == dispatch(
                device@,
                preset_outcome(
                    SettingId::PresetEqualizerProfile,
                    preset_name@,
                    reading.deep_view(),
                ),
                preset_failure(),
            ),
    {
        if device.is_empty() {
            return None;
        }
        match preset_command(SettingId::PresetEqualizerProfile, preset_name, reading) {
            Some(command) => match device.snapshot() {
                Some(target) => Some(
                    submit(target, command.id, command.value, "Failed to set equalizer preset"),
                ),
                None => None,
            },
            None => None,
        }
    }

    /// Resolves a click on the menu entry bound to `action`.
    ///
    /// `reading` is what the device in the slot reported for the setting
    /// that `action.reads()` names.
    pub fn on_click(device: &DeviceSlot<D>, action: Action, reading: Option<&Setting>) -> (effect:
        Effect<D>)
        requires
            action is SelectPreset ==> (reading matches Some(setting) ==> setting@.wf()),
        ensures
            effect@ == click_effect(device@, action@, reading.deep_view()),
            device@ is None ==> !(effect is Submit),
    {
        let submission = match action {
            Action::Toggle(id) => Self::toggle_setting(device, id, reading),
            Action::CycleAmbientSound => Self::cycle_ambient_sound(device, reading),
            Action::SelectPreset(label) => Self::set_equalizer_preset(device, label, reading),
            Action::Quit => {
                return Effect::Exit { status: 0 };
            },
        };
        match submission {
            Some(submission) => Effect::Submit(submission),
            None => Effect::Nothing,
        }
    }
}

/// With no device in the slot no click leads to a write, whatever was
/// clicked and whatever reading is passed along.
pub proof fn empty_slot_submits_nothing<D>(action: ActionView, reading: Option<SettingView>)
    ensures
        !(click_effect::<D>(None, action, reading) is Submit),
        action != ActionView::Quit ==> click_effect::<D>(None, action, reading)
            == EffectView::<D>::Nothing,
{
}

/// The program ends on a click on the quit entry and on no other click,
/// with or without a device.
pub proof fn only_quit_ends_the_program<D>(
    device: Option<Arc<D>>,
    action: ActionView,
    reading: Option<SettingView>,
)
    ensures
        click_effect(device, action, reading) is Exit <==> action == ActionView::Quit,
        action == ActionView::Quit ==> click_effect(device, action, reading)
            == (EffectView::<D>::Exit { status: 0 }),
{
}

} // verus!
