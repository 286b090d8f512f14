//! The indicator's menu: what it shows, what each entry does, and how the
//! menu comes to life.

use crate::notice::{Notice, NoticeView, Severity};
use crate::setting::SettingId;
use vstd::prelude::*;

verus! {

/// The name under which the indicator registers.
pub const TRAY_TITLE: &'static str = "OpenSCQ30";

/// The icon resource of the indicator.
pub const TRAY_ICON: &'static str = "com.oppzippy.OpenSCQ30";

/// How long the menu thread sleeps between two wake-ups once the menu stands.
pub const KEEP_ALIVE_SECS: u64 = 60;

/// What a click on a menu entry asks for.
#[derive(Clone, Copy, Debug, PartialEq, Eq)]
pub enum Action {
    /// Negate a boolean setting.
    Toggle(SettingId),
    /// Advance the ambient sound mode to its next option.
    CycleAmbientSound,
    /// Select the equalizer preset with this display label.
    SelectPreset(&'static str),
    /// Leave the program.
    Quit,
}

pub enum ActionView {
    Toggle(SettingId),
    CycleAmbientSound,
    SelectPreset(Seq<char>),
    Quit,
}

impl View for Action {
    type V = ActionView;

    open spec fn view(&self) -> ActionView {
        match *self {
            Action::Toggle(id) => ActionView::Toggle(id),
            Action::CycleAmbientSound => ActionView::CycleAmbientSound,
            Action::SelectPreset(label) => ActionView::SelectPreset(label@),
            Action::Quit => ActionView::Quit,
        }
    }
}

impl ActionView {
    /// The setting whose current value the action needs, if it needs one.
    pub open spec fn reads(self) -> Option<SettingId> {
        match self {
            ActionView::Toggle(id) => Some(id),
            ActionView::CycleAmbientSound => Some(SettingId::AmbientSoundMode),
            ActionView::SelectPreset(_) => Some(SettingId::PresetEqualizerProfile),
            ActionView::Quit => None,
        }
    }
}

impl Action {
    /// The setting to look up on the device before the action is resolved.
    pub fn reads(&self) -> (id: Option<SettingId>)
        ensures
            id == self@.reads(),
    {
        match self {
            Action::Toggle(id) => Some(*id),
            Action::CycleAmbientSound => Some(SettingId::AmbientSoundMode),
            Action::SelectPreset(_) => Some(SettingId::PresetEqualizerProfile),
            Action::Quit => None,
        }
    }
}

/// One line of the menu. A label with an empty text is a separator.
#[derive(Clone, Copy, Debug, PartialEq, Eq)]
pub enum MenuEntry {
    Label(&'static str),
    Item { text: &'static str, action: Action },
}

pub enum MenuEntryView {
    Label(Seq<char>),
    Item { text: Seq<char>, action: ActionView },
}

impl View for MenuEntry {
    type V = MenuEntryView;

    open spec fn view(&self) -> MenuEntryView {
        match *self {
            MenuEntry::Label(text) => MenuEntryView::Label(text@),
            MenuEntry::Item { text, action } => MenuEntryView::Item { text: text@, action: action@ },
        }
    }
}

impl DeepView for MenuEntry {
    type V = MenuEntryView;

    open spec fn deep_view(&self) -> MenuEntryView {
        self@
    }
}

/// The menu from top to bottom.
pub open spec fn menu_layout() -> Seq<MenuEntryView> {
    seq![
        MenuEntryView::Label("OpenSCQ30"@),
        MenuEntryView::Label(""@),
        MenuEntryView::Label("Battery: --"@),
        MenuEntryView::Label(""@),
        MenuEntryView::Label("Sound Mode"@),
        MenuEntryView::Item {
            text: "Toggle Noise Canceling"@,
            action: ActionView::Toggle(SettingId::NoiseCancelingMode),
        },
        MenuEntryView::Item { text: "Cycle Ambient Sound"@, action: ActionView::CycleAmbientSound },
        MenuEntryView::Label(""@),
        MenuEntryView::Label("Equalizer Presets"@),
        MenuEntryView::Item { text: "Normal"@, action: ActionView::SelectPreset("Normal"@) },
        MenuEntryView::Item { text: "Bass"@, action: ActionView::SelectPreset("Bass"@) },
        MenuEntryView::Item { text: "Treble"@, action: ActionView::SelectPreset("Treble"@) },
        MenuEntryView::Label(""@),
        MenuEntryView::Item { text: "Quit"@, action: ActionView::Quit },
    ]
}

/// The entries to register, in the order in which they are shown.
pub fn menu_entries() -> (entries: Vec<MenuEntry>)
    ensures
        entries.deep_view() == menu_layout(),
{
    let entries = vec![
        MenuEntry::Label("OpenSCQ30"),
        MenuEntry::Label(""),
        MenuEntry::Label("Battery: --"),
        MenuEntry::Label(""),
        MenuEntry::Label("Sound Mode"),
        MenuEntry::Item {
            text: "Toggle Noise Canceling",
            action: Action::Toggle(SettingId::NoiseCancelingMode),
        },
        MenuEntry::Item { text: "Cycle Ambient Sound", action: Action::CycleAmbientSound },
        MenuEntry::Label(""),
        MenuEntry::Label("Equalizer Presets"),
        MenuEntry::Item { text: "Normal", action: Action::SelectPreset("Normal") },
        MenuEntry::Item { text: "Bass", action: Action::SelectPreset("Bass") },
        MenuEntry::Item { text: "Treble", action: Action::SelectPreset("Treble") },
        MenuEntry::Label(""),
        MenuEntry::Item { text: "Quit", action: Action::Quit },
    ];
    assert(entries.deep_view() =~= menu_layout());
    entries
}

/// Where the menu stands. It starts `Uninitialized` and leaves that state
/// once, for good: to `Running` when the desktop offers an indicator area, to
/// `Unavailable` when it does not.
#[derive(Clone, Copy, Debug, PartialEq, Eq, Hash, Structural)]
pub enum Lifecycle {
    Uninitialized,
    Running,
    Unavailable,
}

/// What the menu thread does after it has asked the desktop for an
/// indicator. None of the three ends the program: only a click on the quit
/// entry does.
#[derive(Clone, Debug, PartialEq, Eq)]
pub enum Startup {
    /// Register `entries` in order, passing over any that the desktop
    /// refuses, then stay alive, waking up every `keep_alive_secs` seconds.
    Install { entries: Vec<MenuEntry>, keep_alive_secs: u64 },
    /// Write this record to the log and end the thread; the program goes on
    /// without a menu.
    Report(Notice),
    /// The menu was started before: do nothing.
    Nothing,
}

pub enum StartupView {
    Install { entries: Seq<MenuEntryView>, keep_alive_secs: u64 },
    Report(NoticeView),
    Nothing,
}

impl View for Startup {
    type V = StartupView;

    open spec fn view(&self) -> StartupView {
        match *self {
            Startup::Install { entries, keep_alive_secs } => StartupView::Install {
                entries: entries.deep_view(),
                keep_alive_secs,
            },
            Startup::Report(notice) => StartupView::Report(notice@),
            Startup::Nothing => StartupView::Nothing,
        }
    }
}

/// The record left behind when the desktop has no indicator area.
pub open spec fn unavailable_notice() -> NoticeView {
    NoticeView { severity: Severity::Debug, message: "System tray not available"@ }
}

impl Lifecycle {
    /// The state after the desktop has answered.
    pub open spec fn after_start(self, backend_found: bool) -> Lifecycle {
        match self {
            Lifecycle::Uninitialized => if backend_found {
                Lifecycle::Running
            } else {
                Lifecycle::Unavailable
            },
            Lifecycle::Running => Lifecycle::Running,
            Lifecycle::Unavailable => Lifecycle::Unavailable,
        }
    }

    /// What there is to do after the desktop has answered.
    pub open spec fn plan(self, backend_found: bool) -> StartupView {
        match self {
            Lifecycle::Uninitialized => if backend_found {
                StartupView::Install { entries: menu_layout(), keep_alive_secs: KEEP_ALIVE_SECS }
            } else {
                StartupView::Report(unavailable_notice())
            },
            Lifecycle::Running => StartupView::Nothing,
            Lifecycle::Unavailable => StartupView::Nothing,
        }
    }

    /// The state in which every menu begins.
    pub fn new() -> (state: Lifecycle)
        ensures
            state == Lifecycle::Uninitialized,
    {
        Lifecycle::Uninitialized
    }

    /// Takes the desktop's answer to the request for an indicator
    /// (`backend_found`) and returns the next state with what to do now.
    pub fn start(self, backend_found: bool) -> (next: (Lifecycle, Startup))
        ensures
            next.0 == self.after_start(backend_found),
            next.1@ == self.plan(backend_found),
    {
        match self {
            Lifecycle::Uninitialized => {
                if backend_found {
                    let entries = menu_entries();
                    (
                        Lifecycle::Running,
                        Startup::Install { entries, keep_alive_secs: KEEP_ALIVE_SECS },
                    )
                } else {
                    let notice = Notice {
                        severity: Severity::Debug,
                        message: "System tray not available",
                    };
                    (Lifecycle::Unavailable, Startup::Report(notice))
                }
            },
            Lifecycle::Running => (Lifecycle::Running, Startup::Nothing),
            Lifecycle::Unavailable => (Lifecycle::Unavailable, Startup::Nothing),
        }
    }
}

/// A menu that has left `Uninitialized` never moves again: whatever the
/// desktop answers later, the state stays and nothing is done.
pub proof fn started_menu_stays(state: Lifecycle, first: bool, later: bool)
    ensures
        state.after_start(first) != Lifecycle::Uninitialized,
        state.after_start(first).after_start(later) == state.after_start(first),
        state.after_start(first).plan(later) == StartupView::Nothing,
{
}

/// A desktop without an indicator area is no failure: the menu ends in
/// `Unavailable`, nothing is installed, and the one record that may be written
/// is at `Debug` severity.
pub proof fn missing_backend_is_quiet(state: Lifecycle)
    ensures
        state.after_start(false) == Lifecycle::Running ==> state == Lifecycle::Running,
        !(state.plan(false) is Install),
        state.plan(false) matches StartupView::Report(notice) ==> notice.severity
            == Severity::Debug,
        state == Lifecycle::Uninitialized ==> state.after_start(false) == Lifecycle::Unavailable
            && state.plan(false) == StartupView::Report(unavailable_notice()),
{
}

} // verus!
