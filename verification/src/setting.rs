//! The values that travel between the device and the menu.

use vstd::prelude::*;

verus! {

/// Addresses one setting on the device.
#[derive(Clone, Copy, Debug, PartialEq, Eq, Hash, Structural)]
pub enum SettingId {
    NoiseCancelingMode,
    AmbientSoundMode,
    PresetEqualizerProfile,
}

/// What the device reports for one setting.
///
/// In a `Select`, `localized_options[i]` is the display label of the wire
/// token `options[i]`, so the two lists have the same length. `value` is
/// meant to be one of `options`, but a device may report one that is not.
#[derive(Clone, Debug, PartialEq, Eq)]
#[allow(inconsistent_fields)]
pub enum Setting {
    Toggle { value: bool },
    Select { options: Vec<String>, localized_options: Vec<String>, value: String },
}

/// A `Setting` as mathematics: texts are sequences of characters.
#[allow(inconsistent_fields)]
pub enum SettingView {
    Toggle { value: bool },
    Select { options: Seq<Seq<char>>, localized_options: Seq<Seq<char>>, value: Seq<char> },
}

impl SettingView {
    /// Every option has exactly one label.
    pub open spec fn wf(self) -> bool {
        self matches SettingView::Select { options, localized_options, .. }
            ==> options.len() == localized_options.len()
    }
}

impl View for Setting {
    type V = SettingView;

    open spec fn view(&self) -> SettingView {
        match *self {
            Setting::Toggle { value } => SettingView::Toggle { value },
            Setting::Select { options, localized_options, value } => SettingView::Select {
                options: options.deep_view(),
                localized_options: localized_options.deep_view(),
                value: value@,
            },
        }
    }
}

impl DeepView for Setting {
    type V = SettingView;

    open spec fn deep_view(&self) -> SettingView {
        self@
    }
}

impl Setting {
    /// A boolean setting that reads `value`.
    pub fn toggle(value: bool) -> (setting: Setting)
        ensures
            setting@ == (SettingView::Toggle { value }),
            setting@.wf(),
    {
        Setting::Toggle { value }
    }

    /// An enumerated setting, if every option has its label: `None` when the
    /// two lists differ in length.
    pub fn select(options: Vec<String>, localized_options: Vec<String>, value: String) -> (setting:
        Option<Setting>)
        ensures
            setting is Some <==> options.len() == localized_options.len(),
            setting matches Some(select) ==> select@.wf() && select@ == (SettingView::Select {
                options: options.deep_view(),
                localized_options: localized_options.deep_view(),
                value: value@,
            }),
    {
        if options.len() == localized_options.len() {
            Some(Setting::Select { options, localized_options, value })
        } else {
            None
        }
    }

    /// Whether the labels and the options pair up.
    pub fn is_well_formed(&self) -> (ok: bool)
        ensures
            ok == self@.wf(),
    {
        match self {
            Setting::Toggle { .. } => true,
            Setting::Select { options, localized_options, .. } => {
                options.len() == localized_options.len()
            },
        }
    }
}

/// The new value of a setting: a flag, or the wire token of an option.
#[derive(Clone, Debug, PartialEq, Eq)]
pub enum Value {
    Bool(bool),
    Token(String),
}

pub enum ValueView {
    Bool(bool),
    Token(Seq<char>),
}

impl View for Value {
    type V = ValueView;

    open spec fn view(&self) -> ValueView {
        match *self {
            Value::Bool(flag) => ValueView::Bool(flag),
            Value::Token(token) => ValueView::Token(token@),
        }
    }
}

impl DeepView for Value {
    type V = ValueView;

    open spec fn deep_view(&self) -> ValueView {
        self@
    }
}

/// One write: set the setting `id` to `value`.
#[derive(Clone, Debug, PartialEq, Eq)]
pub struct Command {
    pub id: SettingId,
    pub value: Value,
}

pub struct CommandView {
    pub id: SettingId,
    pub value: ValueView,
}

impl View for Command {
    type V = CommandView;

    open spec fn view(&self) -> CommandView {
        CommandView { id: self.id, value: self.value@ }
    }
}

impl DeepView for Command {
    type V = CommandView;

    open spec fn deep_view(&self) -> CommandView {
        self@
    }
}

} // verus!
