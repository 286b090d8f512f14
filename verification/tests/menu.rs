use std::sync::Arc;

use tray_bridge::manager::TrayManager;
use tray_bridge::menu::{
    menu_entries, Action, Lifecycle, MenuEntry, Startup, KEEP_ALIVE_SECS, TRAY_ICON, TRAY_TITLE,
};
use tray_bridge::notice::{Notice, Severity};
use tray_bridge::setting::{Setting, SettingId};

#[test]
fn menu_lists_its_entries_from_top_to_bottom() {
    assert_eq!(
        menu_entries(),
        vec![
            MenuEntry::Label("OpenSCQ30"),
            MenuEntry::Label(""),
            MenuEntry::Label("Battery: --"),
            MenuEntry::Label(""),
            MenuEntry::Label("Sound Mode"),
            MenuEntry::Item {
                text: "Toggle Noise Canceling",
                action: Action::Toggle(SettingId::NoiseCancelingMode),
            },
            MenuEntry::Item { text: "Cycle Ambient Sound", action: Action::CycleAmbientSound },
            MenuEntry::Label(""),
            MenuEntry::Label("Equalizer Presets"),
            MenuEntry::Item { text: "Normal", action: Action::SelectPreset("Normal") },
            MenuEntry::Item { text: "Bass", action: Action::SelectPreset("Bass") },
            MenuEntry::Item { text: "Treble", action: Action::SelectPreset("Treble") },
            MenuEntry::Label(""),
            MenuEntry::Item { text: "Quit", action: Action::Quit },
        ]
    );
}

#[test]
fn indicator_identity() {
    assert_eq!(TRAY_TITLE, "OpenSCQ30");
    assert_eq!(TRAY_ICON, "com.oppzippy.OpenSCQ30");
    assert_eq!(KEEP_ALIVE_SECS, 60);
}

#[test]
fn each_action_names_the_setting_it_reads() {
    assert_eq!(
        Action::Toggle(SettingId::NoiseCancelingMode).reads(),
        Some(SettingId::NoiseCancelingMode)
    );
    assert_eq!(
        Action::Toggle(SettingId::AmbientSoundMode).reads(),
        Some(SettingId::AmbientSoundMode)
    );
    assert_eq!(Action::CycleAmbientSound.reads(), Some(SettingId::AmbientSoundMode));
    assert_eq!(Action::SelectPreset("Bass").reads(), Some(SettingId::PresetEqualizerProfile));
    assert_eq!(Action::Quit.reads(), None);
}

#[test]
fn menu_begins_uninitialized() {
    assert_eq!(Lifecycle::new(), Lifecycle::Uninitialized);
}

#[test]
fn backend_found_installs_the_menu_and_runs() {
    let (state, startup) = Lifecycle::new().start(true);
    assert_eq!(state, Lifecycle::Running);
    assert_eq!(startup, Startup::Install { entries: menu_entries(), keep_alive_secs: 60 });
}

#[test]
fn backend_missing_logs_once_at_debug_and_the_bridge_goes_on() {
    let device = Arc::new(7u8);
    let mut manager: TrayManager<u8> = TrayManager::new();

    let (state, startup) = Lifecycle::new().start(false);
    assert_eq!(state, Lifecycle::Unavailable);
    assert_eq!(
        startup,
        Startup::Report(Notice { severity: Severity::Debug, message: "System tray not available" })
    );

    let (state, startup) = state.start(false);
    assert_eq!(state, Lifecycle::Unavailable);
    assert_eq!(startup, Startup::Nothing);

    manager.update_device(Some(&device));
    assert!(!manager.slot().is_empty());
    let reading = Setting::Toggle { value: true };
    assert!(TrayManager::toggle_setting(
        manager.slot(),
        SettingId::NoiseCancelingMode,
        Some(&reading)
    )
    .is_some());
}

#[test]
fn a_started_menu_does_not_start_again() {
    for first in [true, false] {
        let (state, _) = Lifecycle::new().start(first);
        assert_ne!(state, Lifecycle::Uninitialized);
        for later in [true, false] {
            let (next, startup) = state.start(later);
            assert_eq!(next, state);
            assert_eq!(startup, Startup::Nothing);
        }
    }
}
