use tray_bridge::resolver::{cycle_command, cycle_next, position, toggle_command, toggle_next};
use tray_bridge::setting::{Command, Setting, SettingId, Value};

fn texts(items: &[&str]) -> Vec<String> {
    items.iter().map(|item| item.to_string()).collect()
}

fn ambient(value: &str) -> Setting {
    Setting::Select {
        options: texts(&["Normal", "Transparency", "NoiseCanceling"]),
        localized_options: texts(&["Normal", "Transparency", "Noise Canceling"]),
        value: value.to_string(),
    }
}

fn token(id: SettingId, value: &str) -> Command {
    Command { id, value: Value::Token(value.to_string()) }
}

#[test]
fn toggle_next_negates() {
    assert_eq!(toggle_next(true), false);
    assert_eq!(toggle_next(false), true);
}

#[test]
fn toggle_twice_returns_to_the_first_value() {
    for first in [true, false] {
        let mut setting = Setting::Toggle { value: first };
        for _ in 0..2 {
            let command = toggle_command(SettingId::NoiseCancelingMode, Some(&setting))
                .expect("a toggle always resolves");
            assert_eq!(command.id, SettingId::NoiseCancelingMode);
            setting = match command.value {
                Value::Bool(value) => Setting::Toggle { value },
                other => panic!("a toggle writes a flag, not {other:?}"),
            };
        }
        assert_eq!(setting, Setting::Toggle { value: first });
    }
}

#[test]
fn toggle_command_writes_the_negated_value() {
    let on = Setting::Toggle { value: true };
    assert_eq!(
        toggle_command(SettingId::NoiseCancelingMode, Some(&on)),
        Some(Command { id: SettingId::NoiseCancelingMode, value: Value::Bool(false) })
    );
    let off = Setting::Toggle { value: false };
    assert_eq!(
        toggle_command(SettingId::AmbientSoundMode, Some(&off)),
        Some(Command { id: SettingId::AmbientSoundMode, value: Value::Bool(true) })
    );
}

#[test]
fn toggle_command_ignores_what_is_no_toggle() {
    assert_eq!(toggle_command(SettingId::NoiseCancelingMode, None), None);
    let select = ambient("Normal");
    assert_eq!(toggle_command(SettingId::NoiseCancelingMode, Some(&select)), None);
}

#[test]
fn position_finds_the_first_equal_option() {
    let options = texts(&["a", "b", "a", "c"]);
    assert_eq!(position(&options, &"a".to_string()), Some(0));
    assert_eq!(position(&options, &"b".to_string()), Some(1));
    assert_eq!(position(&options, &"c".to_string()), Some(3));
    assert_eq!(position(&options, &"d".to_string()), None);
    assert_eq!(position(&options, &"A".to_string()), None);
    assert_eq!(position(&Vec::new(), &"a".to_string()), None);
}

#[test]
fn cycle_next_steps_to_the_following_index() {
    let options = texts(&["w", "x", "y", "z"]);
    assert_eq!(cycle_next(&options, &"w".to_string()), Some(1));
    assert_eq!(cycle_next(&options, &"x".to_string()), Some(2));
    assert_eq!(cycle_next(&options, &"y".to_string()), Some(3));
}

#[test]
fn cycle_next_wraps_from_the_last_index_to_zero() {
    let options = texts(&["w", "x", "y", "z"]);
    assert_eq!(cycle_next(&options, &"z".to_string()), Some(0));
}

#[test]
fn cycle_next_lands_on_successor_for_every_index() {
    for n in 1..=6usize {
        let options: Vec<String> = (0..n).map(|i| format!("option-{i}")).collect();
        for i in 0..n {
            assert_eq!(cycle_next(&options, &options[i]), Some((i + 1) % n));
        }
    }
}

#[test]
fn cycle_next_treats_an_unlisted_value_as_index_zero() {
    let options = texts(&["w", "x", "y"]);
    let from_unknown = cycle_next(&options, &"nowhere".to_string());
    assert_eq!(from_unknown, Some(1));
    assert_eq!(from_unknown, cycle_next(&options, &options[0]));
}

#[test]
fn cycle_next_with_a_single_option_stays_on_it() {
    let options = texts(&["only"]);
    assert_eq!(cycle_next(&options, &"only".to_string()), Some(0));
    assert_eq!(cycle_next(&options, &"other".to_string()), Some(0));
}

#[test]
fn cycle_next_on_no_options_is_none() {
    assert_eq!(cycle_next(&Vec::new(), &"anything".to_string()), None);
    assert_eq!(cycle_next(&Vec::new(), &String::new()), None);
}

#[test]
fn cycle_next_starts_from_the_first_of_two_equal_options() {
    let options = texts(&["a", "a", "b"]);
    assert_eq!(cycle_next(&options, &"a".to_string()), Some(1));
}

#[test]
fn cycle_command_writes_the_following_token() {
    assert_eq!(
        cycle_command(SettingId::AmbientSoundMode, Some(&ambient("Transparency"))),
        Some(token(SettingId::AmbientSoundMode, "NoiseCanceling"))
    );
    assert_eq!(
        cycle_command(SettingId::AmbientSoundMode, Some(&ambient("NoiseCanceling"))),
        Some(token(SettingId::AmbientSoundMode, "Normal"))
    );
    assert_eq!(
        cycle_command(SettingId::AmbientSoundMode, Some(&ambient("Unknown"))),
        Some(token(SettingId::AmbientSoundMode, "Transparency"))
    );
}

#[test]
fn cycle_command_ignores_what_is_no_selection() {
    assert_eq!(cycle_command(SettingId::AmbientSoundMode, None), None);
    let toggle = Setting::Toggle { value: true };
    assert_eq!(cycle_command(SettingId::AmbientSoundMode, Some(&toggle)), None);
}

#[test]
fn cycle_command_on_no_options_is_none() {
    let empty = Setting::Select {
        options: Vec::new(),
        localized_options: Vec::new(),
        value: "Normal".to_string(),
    };
    assert_eq!(cycle_command(SettingId::AmbientSoundMode, Some(&empty)), None);
}
