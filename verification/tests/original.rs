use poe2_auto_flask::automation::{ci_like_defense, player_is_dead};
use poe2_auto_flask::bindings::{parse_reader, GameBindings, KeyboardMode};
use poe2_auto_flask::input::{KeyBinding, KeyModifier};
use poe2_auto_flask::launcher::{contains_bytes, env_value, environment_matches_app};
use poe2_auto_flask::offsets::prioritized_offsets;
use poe2_auto_flask::poe2::VitalPool;

fn pool(current: i32, total: i32) -> VitalPool {
    VitalPool {
        current,
        total,
        reserved_flat: 0,
        reserved_fraction: 0,
    }
}

#[test]
fn reads_values_from_nul_separated_environment() {
    let environ = b"A=1\0STEAM_COMPAT_DATA_PATH=/tmp/compat data\0B=2\0";
    assert_eq!(
        String::from_utf8_lossy(&env_value(environ, b"STEAM_COMPAT_DATA_PATH").unwrap()),
        "/tmp/compat data"
    );
}

#[test]
fn recognizes_poe2_app_id() {
    assert!(environment_matches_app(
        b"STEAM_COMPAT_APP_ID=2694490\0OTHER=value\0"
    ));
    assert!(environment_matches_app(b"SteamAppId=2694490\0"));
    assert!(!environment_matches_app(b"STEAM_COMPAT_APP_ID=1234\0"));
}

#[test]
fn finds_game_name_inside_process_command_line() {
    assert!(contains_bytes(
        b"python\0proton\0waitforexitandrun\0PathOfExileSteam.exe\0",
        b"PathOfExileSteam.exe"
    ));
    assert!(!contains_bytes(
        b"some-other-game.exe\0",
        b"PathOfExileSteam.exe"
    ));
}

#[test]
fn world_data_offsets_start_at_known_field() {
    let offsets = prioritized_offsets(0x368, 0x340, 0x390, 8);
    assert_eq!(offsets.first(), Some(&0x368));
    assert!(offsets.contains(&0x360));
    assert!(offsets.contains(&0x370));
}

#[test]
fn death_uses_current_life_not_total_life() {
    assert!(player_is_dead(pool(0, 675)));
    assert!(player_is_dead(pool(-1, 675)));
    assert!(!player_is_dead(pool(1, 1)));
}

#[test]
fn ci_like_requires_one_total_life_and_energy_shield() {
    assert!(ci_like_defense(pool(1, 1), Some(pool(2500, 3000))));
    assert!(!ci_like_defense(pool(1, 675), Some(pool(2500, 3000))));
    assert!(!ci_like_defense(pool(1, 1), Some(pool(0, 0))));
    assert!(!ci_like_defense(pool(1, 1), None));
}

#[test]
fn depleted_energy_shield_still_counts_as_ci_like() {
    assert!(ci_like_defense(pool(1, 1), Some(pool(0, 3000))));
}

#[test]
fn wasd_uses_wasd_section_and_shift_modifier() {
    let text = r#"
user_input_mode=wasd
[ACTION_KEYS]
use_flask_in_slot1=49
use_flask_in_slot2=50
[WASD_ACTION_KEYS]
use_flask_in_slot1=81 1
use_flask_in_slot2=50
"#;
    let parsed = parse_reader(text, "poe2.ini").unwrap();
    assert_eq!(
        parsed,
        GameBindings::Keyboard {
            mode: KeyboardMode::Wasd,
            life: KeyBinding::new(81, KeyModifier::Shift),
            mana: KeyBinding::new(50, KeyModifier::NoModifier),
        }
    );
}

#[test]
fn mouse_mode_uses_action_section() {
    let text = r#"
user_input_mode=mouse_and_keyboard
[ACTION_KEYS]
use_flask_in_slot1=65 2
use_flask_in_slot2=66 3
[WASD_ACTION_KEYS]
use_flask_in_slot1=81
use_flask_in_slot2=50
"#;
    let parsed = parse_reader(text, "poe2.ini").unwrap();
    assert_eq!(
        parsed,
        GameBindings::Keyboard {
            mode: KeyboardMode::MouseAndKeyboard,
            life: KeyBinding::new(65, KeyModifier::Control),
            mana: KeyBinding::new(66, KeyModifier::Alt),
        }
    );
}

#[test]
fn gamepad_is_detected_without_keyboard_bindings() {
    let text = "user_input_mode=gamepad\n";
    assert_eq!(
        parse_reader(text, "poe2.ini").unwrap(),
        GameBindings::Gamepad
    );
}

#[test]
fn unknown_input_mode_fails_closed() {
    let text = "user_input_mode=future_mode\n";
    assert_eq!(
        parse_reader(text, "poe2.ini").unwrap(),
        GameBindings::UnsupportedMode("future_mode".to_string())
    );
}

#[test]
fn poe_modifier_values_map_to_supported_modifiers() {
    assert_eq!(
        KeyBinding::from_poe(81, 0).unwrap().modifier,
        KeyModifier::NoModifier
    );
    assert_eq!(
        KeyBinding::from_poe(81, 1).unwrap().modifier,
        KeyModifier::Shift
    );
    assert_eq!(
        KeyBinding::from_poe(81, 2).unwrap().modifier,
        KeyModifier::Control
    );
    assert_eq!(
        KeyBinding::from_poe(81, 3).unwrap().modifier,
        KeyModifier::Alt
    );
    assert!(KeyBinding::from_poe(81, 4).is_err());
}

#[test]
fn binding_labels_are_readable() {
    assert_eq!(KeyBinding::new(81, KeyModifier::NoModifier).label(), "Q");
    assert_eq!(KeyBinding::new(81, KeyModifier::Shift).label(), "Shift+Q");
    assert_eq!(
        KeyBinding::new(0x70, KeyModifier::Control).label(),
        "Ctrl+F1"
    );
}

#[test]
fn offsets_start_at_center_and_expand_outward() {
    assert_eq!(
        prioritized_offsets(0x20, 0x10, 0x30, 8),
        vec![0x20, 0x18, 0x28, 0x10, 0x30]
    );
}

#[test]
fn usable_max_applies_percent_and_flat_reservation() {
    let pool = VitalPool {
        current: 700,
        total: 1_000,
        reserved_flat: 50,
        reserved_fraction: 2_023,
    };
    assert_eq!(pool.usable_max(), 747);
}

#[test]
fn reservation_rounds_up() {
    let pool = VitalPool {
        current: 99,
        total: 101,
        reserved_flat: 0,
        reserved_fraction: 100,
    };
    assert_eq!(pool.usable_max(), 99);
}
