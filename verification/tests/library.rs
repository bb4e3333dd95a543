use poe2_auto_flask::text::{utf16_lossy, utf16_strict};
use poe2_auto_flask::config::config_base_dir;
use poe2_auto_flask::area::{
    classify_area, parse_area_row, read_utf16_z, valid_text, world_data_offsets, AreaInfo, AreaRow,
};
use poe2_auto_flask::automation::{
    area_status, binding_reload_messages, block_message, config_reload_messages, maybe_fire,
    BlockNotice, Engine, EngineStatus, FlaskDecision, FlaskInput, FlaskState, Gate, RefreshPlan,
    Toggle,
};
use poe2_auto_flask::bindings::{
    parse_binding, parse_reader, BindingManager, BindingReload, FileRead, GameBindings,
    KeyboardMode,
};
use poe2_auto_flask::buffs::{
    check_player_id, check_status_vector, classify_definition, effect_slot, is_flask_lock_name,
    read_buff_name, DefinitionClass, FlaskLockProbe, FlaskLocks,
};
use poe2_auto_flask::cli::{parse_mode, signature_retry, ArgsChoice, Mode};
use poe2_auto_flask::config::{ConfigManager, ConfigRead, ConfigReload, ConfigStartup, GeneralConfig};
use poe2_auto_flask::debug::{charge_pair, charge_text, yes_no};
use poe2_auto_flask::entity::{checked_count, component_slot};
use poe2_auto_flask::error::ErrorKind;
use poe2_auto_flask::file_watch::FileStamp;
use poe2_auto_flask::flask_inventory::{
    check_charge_values, check_inventory_dimensions, check_item_cells, check_pointer,
    check_slot_item, player_info_offset, validate_vector_range, FlaskChargeCache,
    FlaskChargeSnapshot, FlaskChargeState, CachedChargeComponent,
};
use poe2_auto_flask::input::{flask_key_events, key_label, BindingError, KeyBinding, KeyEvent, KeyModifier};
use poe2_auto_flask::le::{read_i16_from, read_i32_from, read_u16_from, read_u32_from, read_u64_from};
use poe2_auto_flask::launcher::{env_value, names_game_exe};
use poe2_auto_flask::poe2::{
    add_signed, check_identity, check_pool, decode_vital, is_character_metadata, push_unique,
    vital_acceptable, wstring_layout, Identity, LiveVitals, PoolKind, VitalPool,
};
use poe2_auto_flask::process::{
    check_pe_signature, match_section, parse_file_header, pe_header_offset, scan_pattern_start,
    section_not_found, select_main_module, select_process, ModuleInfo, ScanStart, SCAN_CHUNK_SIZE,
};

fn stamp(len: u64) -> FileStamp {
    FileStamp { len, modified_secs: 100, modified_nanos: 0 }
}

fn pool(current: i32, total: i32) -> VitalPool {
    VitalPool { current, total, reserved_flat: 0, reserved_fraction: 0 }
}

fn charges(current: i32, per_use: i32) -> FlaskChargeState {
    FlaskChargeState { inventory_item: 0x10000, item_entity: 0x20000, charges_component: 0x30000, current, per_use }
}

const WASD_TEXT: &str = "user_input_mode=wasd\n[WASD_ACTION_KEYS]\nuse_flask_in_slot1=81\nuse_flask_in_slot2=50\n";

// ---------------------------------------------------------------- bindings

#[test]
fn config_comments_blank_lines_and_crlf_are_skipped() {
    let text = "; comment\r\n# another\r\n\r\n  user_input_mode = wasd  \r\n[WASD_ACTION_KEYS]\r\nuse_flask_in_slot1 = +49 0\r\nuse_flask_in_slot2=50\r\n";
    assert_eq!(
        parse_reader(text, "p.ini").unwrap(),
        GameBindings::Keyboard {
            mode: KeyboardMode::Wasd,
            life: KeyBinding::new(49, KeyModifier::NoModifier),
            mana: KeyBinding::new(50, KeyModifier::NoModifier),
        }
    );
}

#[test]
fn mode_line_counts_in_any_section_and_last_one_wins() {
    let text = "[OTHER]\nuser_input_mode=gamepad\n[ACTION_KEYS]\nuser_input_mode=mouse_and_keyboard\nuse_flask_in_slot1=49\nuse_flask_in_slot2=50\n";
    assert_eq!(
        parse_reader(text, "p.ini").unwrap(),
        GameBindings::Keyboard {
            mode: KeyboardMode::MouseAndKeyboard,
            life: KeyBinding::new(49, KeyModifier::NoModifier),
            mana: KeyBinding::new(50, KeyModifier::NoModifier),
        }
    );
}

#[test]
fn missing_mode_is_an_error() {
    assert_eq!(
        parse_reader("[ACTION_KEYS]\nuse_flask_in_slot1=49\n", "p.ini").unwrap_err(),
        "p.ini: user_input_mode is missing"
    );
}

#[test]
fn missing_flask_slots_are_errors() {
    assert_eq!(
        parse_reader("user_input_mode=wasd\n", "p.ini").unwrap_err(),
        "p.ini: use_flask_in_slot1 is missing"
    );
    assert_eq!(
        parse_reader("user_input_mode=wasd\n[WASD_ACTION_KEYS]\nuse_flask_in_slot1=49\n", "p.ini").unwrap_err(),
        "p.ini: use_flask_in_slot2 is missing"
    );
}

#[test]
fn binding_value_errors_quote_the_value() {
    assert_eq!(parse_binding("p", "slot", "").unwrap_err(), "p: slot is empty");
    assert_eq!(parse_binding("p", "slot", "abc").unwrap_err(), "p: slot has invalid key code \"abc\"");
    assert_eq!(parse_binding("p", "slot", "70000").unwrap_err(), "p: slot has invalid key code \"70000\"");
    assert_eq!(parse_binding("p", "slot", "81 x").unwrap_err(), "p: slot has invalid modifier \"x\"");
    assert_eq!(parse_binding("p", "slot", "81 1 2").unwrap_err(), "p: slot has unexpected data \"81 1 2\"");
    assert_eq!(
        parse_binding("p", "slot", "1").unwrap_err(),
        "p: slot binding \"1\" is unsupported: mouse-button flask bindings are not supported yet"
    );
    assert_eq!(
        parse_binding("p", "slot", "300").unwrap_err(),
        "p: slot binding \"300\" is unsupported: virtual-key code 300 is outside the Win32 range"
    );
    assert_eq!(
        parse_binding("p", "slot", "81 7").unwrap_err(),
        "p: slot binding \"81 7\" is unsupported: unknown PoE2 modifier value 7"
    );
    assert_eq!(parse_binding("p", "slot", "\t81\u{3000}2 ").unwrap(), KeyBinding::new(81, KeyModifier::Control));
}

#[test]
fn from_poe_refuses_out_of_range_codes() {
    assert_eq!(KeyBinding::from_poe(0, 0), Err(BindingError::KeyOutOfRange(0)));
    assert_eq!(KeyBinding::from_poe(0x100, 0), Err(BindingError::KeyOutOfRange(0x100)));
    assert_eq!(KeyBinding::from_poe(0x04, 0), Err(BindingError::MouseButton));
    assert_eq!(KeyBinding::from_poe(0x03, 0), Ok(KeyBinding::new(3, KeyModifier::NoModifier)));
    assert_eq!(BindingError::UnknownModifier(9).message(), "unknown PoE2 modifier value 9");
}

#[test]
fn key_names_cover_letters_function_keys_and_others() {
    assert_eq!(key_label(0x30), "0");
    assert_eq!(key_label(0x5A), "Z");
    assert_eq!(key_label(0x87), "F24");
    assert_eq!(key_label(0x20), "Space");
    assert_eq!(key_label(0x2E), "Delete");
    assert_eq!(key_label(0xBA), "VK_0xBA");
    assert_eq!(key_label(0x07), "VK_0x07");
    assert_eq!(KeyBinding::new(0x41, KeyModifier::Alt).label(), "Alt+A");
}

#[test]
fn flask_press_holds_the_modifier_around_the_key() {
    assert_eq!(
        flask_key_events(KeyBinding::new(0x51, KeyModifier::Shift)),
        vec![
            KeyEvent { vk: 0x10, key_up: false },
            KeyEvent { vk: 0x51, key_up: false },
            KeyEvent { vk: 0x51, key_up: true },
            KeyEvent { vk: 0x10, key_up: true },
        ]
    );
    assert_eq!(
        flask_key_events(KeyBinding::new(0x31, KeyModifier::NoModifier)),
        vec![KeyEvent { vk: 0x31, key_up: false }, KeyEvent { vk: 0x31, key_up: true }]
    );
}

#[test]
fn bindings_summaries() {
    let b = parse_reader(WASD_TEXT, "p").unwrap();
    assert_eq!(b.summary(), "PoE2 input: wasd | Life Q | Mana 2");
    assert_eq!(GameBindings::Gamepad.summary(), "PoE2 input: gamepad (auto-flask input not supported yet)");
    assert_eq!(GameBindings::UnsupportedMode("x".to_string()).summary(), "PoE2 input: x (unsupported input mode)");
    assert_eq!(GameBindings::Unavailable("e".to_string()).summary(), "PoE2 input bindings unavailable: e");
    assert_eq!(KeyboardMode::MouseAndKeyboard.label(), "mouse_and_keyboard");
}

#[test]
fn binding_manager_follows_file_changes() {
    let mut m = BindingManager::load("p.ini".to_string(), Some(stamp(1)), Some(FileRead::Contents(WASD_TEXT.to_string())));
    assert_eq!(m.current().summary(), "PoE2 input: wasd | Life Q | Mana 2");

    let same = Ok(Some(stamp(1)));
    assert!(!m.needs_file(&same));
    assert_eq!(m.check_for_reload(same, None), BindingReload::Unchanged);

    let changed = Ok(Some(stamp(2)));
    assert!(m.needs_file(&changed));
    let text = "user_input_mode=gamepad\n".to_string();
    assert_eq!(m.check_for_reload(changed, Some(FileRead::Contents(text))), BindingReload::Reloaded);
    assert_eq!(m.current(), &GameBindings::Gamepad);

    let broken = Ok(Some(stamp(3)));
    let r = m.check_for_reload(broken, Some(FileRead::Contents("nothing\n".to_string())));
    assert_eq!(r, BindingReload::Invalid("p.ini: user_input_mode is missing".to_string()));
    assert_eq!(m.current(), &GameBindings::Unavailable("p.ini: user_input_mode is missing".to_string()));
    let r = m.check_for_reload(Ok(Some(stamp(3))), Some(FileRead::Contents("nothing\n".to_string())));
    assert_eq!(r, BindingReload::Unchanged);
    // an invalid file is not remembered, so its disappearance is no news
    assert_eq!(m.check_for_reload(Ok(None), None), BindingReload::Unchanged);

    let fixed = Ok(Some(stamp(4)));
    assert_eq!(m.check_for_reload(fixed, Some(FileRead::Contents(WASD_TEXT.to_string()))), BindingReload::Reloaded);
    assert_eq!(m.check_for_reload(Ok(None), None), BindingReload::Removed);
    assert_eq!(m.current(), &GameBindings::Unavailable("p.ini not found".to_string()));
    assert_eq!(m.check_for_reload(Ok(None), None), BindingReload::Unchanged);

    let r = m.check_for_reload(Err("denied".to_string()), None);
    assert_eq!(r, BindingReload::ReadError("failed to check p.ini: denied".to_string()));
    assert_eq!(m.check_for_reload(Err("denied".to_string()), None), BindingReload::Unchanged);
}

#[test]
fn binding_manager_startup_cases() {
    let missing = BindingManager::load("p.ini".to_string(), None, None);
    assert_eq!(missing.current(), &GameBindings::Unavailable("p.ini not found".to_string()));
    let unreadable = BindingManager::load("p.ini".to_string(), Some(stamp(1)), Some(FileRead::OpenFailed("no".to_string())));
    assert_eq!(unreadable.current(), &GameBindings::Unavailable("failed to open p.ini: no".to_string()));
    let broken = BindingManager::load("p.ini".to_string(), Some(stamp(1)), Some(FileRead::ReadFailed("bad".to_string())));
    assert_eq!(broken.current(), &GameBindings::Unavailable("failed to read p.ini: bad".to_string()));
}

// ---------------------------------------------------------------- config

#[test]
fn config_manager_keeps_settings_until_a_valid_reload() {
    let mut m: ConfigManager<i32> = ConfigManager::loaded("c.toml".to_string(), 1, stamp(1), ConfigStartup::Loaded);
    assert_eq!(m.startup(), &ConfigStartup::Loaded);
    assert!(m.current_from_file());
    assert_eq!(m.check_for_reload(Ok(Some(stamp(1))), None), ConfigReload::Unchanged);

    let r = m.check_for_reload(Ok(Some(stamp(2))), Some(ConfigRead::Invalid("bad threshold".to_string())));
    assert_eq!(r, ConfigReload::Invalid("bad threshold".to_string()));
    assert_eq!(*m.current(), 1);

    let r = m.check_for_reload(Ok(Some(stamp(3))), Some(ConfigRead::Parsed(7)));
    assert_eq!(r, ConfigReload::Reloaded);
    assert_eq!(*m.current(), 7);

    let r = m.check_for_reload(Ok(Some(stamp(4))), Some(ConfigRead::ReadFailed("locked".to_string())));
    assert_eq!(r, ConfigReload::ReadError("locked".to_string()));
    let r = m.check_for_reload(Ok(Some(stamp(4))), Some(ConfigRead::ReadFailed("locked".to_string())));
    assert_eq!(r, ConfigReload::Unchanged);

    assert_eq!(m.check_for_reload(Ok(None), None), ConfigReload::Removed);
    assert_eq!(*m.current(), 7);
}

#[test]
fn config_fallback_is_not_from_file() {
    let m: ConfigManager<i32> = ConfigManager::fallback("c.toml".to_string(), 3, "read-only".to_string());
    assert!(!m.current_from_file());
    assert_eq!(m.startup(), &ConfigStartup::BuiltInFallback("read-only".to_string()));
    assert!(!GeneralConfig::default().enable_in_hideout);
}

// ---------------------------------------------------------------- engine

#[test]
fn engine_starts_disarmed_and_toggles_only_when_focused() {
    let mut e = Engine::new(0);
    assert!(!e.armed);
    assert_eq!(e.show(EngineStatus::Disarmed), Some(EngineStatus::Disarmed));
    assert_eq!(e.show(EngineStatus::Disarmed), None);
    assert_eq!(e.toggle(true, false), Toggle::Unchanged);
    assert!(!e.armed);
    assert_eq!(e.toggle(false, true), Toggle::Unchanged);
    assert_eq!(e.toggle(true, true), Toggle::Armed);
    assert!(e.armed);
    assert_eq!(e.toggle(true, true), Toggle::Unchanged);
    assert_eq!(e.toggle(false, true), Toggle::Unchanged);
    assert_eq!(e.toggle(true, true), Toggle::Disarmed(None));
    assert!(!e.armed);
}

#[test]
fn engine_gate_pauses_without_focus_or_keyboard() {
    let mut e = Engine::new(0);
    assert_eq!(e.gate(true, &GameBindings::Gamepad), Gate::Idle);
    e.toggle(true, true);
    assert_eq!(e.gate(false, &GameBindings::Gamepad), Gate::Paused(Some(EngineStatus::PausedBackground)));
    assert!(e.needs_refresh);
    assert_eq!(e.gate(true, &GameBindings::Gamepad), Gate::Paused(Some(EngineStatus::PausedGamepad)));
    assert_eq!(e.gate(true, &GameBindings::Unavailable("x".to_string())), Gate::Paused(Some(EngineStatus::PausedBindings)));
    let b = parse_reader(WASD_TEXT, "p").unwrap();
    assert_eq!(e.gate(true, &b), Gate::Proceed(KeyBinding::new(81, KeyModifier::NoModifier), KeyBinding::new(50, KeyModifier::NoModifier)));
}

#[test]
fn engine_schedules_checks() {
    let mut e = Engine::new(1000);
    assert!(!e.config_check_due(1999));
    assert!(e.config_check_due(2000));
    assert!(!e.config_check_due(2999));
    assert!(!e.binding_check_due(2999));
    assert!(e.binding_check_due(3000));
    assert!(e.idle_check_due(1000));
    assert!(!e.idle_check_due(1500));
    assert!(e.idle_check_due(2000));
}

#[test]
fn engine_refresh_and_bad_samples() {
    let mut e = Engine::new(0);
    e.toggle(true, true);
    assert_eq!(e.armed_refresh(None, 10), Some(EngineStatus::Reconnecting));
    assert_eq!(e.refresh_plan(9), RefreshPlan::Wait);
    assert_eq!(e.refresh_plan(10), RefreshPlan::Now);
    assert_eq!(e.refresh_result(None, 10), None);
    assert_eq!(e.refresh_plan(259), RefreshPlan::Wait);
    assert_eq!(e.refresh_result(Some(EngineStatus::Armed), 300), Some(EngineStatus::Armed));
    assert_eq!(e.refresh_plan(300), RefreshPlan::NotNeeded);

    assert_eq!(e.bad_sample(false, 400), None);
    assert_eq!(e.bad_sample(false, 500), None);
    assert_eq!(e.bad_sample(false, 600), Some(EngineStatus::Reconnecting));
    assert!(e.needs_refresh);
    assert_eq!(e.next_refresh, 600);

    let mut f = Engine::new(0);
    f.bad_sample(true, 5);
    assert!(f.needs_refresh);

    let mut g = Engine::new(0);
    g.area_instance_checked(Some(true), 5);
    assert!(!g.needs_refresh);
    g.area_instance_checked(Some(false), 6);
    assert!(g.needs_refresh);
}

#[test]
fn engine_pauses_in_towns_hideouts_and_when_dead() {
    let area = |town: bool, hideout: bool| AreaInfo {
        id: "x".to_string(),
        name: "x".to_string(),
        act: 1,
        is_town: town,
        is_hideout: hideout,
        world_data_offset: 0,
        world_data: 0,
        area_row: 0,
    };
    assert_eq!(area_status(&area(true, true), true), EngineStatus::PausedTown);
    assert_eq!(area_status(&area(false, true), false), EngineStatus::PausedHideout);
    assert_eq!(area_status(&area(false, true), true), EngineStatus::Armed);
    assert!(!area(true, false).allows_auto_flask(true));
    assert!(!area(false, true).allows_auto_flask(false));
    assert!(area(false, false).allows_auto_flask(false));
    assert_eq!(area(false, false).kind(), "combat area");
    assert_eq!(area(false, true).kind(), "hideout");

    let mut e = Engine::new(0);
    assert_eq!(e.life_check(pool(0, 100)), (false, Some(EngineStatus::PausedDead)));
    assert_eq!(e.life_check(pool(5, 100)), (true, Some(EngineStatus::Armed)));
    assert_eq!(EngineStatus::PausedDead.text(), "PAUSED (dead)");
}

#[test]
fn flask_fires_only_below_threshold_with_charges_and_after_the_guard() {
    let mut s = FlaskState::new();
    let due = FlaskInput { enabled: true, above_threshold: Some(false), locked: false, charges: Some(charges(30, 10)) };
    assert_eq!(maybe_fire(&mut s, due, 0), FlaskDecision::Fire(charges(30, 10)));
    s.mark_fired(0);
    assert_eq!(maybe_fire(&mut s, due, 999), FlaskDecision::Skip);
    assert_eq!(maybe_fire(&mut s, due, 1000), FlaskDecision::Fire(charges(30, 10)));
    assert_eq!(maybe_fire(&mut s, FlaskInput { above_threshold: Some(true), ..due }, 5000), FlaskDecision::Skip);
    assert_eq!(maybe_fire(&mut s, FlaskInput { above_threshold: None, ..due }, 5000), FlaskDecision::Skip);
    assert_eq!(maybe_fire(&mut s, FlaskInput { enabled: false, ..due }, 5000), FlaskDecision::Skip);
    assert_eq!(maybe_fire(&mut s, FlaskInput { locked: true, ..due }, 5000), FlaskDecision::Skip);

    let low = FlaskInput { charges: Some(charges(5, 10)), ..due };
    assert_eq!(
        maybe_fire(&mut s, low, 5000),
        FlaskDecision::Blocked(Some(BlockNotice::NotEnoughCharges { current: 5, per_use: 10 }))
    );
    assert_eq!(maybe_fire(&mut s, low, 5100), FlaskDecision::Blocked(None));
    let empty = FlaskInput { charges: None, ..due };
    assert_eq!(maybe_fire(&mut s, empty, 5200), FlaskDecision::Blocked(None));
    s.clear_block_notice();
    assert_eq!(maybe_fire(&mut s, empty, 5300), FlaskDecision::Blocked(Some(BlockNotice::EmptySlot)));
    assert_eq!(block_message("Life", 0, BlockNotice::EmptySlot), "Life flask blocked: slot 1 is empty/unreadable");
    assert_eq!(
        block_message("Mana", 1, BlockNotice::NotEnoughCharges { current: 5, per_use: 10 }),
        "Mana flask blocked: 5 charges, 10 needed"
    );
}

#[test]
fn ci_like_characters_never_use_the_life_flask() {
    let mut e = Engine::new(0);
    let vitals = LiveVitals { health: pool(1, 1), mana: None, energy_shield: Some(pool(10, 3000)) };
    let due = FlaskInput { enabled: true, above_threshold: Some(false), locked: false, charges: Some(charges(30, 10)) };
    assert_eq!(e.decide_life(&vitals, due, 0), FlaskDecision::Skip);
    assert_eq!(e.decide_mana(&vitals, due, 0), FlaskDecision::Skip);
    let normal = LiveVitals { health: pool(10, 100), mana: Some(pool(1, 100)), energy_shield: None };
    assert_eq!(e.decide_life(&normal, due, 0), FlaskDecision::Fire(charges(30, 10)));
    e.fired(0, 0);
    assert_eq!(e.decide_life(&normal, due, 10), FlaskDecision::Skip);
    assert_eq!(e.decide_mana(&normal, due, 10), FlaskDecision::Fire(charges(30, 10)));
}

#[test]
fn reload_messages() {
    assert!(config_reload_messages(&ConfigReload::Unchanged, "s").is_empty());
    assert_eq!(config_reload_messages(&ConfigReload::Reloaded, "s"), vec!["Config reloaded: s".to_string()]);
    assert_eq!(
        config_reload_messages(&ConfigReload::Invalid("e".to_string()), "s"),
        vec!["Config reload failed: e".to_string(), "Keeping previous settings.".to_string()]
    );
    assert_eq!(
        binding_reload_messages(&BindingReload::ReadError("e".to_string()), "s"),
        vec!["PoE2 binding check failed: e".to_string(), "Auto input paused until bindings can be read again.".to_string()]
    );
    assert_eq!(
        binding_reload_messages(&BindingReload::Removed, "s"),
        vec!["PoE2 input config removed; auto input paused until it returns.".to_string()]
    );
}

// ---------------------------------------------------------------- game memory structures

#[test]
fn little_endian_fields() {
    let b = [0xFEu8, 0xFF, 0xFF, 0xFF, 0x01, 0x02, 0x03, 0x04, 0x80];
    assert_eq!(read_i32_from(&b, 0), -2);
    assert_eq!(read_u32_from(&b, 4), 0x04030201);
    assert_eq!(read_u16_from(&b, 4), 0x0201);
    assert_eq!(read_i16_from(&b, 0), -2);
    assert_eq!(read_u64_from(&b, 1), 0x80040302_01FFFFFF);
}

#[test]
fn vital_pools_decode_and_validate() {
    let mut bytes = vec![0u8; 0x24];
    bytes[0] = 50;
    bytes[4] = 0x10;
    bytes[5] = 0x27;
    bytes[0x1C] = 0xE8;
    bytes[0x1D] = 0x03;
    bytes[0x20] = 0xBC;
    bytes[0x21] = 0x02;
    let p = decode_vital(&bytes);
    assert_eq!(p, VitalPool { current: 700, total: 1000, reserved_flat: 50, reserved_fraction: 10_000 });
    assert_eq!(p.usable_max(), 0);
    assert!(p.looks_valid());
    assert!(!pool(0, 0).looks_valid());
    assert!(pool(0, 0).looks_valid_or_zero());
    assert!(!pool(1002, 1000).looks_valid());
    assert!(pool(1001, 1000).looks_valid());
    assert!(!vital_acceptable(pool(0, 100), true));
    assert!(vital_acceptable(pool(0, 100), false));
    assert_eq!(VitalPool { current: 0, total: 10, reserved_flat: 0, reserved_fraction: -100 }.usable_max(), 10);
}

#[test]
fn sample_checks_report_the_failing_part() {
    let e = check_identity(None, 5, Identity::AreaInstance).unwrap_err();
    assert_eq!((e.kind, e.message.as_str()), (ErrorKind::InvalidData, "AreaInstance is unavailable"));
    let e = check_identity(Some(6), 5, Identity::LocalPlayer).unwrap_err();
    assert_eq!((e.kind, e.message.as_str()), (ErrorKind::Interrupted, "LocalPlayer changed"));
    assert_eq!(check_identity(Some(5), 5, Identity::LocalPlayer).unwrap(), 5);
    let e = check_pool(None, PoolKind::EnergyShield).unwrap_err();
    assert_eq!(e.message, "energy-shield pool is unreadable");
    let e = check_pool(Some(pool(0, 0)), PoolKind::Mana).unwrap_err();
    assert_eq!(e.message, "mana pool failed sanity validation");
    assert_eq!(check_pool(Some(pool(0, 0)), PoolKind::EnergyShield).unwrap(), pool(0, 0));
    assert_eq!(add_signed(100, -50).unwrap(), 50);
    assert_eq!(add_signed(10, -50).unwrap_err().message, "RIP-relative address overflow");
    assert_eq!(wstring_layout(7), Some(false));
    assert_eq!(wstring_layout(8), Some(true));
    assert_eq!(wstring_layout(0), None);
    assert_eq!(wstring_layout(257), None);
    assert!(is_character_metadata("Metadata/Characters/Int/IntFour"));
    assert!(!is_character_metadata("Metadata/Monsters/x"));
    let mut v = vec![1usize, 2];
    push_unique(&mut v, 2);
    push_unique(&mut v, 3);
    assert_eq!(v, vec![1, 2, 3]);
}

#[test]
fn area_rows_and_texts() {
    let mut row = vec![0u8; 0x16];
    row[2] = 1; // id pointer 0x10000
    row[10] = 2; // name pointer 0x20000
    row[0x10] = 0xFF;
    row[0x11] = 0xFF;
    row[0x12] = 0xFF;
    row[0x13] = 0xFF;
    row[0x14] = 1;
    assert_eq!(parse_area_row(&row), Some(AreaRow { id_ptr: 0x10000, name_ptr: 0x20000, act: -1, raw_town: 1 }));
    row[0x15] = 2;
    assert_eq!(parse_area_row(&row), None);

    let text: Vec<u8> = "Hi".encode_utf16().chain([0u16]).flat_map(|u| u.to_le_bytes()).collect();
    assert_eq!(read_utf16_z(&text).unwrap(), "Hi");
    assert_eq!(read_utf16_z(&[0x48, 0]).unwrap_err().message, "unterminated UTF-16 area text");
    assert_eq!(read_utf16_z(&[0x00, 0xD8, 0, 0]).unwrap_err().message, "invalid UTF-16 area text");

    let hideout = AreaRow { id_ptr: 0x10000, name_ptr: 0x10000, act: 1, raw_town: 0 };
    let a = classify_area("HideoutFelled".to_string(), "Felled Hideout".to_string(), hideout, 0x368, 1, 2).unwrap();
    assert!(a.is_hideout && !a.is_town);
    let a = classify_area("MapHideoutX".to_string(), "x".to_string(), hideout, 0x368, 1, 2).unwrap();
    assert!(!a.is_hideout);
    let a = classify_area("HeistHub".to_string(), "Hub".to_string(), hideout, 0x368, 1, 2).unwrap();
    assert!(a.is_town);
    assert!(classify_area("".to_string(), "x".to_string(), hideout, 0, 0, 0).is_none());
    assert!(!valid_text("a\u{7}"));
    assert!(valid_text("Clearfell"));
    let offsets = world_data_offsets();
    assert_eq!(offsets[0], 0x368);
    assert_eq!(offsets.len(), 11);
}

#[test]
fn flask_inventory_checks() {
    assert_eq!(validate_vector_range(0, 0, 8, 4, "L").unwrap(), 0);
    assert_eq!(validate_vector_range(0x10000, 0x10010, 8, 4, "L").unwrap(), 2);
    assert_eq!(validate_vector_range(0x100, 0x110, 8, 4, "L").unwrap_err().message, "L has an invalid range");
    assert_eq!(validate_vector_range(0x10000, 0x10009, 8, 4, "L").unwrap_err().message, "L has an invalid element stride");
    assert_eq!(validate_vector_range(0x10000, 0x10030, 8, 4, "L").unwrap_err().message, "L contains an implausible 6 elements");
    assert_eq!(check_charge_values(0, 1, 0).unwrap(), (0, 1));
    assert_eq!(
        check_charge_values(-1, 0, 1).unwrap_err().message,
        "flask slot 2 returned implausible charge values: current=-1, per_use=0"
    );
    assert_eq!(check_inventory_dimensions(2, 1).unwrap(), 2);
    assert_eq!(check_inventory_dimensions(0, 1).unwrap_err().message, "implausible PoE2 flask inventory dimensions: 0x1");
    assert_eq!(check_inventory_dimensions(10, 10).unwrap_err().message, "implausible PoE2 flask inventory size: 10x10");
    assert_eq!(check_item_cells(2, 3).unwrap_err().message, "flask inventory dimensions imply 2 cells but ItemList contains 3");
    assert_eq!(check_item_cells(1, 1).unwrap_err().message, "PoE2 flask inventory exposes only 1 cells; expected at least two");
    assert_eq!(player_info_offset(0x10).unwrap_err().message, "LocalPlayer offset is smaller than PlayerInfo.LocalPlayerPtr");
    assert_eq!(player_info_offset(0x5D0).unwrap(), 0x5B0);
    assert_eq!(check_pointer(0xABC, 5).unwrap_err().message, "invalid pointer at 0x0000000000000ABC");
    assert_eq!(check_slot_item(0, 0).unwrap(), None);
    assert_eq!(check_slot_item(5, 0).unwrap_err().message, "flask slot 1 has an invalid inventory-item pointer");

    let mut cache = FlaskChargeCache::new();
    let entry = CachedChargeComponent { inventory_item: 0x10000, item_entity: 1, charges_component: 2 };
    cache.set(0, Some(entry));
    assert_eq!(cache.lookup(0, 0x10000), Some(entry));
    assert_eq!(cache.lookup(0, 0x10008), None);
    cache.clear();
    assert_eq!(cache.lookup(0, 0x10000), None);
    assert!(charges(10, 10).usable());
    assert!(!charges(9, 10).usable());
}

#[test]
fn buffs_checks() {
    assert_eq!(check_player_id(0).unwrap_err().message, "implausible player entity id: 0");
    assert_eq!(check_player_id(7).unwrap(), 7);
    assert_eq!(check_status_vector(0, 0).unwrap(), (0, 0));
    assert_eq!(check_status_vector(0x10000, 0x10010).unwrap(), (0x10000, 2));
    assert_eq!(check_status_vector(0x10000, 0x10004).unwrap_err().message, "Buffs status-effect vector is not pointer-aligned");
    assert_eq!(check_status_vector(0x10000, 0x10000 + 8 * 513).unwrap_err().message, "implausible status-effect count: 513");
    assert_eq!(effect_slot(7, 7, 1, 0x10000), Some(1));
    assert_eq!(effect_slot(7, 8, 1, 0x10000), None);
    assert_eq!(effect_slot(7, 7, 2, 0x10000), None);
    let mut def = vec![0u8; 0x68];
    def[0x67] = 4;
    assert_eq!(classify_definition(&def), DefinitionClass::Lock);
    def[0x67] = 0;
    assert_eq!(classify_definition(&def), DefinitionClass::NotLock);
    def[2] = 1;
    assert_eq!(classify_definition(&def), DefinitionClass::NeedsName(0x10000));
    assert!(is_flask_lock_name("flask_effect_mana"));
    assert!(is_flask_lock_name("visual_display_buff"));
    assert!(!is_flask_lock_name("flask_effect"));
    let name: Vec<u8> = [0x61u16, 0xD800, 0].iter().flat_map(|u| u.to_le_bytes()).collect();
    assert_eq!(read_buff_name(&name).unwrap(), "a\u{FFFD}");
    let mut locks = FlaskLocks::none();
    locks.lock(1);
    assert!(!locks.all_locked());
    locks.lock(0);
    assert!(locks.all_locked());
    let probe = FlaskLockProbe::new(1, 2, 3);
    assert_eq!(probe.cached_lock(0x10000), None);
}

#[test]
fn entity_component_table_checks() {
    assert_eq!(checked_count(0x100, 0x140, 8, 256), Some(8));
    assert_eq!(checked_count(0x100, 0x100, 8, 256), None);
    assert_eq!(checked_count(0x100, 0x104, 8, 256), None);
    assert_eq!(checked_count(0x100, 0x100 + 8 * 257, 8, 256), None);
    assert_eq!(component_slot(-1, 4), None);
    assert_eq!(component_slot(4, 4), None);
    assert_eq!(component_slot(3, 4), Some(3));
}

#[test]
fn pe_headers_and_sections() {
    let mut dos = vec![0u8; 64];
    assert_eq!(pe_header_offset(&dos).unwrap_err().message, "main module does not start with an MZ header");
    dos[0] = b'M';
    dos[1] = b'Z';
    dos[0x3c] = 0xFF;
    dos[0x3d] = 0xFF;
    dos[0x3e] = 0xFF;
    dos[0x3f] = 0xFF;
    assert_eq!(pe_header_offset(&dos).unwrap_err().message, "implausible PE header offset: 0xffffffff");
    dos[0x3c] = 0x80;
    dos[0x3d] = 0;
    dos[0x3e] = 0;
    dos[0x3f] = 0;
    assert_eq!(pe_header_offset(&dos).unwrap(), 0x80);
    assert!(check_pe_signature(b"PE\0\0").is_ok());
    assert_eq!(check_pe_signature(b"PE\0\x01").unwrap_err().message, "PE signature is invalid");

    let mut fh = vec![0u8; 20];
    assert_eq!(parse_file_header(&fh).unwrap_err().message, "implausible PE section count: 0");
    fh[2] = 3;
    fh[16] = 0xF0;
    assert_eq!(parse_file_header(&fh).unwrap(), (3, 0xF0));

    let mut header = vec![0u8; 40];
    header[..5].copy_from_slice(b".text");
    header[8] = 0x00;
    header[9] = 0x10; // virtual size 0x1000
    header[13] = 0x10; // virtual address 0x1000
    header[17] = 0x20; // raw size 0x2000
    assert!(match_section(&header, ".data", 0x40_0000, 0x10_0000).unwrap().is_none());
    let s = match_section(&header, ".text", 0x40_0000, 0x10_0000).unwrap().unwrap();
    assert_eq!((s.name.as_str(), s.address, s.size), (".text", 0x40_1000, 0x2000));
    assert_eq!(
        match_section(&header, ".text", 0x40_0000, 0x2000).unwrap_err().message,
        "PE section .text has an invalid virtual range"
    );
    assert_eq!(section_not_found(".text").message, "PE section \".text\" was not found");
}

#[test]
fn chunked_scan_finds_matches_across_chunk_boundaries() {
    let size = SCAN_CHUNK_SIZE + 100;
    let mut region = vec![0u8; size];
    let pattern = vec![Some(0xAA), None, Some(0xBB)];
    for start in [0usize, 500, SCAN_CHUNK_SIZE - 6, SCAN_CHUNK_SIZE - 1, size - 3] {
        region[start] = 0xAA;
        region[start + 1] = 0x11;
        region[start + 2] = 0xBB;
    }
    let base = 0x1000usize;
    let mut scanner = match scan_pattern_start(base, size, pattern).unwrap() {
        ScanStart::Scan(s) => s,
        ScanStart::Done(_) => panic!("region is large enough"),
    };
    let mut reads = 0;
    while let Some((address, len)) = scanner.next_chunk() {
        let offset = address - base;
        scanner.feed(&region[offset..offset + len]);
        reads += 1;
    }
    assert_eq!(reads, 2);
    let found = scanner.finish();
    assert_eq!(
        found,
        vec![
            base,
            base + 500,
            base + SCAN_CHUNK_SIZE - 6,
            base + SCAN_CHUNK_SIZE - 1,
            base + size - 3
        ]
    );
    assert_eq!(scan_pattern_start(0, 10, vec![]).err().unwrap().message, "pattern must not be empty");
    assert!(matches!(scan_pattern_start(0, 1, vec![None, None]).unwrap(), ScanStart::Done(v) if v.is_empty()));
}

#[test]
fn process_and_module_selection() {
    let entries = vec![("explorer.exe".to_string(), 1u32), ("pathofexile.EXE".to_string(), 2), ("PathOfExileSteam.exe".to_string(), 3)];
    assert_eq!(select_process(&entries).unwrap(), 2);
    assert_eq!(select_process(&vec![]).unwrap_err().message, "Path of Exile 2 process was not found");
    let module = |name: &str, base: usize| ModuleInfo { name: name.to_string(), base_address: base, size: 10 };
    let modules = vec![module("ntdll.dll", 1), module("PathOfExileSteam.exe", 2)];
    assert_eq!(select_main_module(&modules).unwrap().base_address, 2);
    let modules = vec![module("first.exe", 1), module("ntdll.dll", 2)];
    assert_eq!(select_main_module(&modules).unwrap().base_address, 1);
    assert_eq!(select_main_module(&vec![]).unwrap_err().message, "no modules were returned for the PoE2 process");
}

// ---------------------------------------------------------------- launcher, command line, diagnostics

#[test]
fn launcher_environment_lookup() {
    assert_eq!(env_value(b"A=1\0A=2\0", b"A").unwrap(), b"1".to_vec());
    assert_eq!(env_value(b"NOEQUALS\0B=x=y", b"B").unwrap(), b"x=y".to_vec());
    assert_eq!(env_value(b"AB=1", b"A"), None);
    assert_eq!(env_value(b"", b"A"), None);
    assert!(names_game_exe(b"wine\0PathOfExileSteam.exe\0"));
    assert!(!names_game_exe(b"wine\0PathOfExile.exe\0"));
}

#[test]
fn command_line_modes() {
    assert_eq!(parse_mode(&vec![]), ArgsChoice::Run(Mode::Auto));
    assert_eq!(parse_mode(&vec!["--auto".to_string()]), ArgsChoice::Run(Mode::Auto));
    assert_eq!(parse_mode(&vec!["--debug".to_string()]), ArgsChoice::Run(Mode::Debug));
    assert_eq!(parse_mode(&vec!["-h".to_string()]), ArgsChoice::Help);
    assert_eq!(parse_mode(&vec!["--debug".to_string(), "--auto".to_string()]), ArgsChoice::Usage);
    assert_eq!(parse_mode(&vec!["--x".to_string()]), ArgsChoice::Usage);
    assert_eq!(signature_retry(0, true), (1, false));
    assert_eq!(signature_retry(2, true), (3, true));
    assert_eq!(signature_retry(2, false), (0, false));
}

#[test]
fn diagnostics_formatting() {
    let snapshot = FlaskChargeSnapshot { slots: [Some(charges(40, 10)), None] };
    assert_eq!(charge_pair(snapshot, 0), Some((40, 10)));
    assert_eq!(charge_pair(snapshot, 1), None);
    assert_eq!(charge_text(Some((40, 10))), "40/10");
    assert_eq!(charge_text(Some((-3, 10))), "-3/10");
    assert_eq!(charge_text(None), "empty/unreadable");
    assert_eq!(yes_no(true), "YES");
    assert_eq!(yes_no(false), "NO");
}

#[test]
fn comments_and_surrounding_white_space_change_no_binding() {
    let padded = "# settings\n\n  user_input_mode =  wasd\t\n; keys\n[WASD_ACTION_KEYS]  \n   \nuse_flask_in_slot1\t= 81\n  use_flask_in_slot2=50   \n# end\n";
    assert_eq!(parse_reader(padded, "p").unwrap(), parse_reader(WASD_TEXT, "p").unwrap());
    let missing = "# user_input_mode=wasd\n\n";
    assert_eq!(parse_reader(missing, "p").unwrap_err(), parse_reader("", "p").unwrap_err());
}

#[test]
fn mode_labels_parse_back_to_their_modes() {
    for mode in [KeyboardMode::MouseAndKeyboard, KeyboardMode::Wasd] {
        let text = format!(
            "user_input_mode={}\n[ACTION_KEYS]\nuse_flask_in_slot1=49\nuse_flask_in_slot2=50\n[WASD_ACTION_KEYS]\nuse_flask_in_slot1=49\nuse_flask_in_slot2=50\n",
            mode.label()
        );
        match parse_reader(&text, "p").unwrap() {
            GameBindings::Keyboard { mode: parsed, .. } => assert_eq!(parsed, mode),
            other => panic!("unexpected bindings {other:?}"),
        }
    }
    assert_eq!(parse_reader("user_input_mode=gamepad\n", "p").unwrap(), GameBindings::Gamepad);
    assert_eq!(
        parse_reader("user_input_mode=touch\n", "p").unwrap(),
        GameBindings::UnsupportedMode("touch".to_string())
    );
}

#[test]
fn a_tick_is_cleared_only_through_every_check_in_order() {
    let area = |town: bool| AreaInfo {
        id: "x".to_string(),
        name: "x".to_string(),
        act: 1,
        is_town: town,
        is_hideout: false,
        world_data_offset: 0,
        world_data: 0,
        area_row: 0,
    };
    let bindings = parse_reader(WASD_TEXT, "p").unwrap();
    let mut e = Engine::new(0);
    // Disarmed: nothing gets through.
    e.toggle(false, true);
    assert!(matches!(e.gate(true, &bindings), Gate::Idle));
    assert!(e.area_gate(&area(false), false));
    e.life_check(pool(50, 100));
    assert!(!e.cleared());
    // Armed, focused, keyboard, combat area, alive.
    e.toggle(true, true);
    assert!(matches!(e.gate(true, &bindings), Gate::Proceed(..)));
    assert!(e.area_gate(&area(false), false));
    e.life_check(pool(50, 100));
    assert!(e.cleared());
    // The next tick starts over.
    e.toggle(false, true);
    assert!(!e.cleared());
    // A town stops the tick.
    assert!(matches!(e.gate(true, &bindings), Gate::Proceed(..)));
    assert!(!e.area_gate(&area(true), false));
    e.life_check(pool(50, 100));
    assert!(!e.cleared());
    // So does an unfocused game.
    e.toggle(false, true);
    e.gate(false, &bindings);
    e.area_gate(&area(false), false);
    e.life_check(pool(50, 100));
    assert!(!e.cleared());
}

#[test]
fn a_missing_binding_file_never_leaves_stale_bindings() {
    let mut m = BindingManager::load("p.ini".to_string(), None, None);
    assert_eq!(m.check_for_reload(Ok(None), None), BindingReload::Unchanged);
    assert_eq!(m.current(), &GameBindings::Unavailable("p.ini not found".to_string()));
    assert_eq!(m.check_for_reload(Ok(Some(stamp(1))), Some(FileRead::Contents(WASD_TEXT.to_string()))), BindingReload::Reloaded);
    assert_eq!(m.check_for_reload(Ok(None), None), BindingReload::Removed);
    assert_eq!(m.check_for_reload(Ok(None), None), BindingReload::Unchanged);
    assert_eq!(m.current(), &GameBindings::Unavailable("p.ini not found".to_string()));
}

#[test]
fn offsets_with_no_step_only_when_nothing_is_in_range() {
    assert_eq!(prioritized_offsets_of(0x20, 0x30, 0x10, 0), Vec::<usize>::new());
    assert_eq!(prioritized_offsets_of(0x20, 0x30, 0x10, 8), Vec::<usize>::new());
}

fn prioritized_offsets_of(center: usize, start: usize, end: usize, step: usize) -> Vec<usize> {
    poe2_auto_flask::offsets::prioritized_offsets(center, start, end, step)
}

#[test]
fn config_directory_follows_the_platform() {
    let s = |t: &str| Some(t.to_string());
    assert_eq!(config_base_dir(true, s("C:\\AppData"), s("/x"), s("/home/u")), s("C:\\AppData"));
    assert_eq!(config_base_dir(true, s(""), None, s("/home/u")), None);
    assert_eq!(config_base_dir(false, s("C:\\AppData"), s("/x"), s("/home/u")), s("/x"));
    assert_eq!(config_base_dir(false, None, s(""), s("/home/u")), s("/home/u/.config"));
    assert_eq!(config_base_dir(false, None, None, None), None);
}

#[test]
fn utf16_decoding_pairs_surrogates_and_flags_lone_ones() {
    let units = [0x61u16, 0xD83D, 0xDE00, 0xDC00, 0xD800, 0x62];
    assert_eq!(utf16_lossy(&units), "a\u{1F600}\u{FFFD}\u{FFFD}b");
    assert_eq!(utf16_lossy(&units), String::from_utf16_lossy(&units));
    assert_eq!(utf16_strict(&units), None);
    assert_eq!(utf16_strict(&[0x61, 0xD83D, 0xDE00]), Some("a\u{1F600}".to_string()));
    assert_eq!(utf16_strict(&[]), Some(String::new()));
}
