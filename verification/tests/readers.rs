use poe2_auto_flask::error::ErrorKind;
use poe2_auto_flask::flask_inventory::{
    check_list_shape, check_player_data_count, check_player_info, flask_inventory_missing,
    is_flask_inventory,
};
use poe2_auto_flask::launcher::{parse_launcher_args, LauncherArgs};
use poe2_auto_flask::poe2::{
    chain_attempts, game_state_pattern, vital_offsets, ChainAttempt,
    AREA_INSTANCE_LOCAL_PLAYER, IN_GAME_STATE_AREA_INSTANCE,
};
use poe2_auto_flask::process::{read_utf8_z, utf16_bytes_lossy, utf16_z_to_string};


fn args(list: &[&str]) -> Vec<Vec<u8>> {
    list.iter().map(|a| a.as_bytes().to_vec()).collect()
}

#[test]
fn inventory_checks_report_their_errors() {
    assert!(check_player_info(0x10_0000, 0x10_0000).is_ok());
    let error = check_player_info(0x10_0000, 0x20_0000).unwrap_err();
    assert_eq!(error.kind, ErrorKind::Interrupted);
    assert_eq!(
        error.message,
        "PlayerInfo.LocalPlayerPtr no longer matches the resolved local player"
    );
    assert_eq!(
        check_player_data_count(0).unwrap_err().message,
        "ServerData.PlayerServerDataPtr is empty"
    );
    assert!(check_player_data_count(1).is_ok());
    assert!(is_flask_inventory(12));
    assert!(!is_flask_inventory(1));
    let missing = flask_inventory_missing();
    assert_eq!(missing.kind, ErrorKind::NotFound);
    assert_eq!(missing.message, "PoE2 flask inventory (id 12) was not found in ServerData");
    assert!(check_list_shape(5, 5, true).is_ok());
    assert_eq!(check_list_shape(5, 4, false).unwrap_err().message, "flask inventory shape changed");
    assert_eq!(check_list_shape(1, 1, true).unwrap_err().kind, ErrorKind::Interrupted);
    assert!(check_list_shape(1, 1, false).is_ok());
}

#[test]
fn usual_chain_is_tried_first_for_every_state() {
    let attempts = chain_attempts(&vec![0x1000_0000, 0x2000_0000]);
    assert_eq!(attempts.len(), 2 * (1 + 28 + 16 * 29));
    let usual = |s| ChainAttempt {
        in_game_state: s,
        area_offset: IN_GAME_STATE_AREA_INSTANCE,
        player_offset: AREA_INSTANCE_LOCAL_PLAYER,
    };
    assert_eq!(attempts[0], usual(0x1000_0000));
    assert_eq!(attempts[1], usual(0x2000_0000));
    assert_eq!(
        attempts[2],
        ChainAttempt { in_game_state: 0x1000_0000, area_offset: 0x2A0, player_offset: 0x5C8 }
    );
    assert_eq!(
        attempts[3],
        ChainAttempt { in_game_state: 0x1000_0000, area_offset: 0x2A0, player_offset: 0x5D8 }
    );
    let third_pass = 2 + 2 * 28;
    assert_eq!(
        attempts[third_pass],
        ChainAttempt { in_game_state: 0x1000_0000, area_offset: 0x298, player_offset: 0x5D0 }
    );
    assert!(chain_attempts(&Vec::new()).is_empty());
}

#[test]
fn vital_offsets_start_at_configured_field() {
    let offsets = vital_offsets(0x1B0);
    assert_eq!(&offsets[..5], &[0x1B0, 0x1AC, 0x1B4, 0x1A8, 0x1B8]);
    assert_eq!(offsets.len(), 25);
    assert_eq!(*offsets.last().unwrap(), 0x1F0);
    let mana = vital_offsets(0x208);
    assert_eq!(mana[0], 0x208);
    assert!(mana.contains(&0x1E8));
    assert!(mana.contains(&0x248));
    assert!(!mana.contains(&0x24C));
}

#[test]
fn game_state_signature_has_wildcards() {
    let pattern = game_state_pattern();
    assert_eq!(pattern.len(), 31);
    assert_eq!(pattern[0], Some(0x48));
    assert_eq!(pattern[3], None);
    assert_eq!(pattern[30], Some(0x50));
}

#[test]
fn launcher_arguments() {
    assert_eq!(parse_launcher_args(&args(&["--help"])), LauncherArgs::Help);
    assert_eq!(parse_launcher_args(&args(&["--debug", "-h"])), LauncherArgs::Help);
    assert_eq!(
        parse_launcher_args(&args(&[])),
        LauncherArgs::Run { helper: None, helper_args: vec![] }
    );
    assert_eq!(
        parse_launcher_args(&args(&["--debug", "--helper", "/opt/h.exe"])),
        LauncherArgs::Run {
            helper: Some(b"/opt/h.exe".to_vec()),
            helper_args: vec![b"--debug".to_vec()],
        }
    );
    assert_eq!(
        parse_launcher_args(&args(&["--auto", "--", "--help", "x"])),
        LauncherArgs::Run {
            helper: None,
            helper_args: vec![b"--auto".to_vec(), b"--help".to_vec(), b"x".to_vec()],
        }
    );
    assert_eq!(
        parse_launcher_args(&args(&["--helper"])),
        LauncherArgs::Invalid("--helper requires a path".to_string())
    );
    assert_eq!(
        parse_launcher_args(&args(&["--fast"])),
        LauncherArgs::Invalid("unknown argument: --fast".to_string())
    );
}

#[test]
fn process_texts_decode() {
    assert_eq!(read_utf8_z(b"Life\0Buffs"), "Life");
    assert_eq!(read_utf8_z(b"Charges"), "Charges");
    assert_eq!(utf16_bytes_lossy(&[0x4D, 0, 0x65, 0, 0x74, 0]), "Met");
    let name: Vec<u16> = "PathOfExileSteam.exe\0junk".encode_utf16().collect();
    assert_eq!(utf16_z_to_string(&name), "PathOfExileSteam.exe");
}

use poe2_auto_flask::flask_inventory::{InventoryResolve, InventoryStep};
use poe2_auto_flask::poe2::{check_vitals_sample, LiveVitals, VitalPool, VitalsProbe, VitalsReads};
use poe2_auto_flask::process::PeSection;
use std::collections::HashMap;

const AREA: usize = 0x1000_0000;
const PLAYER: usize = 0x2000_0000;
const SERVER: usize = 0x3000_0000;
const PLAYER_DATA_LIST: usize = 0x3100_0000;
const PLAYER_DATA: usize = 0x3200_0000;
const DESCRIPTORS: usize = 0x3300_0000;
const FLASKS: usize = 0x3400_0000;
const ITEMS: usize = 0x3500_0000;

/// A tiny memory image: pointer-sized words and 32-bit values at addresses.
struct Memory {
    words: HashMap<usize, u64>,
    ints: HashMap<usize, i32>,
}

fn game_memory(flask_id_index: usize, width: i32, height: i32) -> Memory {
    let info = AREA + 0x5D0 - 0x20;
    let mut words = HashMap::new();
    words.insert(info + 0x20, PLAYER as u64);
    words.insert(info, SERVER as u64);
    words.insert(SERVER + 0x48, PLAYER_DATA_LIST as u64);
    words.insert(SERVER + 0x50, (PLAYER_DATA_LIST + 8) as u64);
    words.insert(PLAYER_DATA_LIST, PLAYER_DATA as u64);
    words.insert(PLAYER_DATA + 0x320, DESCRIPTORS as u64);
    words.insert(PLAYER_DATA + 0x328, (DESCRIPTORS + 3 * 0x18) as u64);
    words.insert(DESCRIPTORS + flask_id_index * 0x18 + 8, FLASKS as u64);
    words.insert(FLASKS + 0x170, ITEMS as u64);
    words.insert(FLASKS + 0x178, (ITEMS + 5 * 8) as u64);
    let mut ints = HashMap::new();
    for i in 0..3 {
        ints.insert(DESCRIPTORS + i * 0x18, if i == flask_id_index { 12 } else { 1 + i as i32 });
    }
    ints.insert(FLASKS + 0x150, width);
    ints.insert(FLASKS + 0x154, height);
    Memory { words, ints }
}

fn resolve(memory: &Memory, local_player_offset: usize) -> Result<poe2_auto_flask::flask_inventory::FlaskInventoryProbe, String> {
    let (mut resolution, mut step) = InventoryResolve::start(AREA, PLAYER, local_player_offset);
    loop {
        step = match step {
            InventoryStep::ReadWord(a) => resolution.word_read(memory.words[&a] as usize),
            InventoryStep::ReadInt(a) => resolution.int_read(memory.ints[&a]),
            InventoryStep::Done(r) => return r.map_err(|e| e.message),
        };
    }
}

#[test]
fn flask_inventory_resolves_through_the_server_data() {
    let probe = resolve(&game_memory(1, 1, 5), 0x5D0).unwrap();
    assert_eq!(probe.player_info_offset, 0x5B0);
    assert_eq!(probe.server_data, SERVER);
    assert_eq!(probe.player_data, PLAYER_DATA);
    assert_eq!(probe.flask_inventory, FLASKS);
    assert_eq!((probe.width, probe.height, probe.item_cells), (1, 5, 5));
}

#[test]
fn flask_inventory_resolution_reports_failures() {
    assert_eq!(
        resolve(&game_memory(1, 1, 5), 0x10).unwrap_err(),
        "LocalPlayer offset is smaller than PlayerInfo.LocalPlayerPtr"
    );
    assert_eq!(
        resolve(&game_memory(7, 1, 5), 0x5D0).unwrap_err(),
        "PoE2 flask inventory (id 12) was not found in ServerData"
    );
    assert_eq!(
        resolve(&game_memory(0, 0, 5), 0x5D0).unwrap_err(),
        "implausible PoE2 flask inventory dimensions: 0x5"
    );
    assert_eq!(
        resolve(&game_memory(2, 2, 5), 0x5D0).unwrap_err(),
        "flask inventory dimensions imply 10 cells but ItemList contains 5"
    );
    let mut moved = game_memory(1, 1, 5);
    moved.words.insert(AREA + 0x5D0, 0x2100_0000);
    assert_eq!(
        resolve(&moved, 0x5D0).unwrap_err(),
        "PlayerInfo.LocalPlayerPtr no longer matches the resolved local player"
    );
    let mut unreadable = game_memory(1, 1, 5);
    unreadable.words.insert(AREA + 0x5D0 - 0x20, 0x10);
    assert_eq!(
        resolve(&unreadable, 0x5D0).unwrap_err(),
        "invalid pointer at 0x00000000100005B0"
    );
}

fn pool(current: i32, total: i32) -> VitalPool {
    VitalPool { current, total, reserved_flat: 0, reserved_fraction: 0 }
}

fn vitals_probe(mana: bool) -> VitalsProbe {
    VitalsProbe {
        text_section: PeSection { name: ".text".to_string(), address: 0x14000_1000, size: 0x1000 },
        aob_match_count: 1,
        game_state_slot: 0x15000_0000,
        game_state: 0x16000_0000,
        in_game_state: 0x17000_0000,
        area_instance: AREA,
        area_instance_offset: 0x2A0,
        local_player: PLAYER,
        local_player_offset: 0x5D0,
        metadata: "Metadata/Characters/Int/Int".to_string(),
        life_component: 0x4000_0000,
        health_offset: 0x1B0,
        mana_offset: mana.then_some(0x208),
        energy_shield_offset: None,
        health: pool(100, 100),
        mana: None,
        energy_shield: None,
    }
}

#[test]
fn vitals_sample_fails_closed() {
    let reads = VitalsReads {
        area_instance: Some(AREA),
        local_player: Some(PLAYER),
        health: Some(pool(50, 100)),
        mana: Some(pool(20, 40)),
        energy_shield: None,
    };
    assert_eq!(
        check_vitals_sample(&vitals_probe(true), reads).unwrap(),
        LiveVitals { health: pool(50, 100), mana: Some(pool(20, 40)), energy_shield: None }
    );
    assert_eq!(
        check_vitals_sample(&vitals_probe(false), reads).unwrap().mana,
        None
    );
    let moved = check_vitals_sample(&vitals_probe(true), VitalsReads { area_instance: Some(AREA + 8), ..reads })
        .unwrap_err();
    assert_eq!(moved.kind, poe2_auto_flask::error::ErrorKind::Interrupted);
    assert_eq!(moved.message, "AreaInstance changed");
    assert_eq!(
        check_vitals_sample(&vitals_probe(true), VitalsReads { local_player: None, ..reads })
            .unwrap_err()
            .message,
        "LocalPlayer is unavailable"
    );
    assert_eq!(
        check_vitals_sample(&vitals_probe(true), VitalsReads { mana: Some(pool(5, 0)), ..reads })
            .unwrap_err()
            .message,
        "mana pool failed sanity validation"
    );
}

use poe2_auto_flask::buffs::{FlaskLockProbe, LockAction, LockScan};

const PLAYER_ID: u32 = 77;

fn status(definition: u64, source: u32, slot: i16) -> Vec<u8> {
    let mut bytes = vec![0u8; 0x3C];
    bytes[0..8].copy_from_slice(&definition.to_le_bytes());
    bytes[0x20..0x24].copy_from_slice(&source.to_le_bytes());
    bytes[0x3A..0x3C].copy_from_slice(&slot.to_le_bytes());
    bytes
}

fn definition_bytes(kind: u8, name_ptr: u64) -> Vec<u8> {
    let mut bytes = vec![0u8; 0x68];
    bytes[0..8].copy_from_slice(&name_ptr.to_le_bytes());
    bytes[0x67] = kind;
    bytes
}

#[test]
fn timed_flask_effects_lock_their_slots() {
    let mut probe = FlaskLockProbe::new(PLAYER, PLAYER_ID, 0x4000_0000);
    let mut scan = LockScan::new();
    assert_eq!(
        scan.effect(&probe, &status(0x9000_0000, PLAYER_ID, 0), true),
        LockAction::ReadDefinition(0x9000_0000)
    );
    assert_eq!(scan.definition_read(&mut probe, &definition_bytes(4, 0)), LockAction::Next);
    assert_eq!(scan.locks.slots, [true, false]);
    assert_eq!(probe.cached_lock(0x9000_0000), Some(true));
    // The same definition on the other slot needs no second read.
    assert_eq!(
        scan.effect(&probe, &status(0x9000_0000, PLAYER_ID, 1), true),
        LockAction::AllLocked
    );
    assert_eq!(scan.locks.slots, [true, true]);
}

#[test]
fn foreign_or_untimed_effects_are_skipped() {
    let probe = FlaskLockProbe::new(PLAYER, PLAYER_ID, 0x4000_0000);
    let mut scan = LockScan::new();
    assert_eq!(scan.effect(&probe, &status(0x9000_0000, 5, 0), true), LockAction::Next);
    assert_eq!(scan.effect(&probe, &status(0x9000_0000, PLAYER_ID, 2), true), LockAction::Next);
    assert_eq!(scan.effect(&probe, &status(0x9000_0000, PLAYER_ID, -1), true), LockAction::Next);
    assert_eq!(scan.effect(&probe, &status(0x20, PLAYER_ID, 0), true), LockAction::Next);
    assert_eq!(scan.effect(&probe, &status(0x9000_0000, PLAYER_ID, 0), false), LockAction::Next);
    assert_eq!(scan.locks.slots, [false, false]);
}

#[test]
fn named_flask_effects_lock_and_others_are_remembered() {
    let mut probe = FlaskLockProbe::new(PLAYER, PLAYER_ID, 0x4000_0000);
    let mut scan = LockScan::new();
    assert_eq!(
        scan.effect(&probe, &status(0x9100_0000, PLAYER_ID, 1), true),
        LockAction::ReadDefinition(0x9100_0000)
    );
    assert_eq!(
        scan.definition_read(&mut probe, &definition_bytes(7, 0x9200_0000)),
        LockAction::ReadName(0x9200_0000)
    );
    assert_eq!(scan.name_read(&mut probe, "flask_effect_mana"), LockAction::Next);
    assert_eq!(scan.locks.slots, [false, true]);

    assert_eq!(
        scan.effect(&probe, &status(0x9300_0000, PLAYER_ID, 0), true),
        LockAction::ReadDefinition(0x9300_0000)
    );
    assert_eq!(scan.definition_read(&mut probe, &definition_bytes(7, 0x10)), LockAction::Next);
    assert_eq!(probe.cached_lock(0x9300_0000), Some(false));
    assert_eq!(scan.effect(&probe, &status(0x9300_0000, PLAYER_ID, 0), true), LockAction::Next);

    assert_eq!(
        scan.effect(&probe, &status(0x9400_0000, PLAYER_ID, 0), true),
        LockAction::ReadDefinition(0x9400_0000)
    );
    assert_eq!(
        scan.definition_read(&mut probe, &definition_bytes(7, 0x9500_0000)),
        LockAction::ReadName(0x9500_0000)
    );
    assert_eq!(scan.name_read(&mut probe, "some_other_buff"), LockAction::Next);
    assert_eq!(probe.cached_lock(0x9400_0000), Some(false));
    assert_eq!(scan.locks.slots, [false, true]);
}

use poe2_auto_flask::entity::{ComponentLookup, LookupStep};

const ENTITY: usize = 0x6000_0000;
const DETAILS: usize = 0x6100_0000;
const LOOKUP: usize = 0x6200_0000;
const COMPONENTS: usize = 0x6300_0000;
const BUCKET: usize = 0x6400_0000;

/// An entity with components `Render`, `Life`, `Buffs` and a lookup bucket naming them in
/// another order; `broken_entry` makes the first bucket entry unreadable.
fn entity_memory(broken_entry: bool) -> (HashMap<usize, u64>, HashMap<usize, i32>, HashMap<usize, String>) {
    let mut words = HashMap::new();
    let mut ints = HashMap::new();
    let mut names = HashMap::new();
    words.insert(ENTITY + 8, DETAILS as u64);
    words.insert(DETAILS + 0x28, LOOKUP as u64);
    words.insert(ENTITY + 0x10, COMPONENTS as u64);
    words.insert(ENTITY + 0x18, (COMPONENTS + 3 * 8) as u64);
    words.insert(LOOKUP + 0x28, BUCKET as u64);
    words.insert(LOOKUP + 0x30, (BUCKET + 3 * 16) as u64);
    for (i, (name, index)) in [("Buffs", 2), ("Life", 1), ("Render", 0)].iter().enumerate() {
        let name_ptr = 0x6500_0000 + i * 0x100;
        if !(broken_entry && i == 0) {
            words.insert(BUCKET + i * 16, name_ptr as u64);
        }
        ints.insert(BUCKET + i * 16 + 8, *index);
        names.insert(name_ptr, name.to_string());
    }
    for i in 0..3 {
        words.insert(COMPONENTS + i * 8, (0x7000_0000 + i * 0x1000) as u64);
    }
    (words, ints, names)
}

fn lookup(memory: &(HashMap<usize, u64>, HashMap<usize, i32>, HashMap<usize, String>), wanted: &str) -> Option<usize> {
    let (mut lookup, mut step) = ComponentLookup::start(ENTITY, wanted);
    loop {
        step = match step {
            LookupStep::ReadWord(a) => lookup.word_read(memory.0.get(&a).map(|v| *v as usize)),
            LookupStep::ReadInt(a) => lookup.int_read(memory.1.get(&a).copied()),
            LookupStep::ReadName(a) => lookup.name_read(memory.2.get(&a).map(|s| s.as_str())),
            LookupStep::Done(r) => return r,
        };
    }
}

#[test]
fn components_are_found_by_name() {
    let memory = entity_memory(false);
    assert_eq!(lookup(&memory, "Life"), Some(0x7000_1000));
    assert_eq!(lookup(&memory, "Buffs"), Some(0x7000_2000));
    assert_eq!(lookup(&memory, "Render"), Some(0x7000_0000));
    assert_eq!(lookup(&memory, "Charges"), None);
}

#[test]
fn unreadable_bucket_entries_are_skipped() {
    let memory = entity_memory(true);
    assert_eq!(lookup(&memory, "Buffs"), None);
    assert_eq!(lookup(&memory, "Life"), Some(0x7000_1000));
}

#[test]
fn broken_component_tables_find_nothing() {
    let mut memory = entity_memory(false);
    memory.0.insert(ENTITY + 0x18, (COMPONENTS + 3 * 8 + 4) as u64);
    assert_eq!(lookup(&memory, "Life"), None);
    let mut memory = entity_memory(false);
    memory.1.insert(BUCKET + 16 + 8, 3);
    assert_eq!(lookup(&memory, "Life"), None);
    let mut memory = entity_memory(false);
    memory.0.remove(&(ENTITY + 8));
    assert_eq!(lookup(&memory, "Life"), None);
}

use poe2_auto_flask::poe2::{ChainSearch, ChainStep};

const IN_GAME: usize = 0x8000_0000;
const DETAILS_OF_PLAYER: usize = 0x8100_0000;
const METADATA_TEXT: usize = 0x8200_0000;
const LIFE: usize = 0x8300_0000;

struct ChainMemory {
    words: HashMap<usize, u64>,
    ints: HashMap<usize, i32>,
    texts: HashMap<(usize, usize), String>,
    pools: HashMap<usize, VitalPool>,
    life: Option<usize>,
}

fn chain_memory(metadata: &str) -> ChainMemory {
    let mut words = HashMap::new();
    words.insert(IN_GAME + 0x2A0, AREA as u64);
    words.insert(AREA + 0x5D0, PLAYER as u64);
    words.insert(PLAYER + 8, DETAILS_OF_PLAYER as u64);
    words.insert(DETAILS_OF_PLAYER + 8, METADATA_TEXT as u64);
    let mut ints = HashMap::new();
    ints.insert(DETAILS_OF_PLAYER + 8 + 0x10, metadata.encode_utf16().count() as i32);
    let mut texts = HashMap::new();
    texts.insert((METADATA_TEXT, metadata.encode_utf16().count()), metadata.to_string());
    let mut pools = HashMap::new();
    pools.insert(LIFE + 0x1B0, pool(0, 900));
    pools.insert(LIFE + 0x1AC, pool(640, 900));
    pools.insert(LIFE + 0x208, pool(300, 400));
    pools.insert(LIFE + 0x248, pool(0, 0));
    ChainMemory { words, ints, texts, pools, life: Some(LIFE) }
}

fn search(memory: &ChainMemory, states: Vec<usize>) -> Result<VitalsProbe, String> {
    let section = PeSection { name: ".text".to_string(), address: 0x14000_1000, size: 0x1000 };
    let (mut search, mut step) = ChainSearch::start(&states, section, 1, 0x9000_0000, 0x9100_0000);
    loop {
        step = match step {
            ChainStep::ReadWord(a) => search.word_read(memory.words.get(&a).map(|v| *v as usize)),
            ChainStep::ReadInt(a) => search.int_read(memory.ints.get(&a).copied()),
            ChainStep::ReadText(a, n) => search.text_read(memory.texts.get(&(a, n)).cloned()),
            ChainStep::FindLife(entity) => {
                assert_eq!(entity, PLAYER);
                search.life_found(memory.life)
            }
            ChainStep::ReadPool(a) => search.pool_read(memory.pools.get(&a).copied()),
            ChainStep::Done(r) => return r.map_err(|e| e.message),
        };
    }
}

#[test]
fn player_chain_resolves_through_the_usual_offsets() {
    let memory = chain_memory("Metadata/Characters/Int/IntFour");
    let probe = search(&memory, vec![0x7F00_0000, IN_GAME]).unwrap();
    assert_eq!(probe.in_game_state, IN_GAME);
    assert_eq!(probe.area_instance, AREA);
    assert_eq!(probe.area_instance_offset, 0x2A0);
    assert_eq!(probe.local_player, PLAYER);
    assert_eq!(probe.local_player_offset, 0x5D0);
    assert_eq!(probe.metadata, "Metadata/Characters/Int/IntFour");
    assert_eq!(probe.life_component, LIFE);
    // The usual Life offset holds a dead pool, so the next offset outward is taken.
    assert_eq!(probe.health_offset, 0x1AC);
    assert_eq!(probe.health, pool(640, 900));
    assert_eq!(probe.mana_offset, Some(0x208));
    assert_eq!(probe.energy_shield_offset, Some(0x248));
    assert_eq!(probe.energy_shield, Some(pool(0, 0)));
    assert_eq!(probe.game_state, 0x9100_0000);
    assert_eq!(probe.text_section.name, ".text");
}

#[test]
fn player_chain_short_metadata_is_stored_in_place() {
    let mut memory = chain_memory("Metadata/Characters/Dex/Dex");
    memory.ints.insert(DETAILS_OF_PLAYER + 8 + 0x10, 5);
    memory.texts.insert((DETAILS_OF_PLAYER + 8, 5), "Metad".to_string());
    assert!(search(&memory, vec![IN_GAME]).is_err());
}

#[test]
fn player_chain_needs_a_character_and_life() {
    let expected = "GameState resolved at 0x0000000091000000, but no validated local player/Life chain was found";
    assert_eq!(search(&chain_memory("Metadata/Monsters/Zombie"), vec![IN_GAME]).unwrap_err(), expected);
    let mut no_life = chain_memory("Metadata/Characters/Str/Str");
    no_life.life = None;
    assert_eq!(search(&no_life, vec![IN_GAME]).unwrap_err(), expected);
    let mut no_mana = chain_memory("Metadata/Characters/Str/Str");
    no_mana.pools.remove(&(LIFE + 0x208));
    let probe = search(&no_mana, vec![IN_GAME]).unwrap();
    assert_eq!(probe.mana, None);
    assert_eq!(probe.mana_offset, None);
    assert_eq!(
        search(&chain_memory("x"), vec![]).unwrap_err(),
        "GameState was readable, but it did not expose any candidate game states"
    );
}

#[test]
fn player_chain_falls_back_to_nearby_player_offsets() {
    let mut memory = chain_memory("Metadata/Characters/Int/Int");
    memory.words.remove(&(AREA + 0x5D0));
    memory.words.insert(AREA + 0x5D8, PLAYER as u64);
    let probe = search(&memory, vec![IN_GAME]).unwrap();
    assert_eq!(probe.local_player_offset, 0x5D8);
    assert_eq!(probe.area_instance_offset, 0x2A0);
}

use poe2_auto_flask::area::{AreaSearch, AreaStep};

const WORLD: usize = 0xA000_0000;
const AREA_DETAILS: usize = 0xA100_0000;
const AREA_ROW: usize = 0xA200_0000;
const AREA_ID: usize = 0xA300_0000;
const AREA_NAME: usize = 0xA400_0000;

fn utf16_z(text: &str, units: usize) -> Vec<u8> {
    let mut bytes: Vec<u8> = text.encode_utf16().flat_map(|u| u.to_le_bytes()).collect();
    bytes.resize(units * 2, 0);
    bytes
}

fn area_memory(world_offset: usize, id: &str, raw_town: u8) -> (HashMap<usize, u64>, HashMap<(usize, usize), Vec<u8>>) {
    let mut words = HashMap::new();
    words.insert(IN_GAME + world_offset, WORLD as u64);
    words.insert(WORLD + 0x98, AREA_DETAILS as u64);
    words.insert(AREA_DETAILS + 0x98, AREA_ROW as u64);
    let mut row = vec![0u8; 0x16];
    row[0..8].copy_from_slice(&(AREA_ID as u64).to_le_bytes());
    row[8..16].copy_from_slice(&(AREA_NAME as u64).to_le_bytes());
    row[0x10..0x14].copy_from_slice(&3i32.to_le_bytes());
    row[0x14] = raw_town;
    row[0x15] = 1;
    let mut bytes = HashMap::new();
    bytes.insert((AREA_ROW, 0x16), row);
    bytes.insert((AREA_ID, 256), utf16_z(id, 128));
    bytes.insert((AREA_NAME, 384), utf16_z("The Grelwood", 192));
    (words, bytes)
}

fn find_area(memory: &(HashMap<usize, u64>, HashMap<(usize, usize), Vec<u8>>)) -> Result<poe2_auto_flask::area::AreaInfo, String> {
    let (mut search, mut step) = AreaSearch::start(IN_GAME);
    loop {
        step = match step {
            AreaStep::ReadWord(a) => search.word_read(memory.0.get(&a).map(|v| *v as usize)),
            AreaStep::ReadBytes(a, n) => search.bytes_read(memory.1.get(&(a, n)).cloned()),
            AreaStep::Done(r) => return r.map_err(|e| e.message),
        };
    }
}

#[test]
fn area_is_found_through_the_world_data() {
    let area = find_area(&area_memory(0x368, "G1_2", 0)).unwrap();
    assert_eq!(area.id, "G1_2");
    assert_eq!(area.name, "The Grelwood");
    assert_eq!(area.act, 3);
    assert!(!area.is_town && !area.is_hideout);
    assert_eq!(area.world_data_offset, 0x368);
    assert_eq!(area.world_data, WORLD);
    assert_eq!(area.area_row, AREA_ROW);
    assert!(area.allows_auto_flask(false));
}

#[test]
fn area_search_tries_nearby_world_data_offsets() {
    let area = find_area(&area_memory(0x370, "HideoutFelled", 0)).unwrap();
    assert_eq!(area.world_data_offset, 0x370);
    assert!(area.is_hideout);
    assert_eq!(area.kind(), "hideout");
    let town = find_area(&area_memory(0x340, "G1_town", 1)).unwrap();
    assert!(town.is_town);
    assert_eq!(
        find_area(&area_memory(0x398, "G1_2", 0)).unwrap_err(),
        "current PoE2 area metadata could not be resolved"
    );
    let mut broken = area_memory(0x368, "G1_2", 0);
    broken.1.insert((AREA_ID, 256), vec![0x41; 256]);
    assert!(find_area(&broken).is_err());
}

use poe2_auto_flask::launcher::{proton_environment, ProtonEnvironment};

#[test]
fn proton_environment_of_the_game_process() {
    let cmdline = b"python\0proton\0waitforexitandrun\0PathOfExileSteam.exe\0";
    let environ = b"SteamAppId=2694490\0STEAM_COMPAT_CLIENT_INSTALL_PATH=/home/u/.steam\0STEAM_COMPAT_DATA_PATH=/games/compat\0STEAM_COMPAT_TOOL_PATHS=/a:/b\0";
    assert_eq!(
        proton_environment(cmdline, environ),
        Some(ProtonEnvironment {
            steam_client: b"/home/u/.steam".to_vec(),
            compat_data: b"/games/compat".to_vec(),
            tool_paths: b"/a:/b".to_vec(),
        })
    );
    assert_eq!(proton_environment(b"other.exe\0", environ), None);
    assert_eq!(
        proton_environment(cmdline, b"SteamAppId=1\0STEAM_COMPAT_CLIENT_INSTALL_PATH=/s\0STEAM_COMPAT_DATA_PATH=/c\0STEAM_COMPAT_TOOL_PATHS=/t\0"),
        None
    );
    assert_eq!(
        proton_environment(cmdline, b"SteamAppId=2694490\0STEAM_COMPAT_DATA_PATH=/c\0STEAM_COMPAT_TOOL_PATHS=/t\0"),
        None
    );
}

use poe2_auto_flask::process::{SectionSearch, SectionStep};

const IMAGE: usize = 0x1_4000_0000;

/// An image with an MZ header pointing at a PE header at 0x80, two sections, and the given
/// name for the second one.
fn image(second: &[u8; 8], second_size: u32) -> HashMap<(usize, usize), Vec<u8>> {
    let mut reads = HashMap::new();
    let mut dos = vec![0u8; 64];
    dos[0] = b'M';
    dos[1] = b'Z';
    dos[0x3C..0x40].copy_from_slice(&0x80i32.to_le_bytes());
    reads.insert((IMAGE, 64), dos);
    let mut file = vec![0u8; 20];
    file[2..4].copy_from_slice(&2u16.to_le_bytes());
    file[16..18].copy_from_slice(&0xF0u16.to_le_bytes());
    reads.insert((IMAGE + 0x84, 20), file);
    let table = IMAGE + 0x80 + 24 + 0xF0;
    let header = |name: &[u8; 8], address: u32, size: u32| {
        let mut h = vec![0u8; 40];
        h[..8].copy_from_slice(name);
        h[8..12].copy_from_slice(&size.to_le_bytes());
        h[12..16].copy_from_slice(&address.to_le_bytes());
        h[16..20].copy_from_slice(&(size / 2).to_le_bytes());
        h
    };
    reads.insert((table, 40), header(b".rdata\0\0", 0x1000, 0x2000));
    reads.insert((table + 40, 40), header(second, 0x4000, second_size));
    reads
}

fn find_section(reads: &HashMap<(usize, usize), Vec<u8>>, target: &str) -> Result<poe2_auto_flask::process::PeSection, String> {
    let (mut search, mut step) = SectionSearch::start(IMAGE, 0x10000, target);
    loop {
        step = match step {
            SectionStep::ReadBytes(a, n) => search.bytes_read(&reads[&(a, n)]),
            SectionStep::Done(r) => return r.map_err(|e| e.message),
        };
    }
}

#[test]
fn sections_are_found_through_the_pe_headers() {
    let reads = image(b".text\0\0\0", 0x3000);
    let text = find_section(&reads, ".text").unwrap();
    assert_eq!(text.name, ".text");
    assert_eq!(text.address, IMAGE + 0x4000);
    assert_eq!(text.size, 0x3000);
    assert_eq!(find_section(&reads, ".rdata").unwrap().address, IMAGE + 0x1000);
    assert_eq!(find_section(&reads, ".data").unwrap_err(), "PE section \".data\" was not found");
}

#[test]
fn sections_outside_the_image_are_refused() {
    let reads = image(b".text\0\0\0", 0xD000);
    assert_eq!(
        find_section(&reads, ".text").unwrap_err(),
        "PE section .text has an invalid virtual range"
    );
    let mut broken = image(b".text\0\0\0", 0x3000);
    broken.get_mut(&(IMAGE, 64)).unwrap()[0] = b'X';
    assert_eq!(
        find_section(&broken, ".text").unwrap_err(),
        "main module does not start with an MZ header"
    );
}

use poe2_auto_flask::cli::{attach_failed, reattach_after_game, AttachFailure, AttachStep};

#[test]
fn attach_failures_follow_the_platform() {
    assert_eq!(attach_failed(AttachFailure::PermissionDenied, false, false), AttachStep::Fail);
    assert_eq!(attach_failed(AttachFailure::PermissionDenied, true, true), AttachStep::Fail);
    assert_eq!(attach_failed(AttachFailure::NotFound, true, false), AttachStep::Stop);
    assert_eq!(attach_failed(AttachFailure::NotFound, false, false), AttachStep::Retry(true));
    assert_eq!(attach_failed(AttachFailure::NotFound, false, true), AttachStep::Retry(false));
    assert_eq!(attach_failed(AttachFailure::Other, true, false), AttachStep::Retry(true));
    assert!(reattach_after_game(false));
    assert!(!reattach_after_game(true));
}
