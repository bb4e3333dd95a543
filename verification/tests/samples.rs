use std::collections::HashMap;

use poe2_auto_flask::buffs::{FlaskLockProbe, LockSample, LockStep};
use poe2_auto_flask::charge_sample::{ChargeSample, FlaskProbeResolve, ProbeStep, SampleStep};
use poe2_auto_flask::flask_inventory::{
    FlaskChargeCache, FlaskChargeSnapshot, FlaskChargeState, FlaskInventoryProbe,
};

const AREA: usize = 0x1000_0000;
const PLAYER: usize = 0x2000_0000;
const SERVER: usize = 0x3000_0000;
const PLAYER_DATA_LIST: usize = 0x3100_0000;
const PLAYER_DATA: usize = 0x3200_0000;
const DESCRIPTORS: usize = 0x3300_0000;
const FLASKS: usize = 0x3400_0000;
const ITEMS: usize = 0x3500_0000;
const ITEM: usize = 0x7000_0000;
const ENTITY: usize = 0x7100_0000;
const CHARGES: usize = 0x7200_0000;
const INTERNAL: usize = 0x7300_0000;
const OTHER_CHARGES: usize = 0x7400_0000;
const OTHER_INTERNAL: usize = 0x7500_0000;
const INFO: usize = AREA + 0x5B0;

/// A byte-addressed memory image and the Charges component of each entity.
#[derive(Clone)]
struct Mem {
    bytes: HashMap<usize, u8>,
    components: HashMap<usize, usize>,
}

impl Mem {
    fn new() -> Self {
        Mem { bytes: HashMap::new(), components: HashMap::new() }
    }

    fn put(&mut self, address: usize, data: &[u8]) {
        for (i, b) in data.iter().enumerate() {
            self.bytes.insert(address + i, *b);
        }
    }

    fn put_word(&mut self, address: usize, value: usize) {
        self.put(address, &(value as u64).to_le_bytes());
    }

    fn put_i32(&mut self, address: usize, value: i32) {
        self.put(address, &value.to_le_bytes());
    }

    fn forget(&mut self, address: usize, len: usize) {
        for i in 0..len {
            self.bytes.remove(&(address + i));
        }
    }

    fn read(&self, address: usize, len: usize) -> Option<Vec<u8>> {
        (0..len).map(|i| self.bytes.get(&(address + i)).copied()).collect()
    }
}

/// The charge layout: the player info, the item list of five cells with slot 0 filled and slot
/// 1 empty, and the filled slot's item, entity and Charges component.
fn charge_memory(current: i32, per_use: i32) -> Mem {
    let mut m = Mem::new();
    m.put(INFO, &[0u8; 0x28]);
    m.put_word(INFO + 0x20, PLAYER);
    m.put_word(INFO, SERVER);
    m.put_word(FLASKS + 0x170, ITEMS);
    m.put_word(FLASKS + 0x178, ITEMS + 5 * 8);
    m.put_word(ITEMS, ITEM);
    m.put_word(ITEMS + 8, 0);
    m.put_word(ITEM, ENTITY);
    m.components.insert(ENTITY, CHARGES);
    m.put_word(CHARGES + 0x10, INTERNAL);
    m.put_i32(CHARGES + 0x18, current);
    m.put_i32(INTERNAL + 0x18, per_use);
    m
}

fn probe() -> FlaskInventoryProbe {
    FlaskInventoryProbe {
        area_instance: AREA,
        local_player: PLAYER,
        player_info_offset: 0x5B0,
        server_data: SERVER,
        player_data: PLAYER_DATA,
        flask_inventory: FLASKS,
        width: 1,
        height: 5,
        item_cells: 5,
    }
}

/// Runs a charge sample on `mem`; returns its result, the cache it leaves and the number of
/// component lookups it made.
fn run(mem: &Mem, mut sample: ChargeSample, mut step: SampleStep) -> (Result<FlaskChargeSnapshot, String>, FlaskChargeCache, usize) {
    let mut lookups = 0;
    loop {
        let read = match step {
            SampleStep::ReadWord(a) => mem.read(a, 8),
            SampleStep::ReadInt(a) => mem.read(a, 4),
            SampleStep::ReadBytes(a, n) => mem.read(a, n),
            SampleStep::FindCharges(entity) => {
                lookups += 1;
                step = sample.charges_found(mem.components.get(&entity).copied());
                continue;
            }
            SampleStep::ReadError => return (Err("read failed".to_string()), sample.into_cache(), lookups),
            SampleStep::Done(r) => return (r.map_err(|e| e.message), sample.into_cache(), lookups),
        };
        step = match (read, &step) {
            (Some(b), SampleStep::ReadWord(_)) => {
                sample.word_read(u64::from_le_bytes(b.try_into().unwrap()) as usize)
            }
            (Some(b), SampleStep::ReadInt(_)) => sample.int_read(i32::from_le_bytes(b.try_into().unwrap())),
            (Some(b), _) => sample.bytes_read(&b),
            (None, _) if sample.reads_values() => sample.read_failed(),
            (None, _) => return (Err("read failed".to_string()), sample.into_cache(), lookups),
        };
    }
}

fn full(mem: &Mem) -> (Result<FlaskChargeSnapshot, String>, usize) {
    let (sample, step) = ChargeSample::full(&probe());
    let (r, _, lookups) = run(mem, sample, step);
    (r, lookups)
}

fn fast(mem: &Mem, cache: FlaskChargeCache) -> (Result<FlaskChargeSnapshot, String>, FlaskChargeCache, usize) {
    let (sample, step) = ChargeSample::fast(&probe(), cache);
    run(mem, sample, step)
}

fn state(component: usize, current: i32, per_use: i32) -> FlaskChargeState {
    FlaskChargeState { inventory_item: ITEM, item_entity: ENTITY, charges_component: component, current, per_use }
}

#[test]
fn full_and_fast_samples_agree() {
    let mem = charge_memory(30, 10);
    let (full_result, full_lookups) = full(&mem);
    let (fast_result, cache, fast_lookups) = fast(&mem, FlaskChargeCache::new());
    let expected = FlaskChargeSnapshot { slots: [Some(state(CHARGES, 30, 10)), None] };
    assert_eq!(full_result.unwrap(), expected);
    assert_eq!(fast_result.unwrap(), expected);
    assert_eq!((full_lookups, fast_lookups), (1, 1));
    let (again, _, lookups) = fast(&mem, cache);
    assert_eq!(again.unwrap(), expected);
    assert_eq!(lookups, 0);
}

#[test]
fn cached_components_keep_charge_values_live() {
    let mut mem = charge_memory(30, 10);
    let (_, cache, _) = fast(&mem, FlaskChargeCache::new());
    mem.put_i32(CHARGES + 0x18, 20);
    mem.components.clear();
    let (result, _, lookups) = fast(&mem, cache);
    assert_eq!(result.unwrap().slots[0], Some(state(CHARGES, 20, 10)));
    assert_eq!(lookups, 0);
}

#[test]
fn unreadable_cached_component_is_looked_up_once_more() {
    let mut mem = charge_memory(30, 10);
    let (_, cache, _) = fast(&mem, FlaskChargeCache::new());
    mem.forget(CHARGES + 0x10, 12);
    mem.components.insert(ENTITY, OTHER_CHARGES);
    mem.put_word(OTHER_CHARGES + 0x10, OTHER_INTERNAL);
    mem.put_i32(OTHER_CHARGES + 0x18, 40);
    mem.put_i32(OTHER_INTERNAL + 0x18, 20);
    let (result, cache, lookups) = fast(&mem, cache);
    assert_eq!(result.unwrap().slots[0], Some(state(OTHER_CHARGES, 40, 20)));
    assert_eq!(lookups, 1);
    // A component that was just looked up and cannot be read fails the sample.
    mem.forget(OTHER_INTERNAL + 0x18, 4);
    let (result, _, lookups) = fast(&mem, cache);
    assert_eq!(result.unwrap_err(), "read failed");
    assert_eq!(lookups, 1);
    assert_eq!(full(&mem).0.unwrap_err(), "read failed");
}

#[test]
fn implausible_charges_fail_the_sample() {
    let mem = charge_memory(-5, 0);
    assert_eq!(
        full(&mem).0.unwrap_err(),
        "flask slot 1 returned implausible charge values: current=-5, per_use=0"
    );
    let mut mem = charge_memory(30, 10);
    mem.put_word(CHARGES + 0x10, 0x20);
    assert_eq!(
        fast(&mem, FlaskChargeCache::new()).0.unwrap_err(),
        "flask slot 1 has an invalid Charges internal pointer"
    );
}

#[test]
fn identity_and_shape_changes_interrupt_the_sample() {
    let mut moved = charge_memory(30, 10);
    moved.put_word(INFO + 0x20, 0x2100_0000);
    assert_eq!(full(&moved).0.unwrap_err(), "local player changed while reading flask inventory");
    assert_eq!(
        fast(&moved, FlaskChargeCache::new()).0.unwrap_err(),
        "local player changed while reading flask inventory"
    );
    let mut server = charge_memory(30, 10);
    server.put_word(INFO, 0x3900_0000);
    assert_eq!(full(&server).0.unwrap_err(), "ServerData changed while reading flask inventory");
    assert_eq!(
        fast(&server, FlaskChargeCache::new()).0.unwrap_err(),
        "ServerData changed while reading flask inventory"
    );
    let mut shape = charge_memory(30, 10);
    shape.put_word(FLASKS + 0x178, ITEMS + 8);
    assert_eq!(full(&shape).0.unwrap_err(), "flask inventory shape changed");
    assert_eq!(fast(&shape, FlaskChargeCache::new()).0.unwrap_err(), "flask inventory shape changed");
}

#[test]
fn bad_flask_items_are_reported() {
    let mut bad = charge_memory(30, 10);
    bad.put_word(ITEMS + 8, 0x20);
    assert_eq!(full(&bad).0.unwrap_err(), "flask slot 2 has an invalid inventory-item pointer");
    let mut bare = charge_memory(30, 10);
    bare.components.clear();
    assert_eq!(
        fast(&bare, FlaskChargeCache::new()).0.unwrap_err(),
        "flask slot 1 item does not expose a readable Charges component"
    );
}

#[test]
fn emptied_slot_forgets_its_component() {
    let mut mem = charge_memory(30, 10);
    let (_, cache, _) = fast(&mem, FlaskChargeCache::new());
    mem.put_word(ITEMS, 0);
    let (result, cache, _) = fast(&mem, cache);
    assert_eq!(result.unwrap(), FlaskChargeSnapshot { slots: [None, None] });
    mem.put_word(ITEMS, ITEM);
    let (_, _, lookups) = fast(&mem, cache);
    assert_eq!(lookups, 1);
}

/// The whole chain to the flask inventory, with the charge layout behind it.
fn inventory_memory() -> Mem {
    let mut m = charge_memory(30, 10);
    m.put_word(SERVER + 0x48, PLAYER_DATA_LIST);
    m.put_word(SERVER + 0x50, PLAYER_DATA_LIST + 8);
    m.put_word(PLAYER_DATA_LIST, PLAYER_DATA);
    m.put_word(PLAYER_DATA + 0x320, DESCRIPTORS);
    m.put_word(PLAYER_DATA + 0x328, DESCRIPTORS + 3 * 0x18);
    for i in 0..3 {
        m.put_i32(DESCRIPTORS + i * 0x18, if i == 1 { 12 } else { 1 + i as i32 });
    }
    m.put_word(DESCRIPTORS + 0x18 + 8, FLASKS);
    m.put_i32(FLASKS + 0x150, 1);
    m.put_i32(FLASKS + 0x154, 5);
    m
}

fn resolve(mem: &Mem) -> Result<FlaskInventoryProbe, String> {
    let (mut resolution, mut step) = FlaskProbeResolve::start(AREA, PLAYER, 0x5D0);
    loop {
        (resolution, step) = match step {
            ProbeStep::ReadWord(a) => {
                let b = mem.read(a, 8).ok_or("read failed")?;
                resolution.word_read(u64::from_le_bytes(b.try_into().unwrap()) as usize)
            }
            ProbeStep::ReadInt(a) => {
                let b = mem.read(a, 4).ok_or("read failed")?;
                resolution.int_read(i32::from_le_bytes(b.try_into().unwrap()))
            }
            ProbeStep::ReadBytes(a, n) => {
                let b = mem.read(a, n).ok_or("read failed")?;
                resolution.bytes_read(&b)
            }
            ProbeStep::FindCharges(entity) => {
                resolution.charges_found(mem.components.get(&entity).copied())
            }
            ProbeStep::Done(r) => return r.map_err(|e| e.message),
        };
    }
}

#[test]
fn resolved_inventory_is_checked_by_a_full_sample() {
    let mem = inventory_memory();
    assert_eq!(resolve(&mem).unwrap(), probe());
    let mut bare = inventory_memory();
    bare.components.clear();
    assert_eq!(
        resolve(&bare).unwrap_err(),
        "flask slot 1 item does not expose a readable Charges component"
    );
    let mut empty = inventory_memory();
    empty.put_word(ITEMS, 0);
    empty.components.clear();
    assert_eq!(resolve(&empty).unwrap(), probe());
}

const PLAYER_ID: u32 = 77;
const BUFFS: usize = 0x4000_0000;
const EFFECTS: usize = 0x4100_0000;

fn timing_plausible(total_time: f32, time_left: f32) -> bool {
    total_time.is_finite()
        && time_left.is_finite()
        && (0.05..=60.0).contains(&total_time)
        && time_left > 0.0
        && time_left <= total_time + 0.25
}

/// A status effect at `at` (its bytes from offset 8), with its definition.
fn effect(m: &mut Mem, at: usize, definition: usize, source: u32, slot: i16, total: f32, left: f32) {
    m.put(at + 8, &[0u8; 0x3C]);
    m.put_word(at + 8, definition);
    m.put(at + 8 + 0x10, &total.to_le_bytes());
    m.put(at + 8 + 0x14, &left.to_le_bytes());
    m.put(at + 8 + 0x20, &source.to_le_bytes());
    m.put(at + 8 + 0x3A, &slot.to_le_bytes());
}

fn definition(m: &mut Mem, at: usize, kind: u8, name: Option<(usize, &str)>) {
    m.put(at, &[0u8; 0x68]);
    m.put(at + 0x67, &[kind]);
    if let Some((name_at, text)) = name {
        m.put_word(at, name_at);
        let mut units: Vec<u8> = text.encode_utf16().flat_map(|u| u.to_le_bytes()).collect();
        units.resize(256, 0);
        m.put(name_at, &units);
    }
}

fn buffs_memory(effects: &[usize]) -> Mem {
    let mut m = Mem::new();
    m.put(PLAYER + 0x88, &PLAYER_ID.to_le_bytes());
    if effects.is_empty() {
        m.put_word(BUFFS + 0x160, 0);
        m.put_word(BUFFS + 0x168, 0);
    } else {
        m.put_word(BUFFS + 0x160, EFFECTS);
        m.put_word(BUFFS + 0x168, EFFECTS + 8 * effects.len());
        for (i, e) in effects.iter().enumerate() {
            m.put_word(EFFECTS + 8 * i, *e);
        }
    }
    m
}

fn locks(mem: &Mem, probe: &mut FlaskLockProbe) -> Result<[bool; 2], String> {
    let (mut sample, mut step) = LockSample::start(probe);
    loop {
        step = match step {
            LockStep::ReadBytes(a, n) => {
                let b = mem.read(a, n).ok_or("read failed")?;
                sample.bytes_read(probe, &b)
            }
            LockStep::ReadStatus(a) => {
                let b = mem.read(a, 0x3C).ok_or("read failed")?;
                let total = f32::from_le_bytes(b[0x10..0x14].try_into().unwrap());
                let left = f32::from_le_bytes(b[0x14..0x18].try_into().unwrap());
                sample.status_read(probe, &b, timing_plausible(total, left))
            }
            LockStep::Done(r) => return r.map(|l| l.slots).map_err(|e| e.message),
        };
    }
}

#[test]
fn lock_sample_locks_slots_of_flask_effects() {
    let mut mem = buffs_memory(&[0x5000_0000, 0x5100_0000]);
    effect(&mut mem, 0x5000_0000, 0x6000_0000, PLAYER_ID, 0, 4.0, 2.0);
    definition(&mut mem, 0x6000_0000, 4, None);
    effect(&mut mem, 0x5100_0000, 0x6100_0000, PLAYER_ID, 1, 4.0, 2.0);
    definition(&mut mem, 0x6100_0000, 7, Some((0x6200_0000, "flask_effect_mana")));
    let mut probe = FlaskLockProbe::new(PLAYER, PLAYER_ID, BUFFS);
    assert_eq!(locks(&mem, &mut probe).unwrap(), [true, true]);
    assert_eq!(probe.cached_lock(0x6000_0000), Some(true));
    assert_eq!(probe.cached_lock(0x6100_0000), Some(true));
}

#[test]
fn lock_sample_skips_other_effects() {
    let mut mem = buffs_memory(&[0x5000_0000, 0x5100_0000, 0x5200_0000]);
    effect(&mut mem, 0x5000_0000, 0x6000_0000, 5, 0, 4.0, 2.0);
    effect(&mut mem, 0x5100_0000, 0x6000_0000, PLAYER_ID, 0, 90.0, 2.0);
    effect(&mut mem, 0x5200_0000, 0x6100_0000, PLAYER_ID, 1, 4.0, 2.0);
    definition(&mut mem, 0x6000_0000, 4, None);
    definition(&mut mem, 0x6100_0000, 7, Some((0x6200_0000, "some_other_buff")));
    let mut probe = FlaskLockProbe::new(PLAYER, PLAYER_ID, BUFFS);
    assert_eq!(locks(&mem, &mut probe).unwrap(), [false, false]);
    assert_eq!(probe.cached_lock(0x6100_0000), Some(false));
    assert_eq!(probe.cached_lock(0x6000_0000), None);
}

#[test]
fn lock_sample_checks_player_and_vector() {
    let mut probe = FlaskLockProbe::new(PLAYER, PLAYER_ID, BUFFS);
    assert_eq!(locks(&buffs_memory(&[]), &mut probe).unwrap(), [false, false]);
    let mut moved = buffs_memory(&[]);
    moved.put(PLAYER + 0x88, &78u32.to_le_bytes());
    assert_eq!(locks(&moved, &mut probe).unwrap_err(), "local player entity id changed");
    let bad = buffs_memory(&[0x20]);
    assert_eq!(
        locks(&bad, &mut probe).unwrap_err(),
        "Buffs status-effect vector contains an invalid pointer"
    );
    let mut unaligned = buffs_memory(&[]);
    unaligned.put_word(BUFFS + 0x160, EFFECTS);
    unaligned.put_word(BUFFS + 0x168, EFFECTS + 4);
    assert_eq!(
        locks(&unaligned, &mut probe).unwrap_err(),
        "Buffs status-effect vector is not pointer-aligned"
    );
}
