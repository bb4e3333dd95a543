//! Sampling the charges of the Life and Mana flasks, one read at a time.
//!
//! A sample first checks that the resolved chain still leads to the same player and server data
//! and that the flask inventory's item list kept its shape, then reads each of the two slots: an
//! empty slot is reported as such, a filled one through its item's Charges component. The full
//! reader reads every value on its own and looks every component up; the fast reader reads the
//! chain's identity, the list header and both slot pointers in one read each, and reuses the
//! Charges components its cache found for the same inventory items. Charge values are never
//! cached.

use vstd::prelude::*;

use crate::area::plausible_address;
use crate::entity::{address, wrap_add};
use crate::error::{probe_error, ErrorKind, ProbeError, ProbeErrorModel};
use crate::flask_inventory::{
    cached_for, charge_values_result, charges_internal_result, check_charge_values,
    check_charges_internal, check_inventory_identity, check_slot_item, check_list_shape, check_pointer,
    inventory_identity_result, list_shape_result, missing_charges_component, plausible_charges,
    pointer_result, slot_label, validate_vector_range, vector_range_result, CachedChargeComponent,
    FlaskChargeCache, FlaskChargeSnapshot, FlaskChargeState, FlaskInventoryProbe,
    inventory_int_step, inventory_word_step, player_info_offset_result, step_fits,
    InventoryResolve, InventoryStage, InventoryStep, InventoryStepModel, INVENTORY_ITEM_LIST,
    MAX_INVENTORY_CELLS, PLAYER_INFO_LOCAL_PLAYER, usable_probe,
};
use crate::le::{field, le_nat, le_signed, read_i32_from, read_u64_from};

verus! {

/// Offset of the pointer to a Charges component's internal data; the current charge count
/// follows it.
pub const CHARGES_INTERNAL_PTR: usize = 0x10;

/// Bytes read at `CHARGES_INTERNAL_PTR`: the internal pointer and the current charge count.
pub const CHARGES_HEAD_LEN: usize = 12;

/// Offset of the current charge count in the bytes read at `CHARGES_INTERNAL_PTR`.
pub const CHARGES_CURRENT_AT: usize = 8;

/// Offset of the charges spent per use in a Charges component's internal data.
pub const CHARGES_INTERNAL_PER_USE: usize = 0x18;

/// Bytes of the player info the fast reader reads at once: the server data pointer at its start
/// and the local player pointer at `PLAYER_INFO_LOCAL_PLAYER`.
pub const PLAYER_INFO_LEN: usize = 0x28;

/// Bytes of a vector header: its first and end pointers.
pub const VECTOR_HEADER_LEN: usize = 16;

/// Bytes of the two flask slots' item pointers.
pub const SLOT_POINTERS_LEN: usize = 16;

/// The value a charge sample reads next.
#[derive(Debug, Clone, Copy, PartialEq, Eq, Structural)]
pub enum SampleStage {
    /// Full reader: the player info's local player pointer.
    PlayerWord,
    /// Full reader: the player info's server data pointer.
    ServerWord,
    /// Full reader: the item list's first pointer.
    ItemsFirst,
    /// Full reader: the item list's end pointer.
    ItemsLast,
    /// Full reader: the item pointer of the current slot.
    SlotWord,
    /// Fast reader: the player info's server data and local player pointers.
    IdentityBytes,
    /// Fast reader: the item list's header.
    HeaderBytes,
    /// Fast reader: both slots' item pointers.
    SlotBytes,
    /// The item entity of the current slot's inventory item.
    Entity,
    /// The Charges component of the current slot's item entity.
    Charges,
    /// The internal pointer and current charge count of the current slot's Charges component.
    ChargeHead,
    /// The charges per use of the current slot's flask.
    PerUse,
    Finished,
}

/// What a charge sample does next.
#[derive(Debug)]
pub enum SampleStep {
    /// Read the pointer-sized value at this address and report it with `word_read`.
    ReadWord(usize),
    /// Read the 32-bit value at this address and report it with `int_read`, or a failed read
    /// with `read_failed`.
    ReadInt(usize),
    /// Read this many bytes at this address and report them with `bytes_read`; a failed read of
    /// a Charges component's head is reported with `read_failed`.
    ReadBytes(usize, usize),
    /// Look the Charges component of this item entity up and report it with `charges_found`.
    FindCharges(usize),
    /// The read that just failed ends the sample with its own error.
    ReadError,
    /// Finished: the charges of both slots, or why they cannot be read.
    Done(Result<FlaskChargeSnapshot, ProbeError>),
}

pub enum SampleStepModel {
    ReadWord(usize),
    ReadInt(usize),
    ReadBytes(usize, usize),
    FindCharges(usize),
    ReadError,
    Done(Result<Seq<Option<FlaskChargeState>>, ProbeErrorModel>),
}

impl View for SampleStep {
    type V = SampleStepModel;

    open spec fn view(&self) -> SampleStepModel {
        match self {
            SampleStep::ReadWord(a) => SampleStepModel::ReadWord(*a),
            SampleStep::ReadInt(a) => SampleStepModel::ReadInt(*a),
            SampleStep::ReadBytes(a, n) => SampleStepModel::ReadBytes(*a, *n),
            SampleStep::FindCharges(e) => SampleStepModel::FindCharges(*e),
            SampleStep::ReadError => SampleStepModel::ReadError,
            SampleStep::Done(Ok(s)) => SampleStepModel::Done(Ok(s.slots@)),
            SampleStep::Done(Err(e)) => SampleStepModel::Done(Err(e@)),
        }
    }
}

/// A charge sample in progress.
pub struct SampleModel {
    pub probe: FlaskInventoryProbe,
    pub fast: bool,
    pub stage: SampleStage,
    /// The cache of Charges components, per slot.
    pub entries: Seq<Option<CachedChargeComponent>>,
    /// Start of the item list.
    pub first: usize,
    /// The slots' inventory-item pointers, as far as read.
    pub pointers: Seq<usize>,
    /// The slot being read.
    pub slot: usize,
    /// Whether the current slot's component came from the cache and was not looked up again.
    pub from_cache: bool,
    pub entity: usize,
    pub component: usize,
    pub current: i32,
    /// The slots read so far.
    pub slots: Seq<Option<FlaskChargeState>>,
}

/// A charge sample, one read at a time.
#[derive(Debug)]
pub struct ChargeSample {
    probe: FlaskInventoryProbe,
    fast: bool,
    stage: SampleStage,
    cache: FlaskChargeCache,
    first: usize,
    pointers: [usize; 2],
    slot: usize,
    from_cache: bool,
    entity: usize,
    component: usize,
    current: i32,
    slots: [Option<FlaskChargeState>; 2],
}

impl View for ChargeSample {
    type V = SampleModel;

    closed spec fn view(&self) -> SampleModel {
        SampleModel {
            probe: self.probe,
            fast: self.fast,
            stage: self.stage,
            entries: self.cache.entries(),
            first: self.first,
            pointers: self.pointers@,
            slot: self.slot,
            from_cache: self.from_cache,
            entity: self.entity,
            component: self.component,
            current: self.current,
            slots: self.slots@,
        }
    }
}

/// Where the player info of `probe` is.
pub open spec fn info_address(probe: FlaskInventoryProbe) -> usize {
    wrap_add(probe.area_instance, probe.player_info_offset)
}

/// The cache entry a read slot leaves: its component for a filled slot, nothing for an empty one.
pub open spec fn entry_of(state: Option<FlaskChargeState>) -> Option<CachedChargeComponent> {
    match state {
        Some(c) => Some(
            CachedChargeComponent {
                inventory_item: c.inventory_item,
                item_entity: c.item_entity,
                charges_component: c.charges_component,
            },
        ),
        None => None,
    }
}

/// What a sample reports for a slot whose item pointer is `pointer`, with the cache entry it
/// leaves: empty exactly when the pointer is zero; otherwise the item at that plausible pointer
/// with plausible charge values, whose component stays cached.
pub open spec fn slot_fits(
    state: Option<FlaskChargeState>,
    pointer: usize,
    entry: Option<CachedChargeComponent>,
) -> bool {
    &&& (state is None <==> pointer == 0)
    &&& entry == entry_of(state)
    &&& (state matches Some(c) ==> c.inventory_item == pointer && plausible_address(
        pointer as int,
    ) && plausible_charges(c.current, c.per_use))
}

/// What a finished sample's slots say of the slot pointers it read and the cache it leaves.
pub open spec fn snapshot_fits(m: SampleModel, slots: Seq<Option<FlaskChargeState>>) -> bool {
    &&& slots.len() == 2
    &&& forall|j: int| 0 <= j < 2 ==> #[trigger] slot_fits(slots[j], m.pointers[j], m.entries[j])
}

impl SampleModel {
    /// Whether a slot is being read.
    pub open spec fn in_slot(self) -> bool {
        self.stage is Entity || self.stage is Charges || self.stage is ChargeHead
            || self.stage is PerUse
    }

    /// The sample's invariant: the slots before the current one are read and fit their
    /// pointers; the current slot's item pointer is plausible, and once its component is known
    /// it is cached for that item.
    pub open spec fn wf(self) -> bool {
        &&& self.entries.len() == 2
        &&& self.pointers.len() == 2
        &&& self.slots.len() == 2
        &&& self.slot < 2
        &&& (self.in_slot() || self.stage is SlotWord) ==> forall|j: int|
            0 <= j < self.slot ==> #[trigger] slot_fits(
                self.slots[j],
                self.pointers[j],
                self.entries[j],
            )
        &&& self.in_slot() ==> plausible_address(self.pointers[self.slot as int] as int)
            && self.pointers[self.slot as int] != 0
        &&& (self.stage is Entity || self.stage is Charges) ==> !self.from_cache
        &&& (self.stage is ChargeHead || self.stage is PerUse) ==> self.entries[self.slot as int]
            == Some(
            CachedChargeComponent {
                inventory_item: self.pointers[self.slot as int],
                item_entity: self.entity,
                charges_component: self.component,
            },
        )
    }

    pub open spec fn expects_word(self) -> bool {
        self.stage is PlayerWord || self.stage is ServerWord || self.stage is ItemsFirst
            || self.stage is ItemsLast || self.stage is SlotWord || self.stage is Entity
    }

    /// How many bytes the next read is, when it is a read of bytes.
    pub open spec fn bytes_wanted(self) -> Option<nat> {
        match self.stage {
            SampleStage::IdentityBytes => Some(PLAYER_INFO_LEN as nat),
            SampleStage::HeaderBytes => Some(VECTOR_HEADER_LEN as nat),
            SampleStage::SlotBytes => Some(SLOT_POINTERS_LEN as nat),
            SampleStage::ChargeHead => Some(CHARGES_HEAD_LEN as nat),
            _ => None,
        }
    }

    /// Whether the next read is of a Charges component's values, whose failure is reported.
    pub open spec fn expects_values(self) -> bool {
        self.stage is ChargeHead || self.stage is PerUse
    }
}

/// Each step matches what the sample expects next.
pub open spec fn sample_fits(m: SampleModel, step: SampleStepModel) -> bool {
    match step {
        SampleStepModel::ReadWord(_) => m.expects_word(),
        SampleStepModel::ReadInt(_) => m.stage is PerUse,
        SampleStepModel::ReadBytes(_, n) => m.bytes_wanted() == Some(n as nat),
        SampleStepModel::FindCharges(_) => m.stage is Charges,
        SampleStepModel::ReadError => m.stage is Finished,
        SampleStepModel::Done(_) => m.stage is Finished,
    }
}

/// What a step guarantees: the invariant, a fitting next read, and a finished sample that fits
/// its slot pointers.
pub open spec fn sample_step_ok(m: SampleModel, step: SampleStepModel) -> bool {
    &&& m.wf()
    &&& sample_fits(m, step)
    &&& (step matches SampleStepModel::Done(Ok(slots)) ==> slots == m.slots && snapshot_fits(
        m,
        slots,
    ))
}

pub open spec fn sample_fail(m: SampleModel, e: ProbeErrorModel) -> (SampleModel, SampleStepModel) {
    (SampleModel { stage: SampleStage::Finished, ..m }, SampleStepModel::Done(Err(e)))
}

pub open spec fn sample_finish(m: SampleModel) -> (SampleModel, SampleStepModel) {
    (SampleModel { stage: SampleStage::Finished, ..m }, SampleStepModel::Done(Ok(m.slots)))
}

/// Starts reading the filled slot `i`: a pointer that cannot be one is an error, a component
/// cached for the same item is used, otherwise the item's entity is read.
pub open spec fn open_item(m: SampleModel, i: usize) -> (SampleModel, SampleStepModel) {
    let p = m.pointers[i as int];
    if !plausible_address(p as int) {
        sample_fail(
            m,
            probe_error(ErrorKind::InvalidData, slot_label(i) + " has an invalid inventory-item pointer"@),
        )
    } else {
        match cached_for(m.entries, i, p) {
            Some(c) => (
                SampleModel {
                    stage: SampleStage::ChargeHead,
                    slot: i,
                    from_cache: true,
                    entity: c.item_entity,
                    component: c.charges_component,
                    ..m
                },
                SampleStepModel::ReadBytes(
                    wrap_add(c.charges_component, CHARGES_INTERNAL_PTR),
                    CHARGES_HEAD_LEN,
                ),
            ),
            None => (
                SampleModel { stage: SampleStage::Entity, slot: i, from_cache: false, ..m },
                SampleStepModel::ReadWord(p),
            ),
        }
    }
}

/// Reads the second slot, whose pointer is known; an empty one finishes the sample.
pub open spec fn open_last(m: SampleModel) -> (SampleModel, SampleStepModel) {
    let m1 = SampleModel { slot: 1, ..m };
    if m.pointers[1] == 0 {
        sample_finish(
            SampleModel {
                entries: m.entries.update(1, None),
                slots: m.slots.update(1, None),
                ..m1
            },
        )
    } else {
        open_item(m1, 1)
    }
}

/// The first slot is read as `state`: the second comes next.
pub open spec fn after_first(m: SampleModel, state: Option<FlaskChargeState>) -> (SampleModel, SampleStepModel) {
    let m1 = SampleModel { slots: m.slots.update(0, state), ..m };
    if m.fast {
        open_last(m1)
    } else {
        (
            SampleModel { stage: SampleStage::SlotWord, slot: 1, ..m1 },
            SampleStepModel::ReadWord(wrap_add(m.first, 8)),
        )
    }
}

/// Reads the first slot, whose pointer is known; an empty one goes on with the second.
pub open spec fn open_first(m: SampleModel) -> (SampleModel, SampleStepModel) {
    let m0 = SampleModel { slot: 0, ..m };
    if m.pointers[0] == 0 {
        after_first(SampleModel { entries: m.entries.update(0, None), ..m0 }, None)
    } else {
        open_item(m0, 0)
    }
}

/// The current slot is read as `state`.
pub open spec fn slot_done(m: SampleModel, state: Option<FlaskChargeState>) -> (SampleModel, SampleStepModel) {
    if m.slot == 0 {
        after_first(m, state)
    } else {
        sample_finish(SampleModel { slots: m.slots.update(1, state), ..m })
    }
}

/// Reading the current slot's values failed, with `e` or with the read's own error (`None`): a
/// component from the cache is dropped from it and looked up again; otherwise the sample fails.
pub open spec fn value_failure(m: SampleModel, e: Option<ProbeErrorModel>) -> (SampleModel, SampleStepModel) {
    if m.from_cache {
        (
            SampleModel {
                stage: SampleStage::Entity,
                from_cache: false,
                entries: m.entries.update(m.slot as int, None),
                ..m
            },
            SampleStepModel::ReadWord(m.pointers[m.slot as int]),
        )
    } else {
        match e {
            Some(e) => sample_fail(m, e),
            None => (SampleModel { stage: SampleStage::Finished, ..m }, SampleStepModel::ReadError),
        }
    }
}

/// The state of the current slot once its charges per use are known.
pub open spec fn read_state(m: SampleModel, per_use: i32) -> FlaskChargeState {
    FlaskChargeState {
        inventory_item: m.pointers[m.slot as int],
        item_entity: m.entity,
        charges_component: m.component,
        current: m.current,
        per_use,
    }
}

/// The error when a flask item has no Charges component.
pub open spec fn missing_charges(slot: usize) -> ProbeErrorModel {
    probe_error(ErrorKind::InvalidData, slot_label(slot) + " item does not expose a readable Charges component"@)
}

/// The sample after a pointer-sized read gave `v`.
pub open spec fn sample_word_step(m: SampleModel, v: usize) -> (SampleModel, SampleStepModel) {
    let info = info_address(m.probe);
    match m.stage {
        SampleStage::PlayerWord => match pointer_result(wrap_add(info, PLAYER_INFO_LOCAL_PLAYER), v) {
            Err(e) => sample_fail(m, e),
            Ok(p) => match inventory_identity_result(m.probe, p, m.probe.server_data) {
                Err(e) => sample_fail(m, e),
                Ok(_) => (
                    SampleModel { stage: SampleStage::ServerWord, ..m },
                    SampleStepModel::ReadWord(info),
                ),
            },
        },
        SampleStage::ServerWord => match pointer_result(info, v) {
            Err(e) => sample_fail(m, e),
            Ok(sd) => match inventory_identity_result(m.probe, m.probe.local_player, sd) {
                Err(e) => sample_fail(m, e),
                Ok(_) => (
                    SampleModel { stage: SampleStage::ItemsFirst, ..m },
                    SampleStepModel::ReadWord(wrap_add(m.probe.flask_inventory, INVENTORY_ITEM_LIST)),
                ),
            },
        },
        SampleStage::ItemsFirst => (
            SampleModel { stage: SampleStage::ItemsLast, first: v, ..m },
            SampleStepModel::ReadWord(
                wrap_add(m.probe.flask_inventory, (INVENTORY_ITEM_LIST + 8) as usize),
            ),
        ),
        SampleStage::ItemsLast => match vector_range_result(
            m.first,
            v,
            8,
            MAX_INVENTORY_CELLS,
            "FlaskInventory.ItemList"@,
        ) {
            Err(e) => sample_fail(m, e),
            Ok(cells) => match list_shape_result(m.probe.item_cells, cells, false) {
                Err(e) => sample_fail(m, e),
                Ok(_) => (
                    SampleModel { stage: SampleStage::SlotWord, slot: 0, ..m },
                    SampleStepModel::ReadWord(m.first),
                ),
            },
        },
        SampleStage::SlotWord => {
            let m1 = SampleModel { pointers: m.pointers.update(m.slot as int, v), ..m };
            if m.slot == 0 {
                open_first(m1)
            } else {
                open_last(m1)
            }
        },
        SampleStage::Entity => match pointer_result(m.pointers[m.slot as int], v) {
            Err(e) => sample_fail(m, e),
            Ok(entity) => (
                SampleModel { stage: SampleStage::Charges, entity, ..m },
                SampleStepModel::FindCharges(entity),
            ),
        },
        _ => (m, SampleStepModel::ReadWord(0)),
    }
}

/// The sample after the read of the charges per use gave `v`.
pub open spec fn sample_int_step(m: SampleModel, v: i32) -> (SampleModel, SampleStepModel) {
    match charge_values_result(m.current, v, m.slot) {
        Err(e) => value_failure(m, Some(e)),
        Ok(_) => slot_done(m, Some(read_state(m, v))),
    }
}

/// The unsigned 64-bit little-endian value at `off` of `b`, as an address.
pub open spec fn word_at(b: Seq<u8>, off: int) -> usize {
    le_nat(field(b, off, 8)) as usize
}

/// The sample after a read of bytes gave `b`.
pub open spec fn sample_bytes_step(m: SampleModel, b: Seq<u8>) -> (SampleModel, SampleStepModel) {
    match m.stage {
        SampleStage::IdentityBytes => match inventory_identity_result(
            m.probe,
            word_at(b, PLAYER_INFO_LOCAL_PLAYER as int),
            word_at(b, 0),
        ) {
            Err(e) => sample_fail(m, e),
            Ok(_) => (
                SampleModel { stage: SampleStage::HeaderBytes, ..m },
                SampleStepModel::ReadBytes(
                    wrap_add(m.probe.flask_inventory, INVENTORY_ITEM_LIST),
                    VECTOR_HEADER_LEN,
                ),
            ),
        },
        SampleStage::HeaderBytes => match vector_range_result(
            word_at(b, 0),
            word_at(b, 8),
            8,
            MAX_INVENTORY_CELLS,
            "FlaskInventory.ItemList"@,
        ) {
            Err(e) => sample_fail(m, e),
            Ok(cells) => match list_shape_result(m.probe.item_cells, cells, true) {
                Err(e) => sample_fail(m, e),
                Ok(_) => (
                    SampleModel { stage: SampleStage::SlotBytes, first: word_at(b, 0), ..m },
                    SampleStepModel::ReadBytes(word_at(b, 0), SLOT_POINTERS_LEN),
                ),
            },
        },
        SampleStage::SlotBytes => open_first(
            SampleModel { pointers: seq![word_at(b, 0), word_at(b, 8)], ..m },
        ),
        SampleStage::ChargeHead => match charges_internal_result(word_at(b, 0), m.slot) {
            Err(e) => value_failure(m, Some(e)),
            Ok(internal) => (
                SampleModel {
                    stage: SampleStage::PerUse,
                    current: le_signed(field(b, CHARGES_CURRENT_AT as int, 4), 32) as i32,
                    ..m
                },
                SampleStepModel::ReadInt(wrap_add(internal, CHARGES_INTERNAL_PER_USE)),
            ),
        },
        _ => (m, SampleStepModel::ReadWord(0)),
    }
}

/// The sample after the Charges component lookup gave `found`: a found component is cached for
/// the item and its values are read next.
pub open spec fn sample_found_step(m: SampleModel, found: Option<usize>) -> (SampleModel, SampleStepModel) {
    match found {
        None => sample_fail(m, missing_charges(m.slot)),
        Some(component) => (
            SampleModel {
                stage: SampleStage::ChargeHead,
                component,
                entries: m.entries.update(
                    m.slot as int,
                    Some(
                        CachedChargeComponent {
                            inventory_item: m.pointers[m.slot as int],
                            item_entity: m.entity,
                            charges_component: component,
                        },
                    ),
                ),
                ..m
            },
            SampleStepModel::ReadBytes(wrap_add(component, CHARGES_INTERNAL_PTR), CHARGES_HEAD_LEN),
        ),
    }
}

/// The full reader at its start.
pub open spec fn sample_full_start(probe: FlaskInventoryProbe) -> (SampleModel, SampleStepModel) {
    (
        SampleModel {
            probe,
            fast: false,
            stage: SampleStage::PlayerWord,
            entries: seq![None, None],
            first: 0,
            pointers: seq![0, 0],
            slot: 0,
            from_cache: false,
            entity: 0,
            component: 0,
            current: 0,
            slots: seq![None, None],
        },
        SampleStepModel::ReadWord(wrap_add(info_address(probe), PLAYER_INFO_LOCAL_PLAYER)),
    )
}

/// The fast reader at its start, with the cache `entries`.
pub open spec fn sample_fast_start(probe: FlaskInventoryProbe, entries: Seq<Option<CachedChargeComponent>>) -> (SampleModel, SampleStepModel) {
    (
        SampleModel {
            probe,
            fast: true,
            stage: SampleStage::IdentityBytes,
            entries,
            first: 0,
            pointers: seq![0, 0],
            slot: 0,
            from_cache: false,
            entity: 0,
            component: 0,
            current: 0,
            slots: seq![None, None],
        },
        SampleStepModel::ReadBytes(info_address(probe), PLAYER_INFO_LEN),
    )
}


/// An error as a model, when there is one.
pub open spec fn error_view(e: Option<ProbeError>) -> Option<ProbeErrorModel> {
    match e {
        Some(e) => Some(e@),
        None => None,
    }
}

impl ChargeSample {
    /// The full reader of `probe`'s flask charges: it starts with an empty cache of its own, so
    /// every filled slot's Charges component is looked up.
    pub fn full(probe: &FlaskInventoryProbe) -> (r: (ChargeSample, SampleStep))
        ensures
            (r.0@, r.1@) == sample_full_start(*probe),
            sample_step_ok(r.0@, r.1@),
    {
        let s = ChargeSample {
            probe: *probe,
            fast: false,
            stage: SampleStage::PlayerWord,
            cache: FlaskChargeCache::new(),
            first: 0,
            pointers: [0, 0],
            slot: 0,
            from_cache: false,
            entity: 0,
            component: 0,
            current: 0,
            slots: [None, None],
        };
        proof {
            assert(s.pointers@ =~= seq![0usize, 0]);
            assert(s.slots@ =~= seq![None::<FlaskChargeState>, None]);
        }
        let info = address(probe.area_instance, probe.player_info_offset);
        (s, SampleStep::ReadWord(address(info, PLAYER_INFO_LOCAL_PLAYER)))
    }

    /// The fast reader of `probe`'s flask charges, reusing the components `cache` holds. With an
    /// empty cache it reports what the full reader reports on the same memory
    /// (`lemma_fast_reader_matches_full`).
    pub fn fast(probe: &FlaskInventoryProbe, cache: FlaskChargeCache) -> (r: (ChargeSample, SampleStep))
        ensures
            (r.0@, r.1@) == sample_fast_start(*probe, cache.entries()),
            sample_step_ok(r.0@, r.1@),
    {
        proof {
            cache.lemma_two_slots();
        }
        let s = ChargeSample {
            probe: *probe,
            fast: true,
            stage: SampleStage::IdentityBytes,
            cache,
            first: 0,
            pointers: [0, 0],
            slot: 0,
            from_cache: false,
            entity: 0,
            component: 0,
            current: 0,
            slots: [None, None],
        };
        proof {
            assert(s.pointers@ =~= seq![0usize, 0]);
            assert(s.slots@ =~= seq![None::<FlaskChargeState>, None]);
        }
        (
            s,
            SampleStep::ReadBytes(address(probe.area_instance, probe.player_info_offset), PLAYER_INFO_LEN),
        )
    }

    /// The flask inventory being sampled.
    pub fn probe(&self) -> (p: FlaskInventoryProbe)
        ensures
            p == self@.probe,
    {
        self.probe
    }

    /// Whether the read asked for is of the current flask's charge values, whose failure is
    /// reported with `read_failed`; any other failed read ends the sample with its own error.
    pub fn reads_values(&self) -> (b: bool)
        ensures
            b == self@.expects_values(),
    {
        match self.stage {
            SampleStage::ChargeHead => true,
            SampleStage::PerUse => true,
            _ => false,
        }
    }

    /// The cache as the sample leaves it.
    pub fn into_cache(self) -> (c: FlaskChargeCache)
        ensures
            c.entries() == self@.entries,
    {
        self.cache
    }

    fn fail(&mut self, e: ProbeError) -> (s: SampleStep)
        ensures
            (final(self)@, s@) == sample_fail(old(self)@, e@),
    {
        self.stage = SampleStage::Finished;
        SampleStep::Done(Err(e))
    }

    fn finish(&mut self) -> (s: SampleStep)
        ensures
            (final(self)@, s@) == sample_finish(old(self)@),
    {
        self.stage = SampleStage::Finished;
        SampleStep::Done(Ok(FlaskChargeSnapshot { slots: self.slots }))
    }

    fn open_item(&mut self, i: usize) -> (s: SampleStep)
        requires
            i < 2,
            old(self)@.pointers[i as int] != 0,
            old(self)@.entries.len() == 2,
        ensures
            (final(self)@, s@) == open_item(old(self)@, i),
    {
        let p = self.pointers[i];
        match check_slot_item(p, i) {
            Err(e) => self.fail(e),
            Ok(_) => match self.cache.lookup(i, p) {
                Some(c) => {
                    self.stage = SampleStage::ChargeHead;
                    self.slot = i;
                    self.from_cache = true;
                    self.entity = c.item_entity;
                    self.component = c.charges_component;
                    SampleStep::ReadBytes(address(c.charges_component, CHARGES_INTERNAL_PTR), CHARGES_HEAD_LEN)
                },
                None => {
                    self.stage = SampleStage::Entity;
                    self.slot = i;
                    self.from_cache = false;
                    SampleStep::ReadWord(p)
                },
            },
        }
    }

    fn open_last(&mut self) -> (s: SampleStep)
        requires
            old(self)@.entries.len() == 2,
        ensures
            (final(self)@, s@) == open_last(old(self)@),
    {
        self.slot = 1;
        if self.pointers[1] == 0 {
            self.cache.set(1, None);
            self.slots[1] = None;
            self.finish()
        } else {
            self.open_item(1)
        }
    }

    fn after_first(&mut self, state: Option<FlaskChargeState>) -> (s: SampleStep)
        requires
            old(self)@.entries.len() == 2,
        ensures
            (final(self)@, s@) == after_first(old(self)@, state),
    {
        self.slots[0] = state;
        if self.fast {
            self.open_last()
        } else {
            self.stage = SampleStage::SlotWord;
            self.slot = 1;
            SampleStep::ReadWord(address(self.first, 8))
        }
    }

    fn open_first(&mut self) -> (s: SampleStep)
        requires
            old(self)@.entries.len() == 2,
        ensures
            (final(self)@, s@) == open_first(old(self)@),
    {
        self.slot = 0;
        if self.pointers[0] == 0 {
            self.cache.set(0, None);
            self.after_first(None)
        } else {
            self.open_item(0)
        }
    }

    fn slot_done(&mut self, state: Option<FlaskChargeState>) -> (s: SampleStep)
        requires
            old(self)@.entries.len() == 2,
            old(self)@.slot < 2,
        ensures
            (final(self)@, s@) == slot_done(old(self)@, state),
    {
        if self.slot == 0 {
            self.after_first(state)
        } else {
            self.slots[1] = state;
            self.finish()
        }
    }

    fn value_failure(&mut self, e: Option<ProbeError>) -> (s: SampleStep)
        requires
            old(self)@.slot < 2,
        ensures
            (final(self)@, s@) == value_failure(old(self)@, error_view(e)),
    {
        if self.from_cache {
            self.stage = SampleStage::Entity;
            self.from_cache = false;
            self.cache.set(self.slot, None);
            SampleStep::ReadWord(self.pointers[self.slot])
        } else {
            self.stage = SampleStage::Finished;
            match e {
                Some(e) => SampleStep::Done(Err(e)),
                None => SampleStep::ReadError,
            }
        }
    }

    /// A pointer-sized read asked for gave `v`.
    pub fn word_read(&mut self, v: usize) -> (s: SampleStep)
        requires
            old(self)@.wf(),
            old(self)@.expects_word(),
        ensures
            (final(self)@, s@) == sample_word_step(old(self)@, v),
            sample_step_ok(final(self)@, s@),
            !(s@ is ReadError),
    {
        let info = address(self.probe.area_instance, self.probe.player_info_offset);
        match self.stage {
            SampleStage::PlayerWord => match check_pointer(address(info, PLAYER_INFO_LOCAL_PLAYER), v) {
                Err(e) => self.fail(e),
                Ok(p) => match check_inventory_identity(&self.probe, p, self.probe.server_data) {
                    Err(e) => self.fail(e),
                    Ok(()) => {
                        self.stage = SampleStage::ServerWord;
                        SampleStep::ReadWord(info)
                    },
                },
            },
            SampleStage::ServerWord => match check_pointer(info, v) {
                Err(e) => self.fail(e),
                Ok(sd) => match check_inventory_identity(&self.probe, self.probe.local_player, sd) {
                    Err(e) => self.fail(e),
                    Ok(()) => {
                        self.stage = SampleStage::ItemsFirst;
                        SampleStep::ReadWord(address(self.probe.flask_inventory, INVENTORY_ITEM_LIST))
                    },
                },
            },
            SampleStage::ItemsFirst => {
                self.stage = SampleStage::ItemsLast;
                self.first = v;
                SampleStep::ReadWord(address(self.probe.flask_inventory, INVENTORY_ITEM_LIST + 8))
            },
            SampleStage::ItemsLast => match validate_vector_range(
                self.first,
                v,
                8,
                MAX_INVENTORY_CELLS,
                "FlaskInventory.ItemList",
            ) {
                Err(e) => self.fail(e),
                Ok(cells) => match check_list_shape(self.probe.item_cells, cells, false) {
                    Err(e) => self.fail(e),
                    Ok(()) => {
                        self.stage = SampleStage::SlotWord;
                        self.slot = 0;
                        SampleStep::ReadWord(self.first)
                    },
                },
            },
            SampleStage::SlotWord => {
                self.pointers[self.slot] = v;
                if self.slot == 0 {
                    self.open_first()
                } else {
                    self.open_last()
                }
            },
            SampleStage::Entity => match check_pointer(self.pointers[self.slot], v) {
                Err(e) => self.fail(e),
                Ok(entity) => {
                    self.stage = SampleStage::Charges;
                    self.entity = entity;
                    SampleStep::FindCharges(entity)
                },
            },
            _ => SampleStep::ReadWord(0),
        }
    }

    /// The read of the current flask's charges per use gave `v`.
    pub fn int_read(&mut self, v: i32) -> (s: SampleStep)
        requires
            old(self)@.wf(),
            old(self)@.stage is PerUse,
        ensures
            (final(self)@, s@) == sample_int_step(old(self)@, v),
            sample_step_ok(final(self)@, s@),
            !(s@ is ReadError),
    {
        match check_charge_values(self.current, v, self.slot) {
            Err(e) => self.value_failure(Some(e)),
            Ok(_) => {
                let state = FlaskChargeState {
                    inventory_item: self.pointers[self.slot],
                    item_entity: self.entity,
                    charges_component: self.component,
                    current: self.current,
                    per_use: v,
                };
                self.slot_done(Some(state))
            },
        }
    }

    /// A read of bytes asked for gave `b`.
    pub fn bytes_read(&mut self, b: &[u8]) -> (s: SampleStep)
        requires
            old(self)@.wf(),
            old(self)@.bytes_wanted() == Some(b@.len()),
        ensures
            (final(self)@, s@) == sample_bytes_step(old(self)@, b@),
            sample_step_ok(final(self)@, s@),
            !(s@ is ReadError),
    {
        match self.stage {
            SampleStage::IdentityBytes => {
                let server_data = read_u64_from(b, 0) as usize;
                let player = read_u64_from(b, PLAYER_INFO_LOCAL_PLAYER) as usize;
                match check_inventory_identity(&self.probe, player, server_data) {
                    Err(e) => self.fail(e),
                    Ok(()) => {
                        self.stage = SampleStage::HeaderBytes;
                        SampleStep::ReadBytes(
                            address(self.probe.flask_inventory, INVENTORY_ITEM_LIST),
                            VECTOR_HEADER_LEN,
                        )
                    },
                }
            },
            SampleStage::HeaderBytes => {
                let first = read_u64_from(b, 0) as usize;
                let last = read_u64_from(b, 8) as usize;
                match validate_vector_range(first, last, 8, MAX_INVENTORY_CELLS, "FlaskInventory.ItemList") {
                    Err(e) => self.fail(e),
                    Ok(cells) => match check_list_shape(self.probe.item_cells, cells, true) {
                        Err(e) => self.fail(e),
                        Ok(()) => {
                            self.stage = SampleStage::SlotBytes;
                            self.first = first;
                            SampleStep::ReadBytes(first, SLOT_POINTERS_LEN)
                        },
                    },
                }
            },
            SampleStage::SlotBytes => {
                let p0 = read_u64_from(b, 0) as usize;
                let p1 = read_u64_from(b, 8) as usize;
                self.pointers = [p0, p1];
                proof {
                    assert(self.pointers@ =~= seq![word_at(b@, 0), word_at(b@, 8)]);
                }
                self.open_first()
            },
            SampleStage::ChargeHead => {
                let internal = read_u64_from(b, 0) as usize;
                match check_charges_internal(internal, self.slot) {
                    Err(e) => self.value_failure(Some(e)),
                    Ok(_) => {
                        self.stage = SampleStage::PerUse;
                        self.current = read_i32_from(b, CHARGES_CURRENT_AT);
                        SampleStep::ReadInt(address(internal, CHARGES_INTERNAL_PER_USE))
                    },
                }
            },
            _ => SampleStep::ReadWord(0),
        }
    }

    /// The lookup of the current item entity's Charges component gave `found` (`None` when the
    /// entity has none).
    pub fn charges_found(&mut self, found: Option<usize>) -> (s: SampleStep)
        requires
            old(self)@.wf(),
            old(self)@.stage is Charges,
        ensures
            (final(self)@, s@) == sample_found_step(old(self)@, found),
            sample_step_ok(final(self)@, s@),
            !(s@ is ReadError),
    {
        match found {
            None => self.fail(missing_charges_component(self.slot)),
            Some(component) => {
                let entry = CachedChargeComponent {
                    inventory_item: self.pointers[self.slot],
                    item_entity: self.entity,
                    charges_component: component,
                };
                self.cache.set(self.slot, Some(entry));
                self.stage = SampleStage::ChargeHead;
                self.component = component;
                SampleStep::ReadBytes(address(component, CHARGES_INTERNAL_PTR), CHARGES_HEAD_LEN)
            },
        }
    }

    /// The read asked for of the current flask's charge values failed.
    pub fn read_failed(&mut self) -> (s: SampleStep)
        requires
            old(self)@.wf(),
            old(self)@.expects_values(),
        ensures
            (final(self)@, s@) == value_failure(old(self)@, None),
            sample_step_ok(final(self)@, s@),
    {
        self.value_failure(None)
    }
}


/// What the resolution of a usable flask inventory does next.
#[derive(Debug)]
pub enum ProbeStep {
    /// Read the pointer-sized value at this address and report it with `word_read`.
    ReadWord(usize),
    /// Read the 32-bit value at this address and report it with `int_read`.
    ReadInt(usize),
    /// Read this many bytes at this address and report them with `bytes_read`.
    ReadBytes(usize, usize),
    /// Look the Charges component of this item entity up and report it with `charges_found`.
    FindCharges(usize),
    /// Finished: the flask inventory, or why it cannot be used.
    Done(Result<FlaskInventoryProbe, ProbeError>),
}

pub enum ProbeStepModel {
    ReadWord(usize),
    ReadInt(usize),
    ReadBytes(usize, usize),
    FindCharges(usize),
    Done(Result<FlaskInventoryProbe, ProbeErrorModel>),
}

impl View for ProbeStep {
    type V = ProbeStepModel;

    open spec fn view(&self) -> ProbeStepModel {
        match self {
            ProbeStep::ReadWord(a) => ProbeStepModel::ReadWord(*a),
            ProbeStep::ReadInt(a) => ProbeStepModel::ReadInt(*a),
            ProbeStep::ReadBytes(a, n) => ProbeStepModel::ReadBytes(*a, *n),
            ProbeStep::FindCharges(e) => ProbeStepModel::FindCharges(*e),
            ProbeStep::Done(Ok(p)) => ProbeStepModel::Done(Ok(*p)),
            ProbeStep::Done(Err(e)) => ProbeStepModel::Done(Err(e@)),
        }
    }
}

/// The resolution of the player's flask inventory, followed by a full charge sample of it: the
/// inventory is usable only when that sample succeeds, so every filled slot exposes a readable
/// Charges component with plausible values; empty slots are fine.
#[derive(Debug)]
pub struct FlaskProbeResolve {
    chain: InventoryResolve,
    sample: Option<ChargeSample>,
}

pub struct ProbeResolveModel {
    pub chain: InventoryResolve,
    /// The validating sample, once the chain is resolved.
    pub sample: Option<SampleModel>,
}

impl View for FlaskProbeResolve {
    type V = ProbeResolveModel;

    closed spec fn view(&self) -> ProbeResolveModel {
        ProbeResolveModel {
            chain: self.chain,
            sample: match self.sample {
                Some(s) => Some(s@),
                None => None,
            },
        }
    }
}

impl ProbeResolveModel {
    /// The resolution's invariant: a sample in progress samples a usable inventory of the
    /// player the chain started from.
    pub open spec fn wf(self) -> bool {
        match self.sample {
            None => self.chain.wf(),
            Some(s) => s.wf() && !s.fast && usable_probe(s.probe) && s.probe.area_instance
                == self.chain.area_instance && s.probe.local_player == self.chain.local_player
                && s.probe.player_info_offset == self.chain.player_info_offset,
        }
    }

    /// The player the resolution started from: its area instance, local player and the offset
    /// of its player info.
    pub open spec fn origin(self) -> (usize, usize, usize) {
        (self.chain.area_instance, self.chain.local_player, self.chain.player_info_offset)
    }

    pub open spec fn expects_word(self) -> bool {
        match self.sample {
            None => self.chain.expects_word(),
            Some(s) => s.expects_word(),
        }
    }

    pub open spec fn expects_int(self) -> bool {
        match self.sample {
            None => self.chain.expects_int(),
            Some(s) => s.stage is PerUse,
        }
    }

    pub open spec fn bytes_wanted(self) -> Option<nat> {
        match self.sample {
            None => None,
            Some(s) => s.bytes_wanted(),
        }
    }

    pub open spec fn expects_charges(self) -> bool {
        self.sample matches Some(s) && s.stage is Charges
    }

    pub open spec fn finished(self) -> bool {
        match self.sample {
            None => self.chain.stage is Finished,
            Some(s) => s.stage is Finished,
        }
    }
}

/// Each step matches what the resolution expects next.
pub open spec fn probe_fits(m: ProbeResolveModel, step: ProbeStepModel) -> bool {
    match step {
        ProbeStepModel::ReadWord(_) => m.expects_word(),
        ProbeStepModel::ReadInt(_) => m.expects_int(),
        ProbeStepModel::ReadBytes(_, n) => m.bytes_wanted() == Some(n as nat),
        ProbeStepModel::FindCharges(_) => m.expects_charges(),
        ProbeStepModel::Done(_) => m.finished(),
    }
}

/// What a resolution step guarantees beyond the invariant: a usable inventory of the player it
/// started from, when it finishes with one.
pub open spec fn probe_done_ok(m: ProbeResolveModel, step: ProbeStepModel) -> bool {
    step matches ProbeStepModel::Done(Ok(p)) ==> usable_probe(p) && p.area_instance
        == m.chain.area_instance && p.local_player == m.chain.local_player && p.player_info_offset
        == m.chain.player_info_offset
}

/// The resolution while its validating sample of `chain`'s inventory takes `step`: a sample
/// that succeeds finishes with the inventory it sampled, a failed one with its error.
pub open spec fn lift_sample(chain: InventoryResolve, s: SampleModel, step: SampleStepModel) -> (ProbeResolveModel, ProbeStepModel) {
    let m = ProbeResolveModel { chain, sample: Some(s) };
    match step {
        SampleStepModel::ReadWord(a) => (m, ProbeStepModel::ReadWord(a)),
        SampleStepModel::ReadInt(a) => (m, ProbeStepModel::ReadInt(a)),
        SampleStepModel::ReadBytes(a, n) => (m, ProbeStepModel::ReadBytes(a, n)),
        SampleStepModel::FindCharges(e) => (m, ProbeStepModel::FindCharges(e)),
        SampleStepModel::ReadError => (m, ProbeStepModel::ReadWord(0)),
        SampleStepModel::Done(Ok(_)) => (m, ProbeStepModel::Done(Ok(s.probe))),
        SampleStepModel::Done(Err(e)) => (m, ProbeStepModel::Done(Err(e))),
    }
}

/// The resolution while its chain takes `step`: a resolved inventory starts the validating full
/// sample of it.
pub open spec fn lift_chain(chain: InventoryResolve, step: InventoryStepModel) -> (ProbeResolveModel, ProbeStepModel) {
    let m = ProbeResolveModel { chain, sample: None };
    match step {
        InventoryStepModel::ReadWord(a) => (m, ProbeStepModel::ReadWord(a)),
        InventoryStepModel::ReadInt(a) => (m, ProbeStepModel::ReadInt(a)),
        InventoryStepModel::Done(Err(e)) => (m, ProbeStepModel::Done(Err(e))),
        InventoryStepModel::Done(Ok(p)) => {
            let (s, st) = sample_full_start(p);
            lift_sample(chain, s, st)
        },
    }
}

/// The resolution after a pointer-sized read gave `v`.
pub open spec fn probe_word_step(m: ProbeResolveModel, v: usize) -> (ProbeResolveModel, ProbeStepModel) {
    match m.sample {
        None => {
            let (c, st) = inventory_word_step(m.chain, v);
            lift_chain(c, st)
        },
        Some(s) => {
            let (s2, st) = sample_word_step(s, v);
            lift_sample(m.chain, s2, st)
        },
    }
}

/// The resolution after a 32-bit read gave `v`.
pub open spec fn probe_int_step(m: ProbeResolveModel, v: i32) -> (ProbeResolveModel, ProbeStepModel) {
    match m.sample {
        None => {
            let (c, st) = inventory_int_step(m.chain, v);
            lift_chain(c, st)
        },
        Some(s) => {
            let (s2, st) = sample_int_step(s, v);
            lift_sample(m.chain, s2, st)
        },
    }
}

/// The resolution after a read of bytes gave `b`.
pub open spec fn probe_bytes_step(m: ProbeResolveModel, b: Seq<u8>) -> (ProbeResolveModel, ProbeStepModel) {
    let (s2, st) = sample_bytes_step(m.sample->0, b);
    lift_sample(m.chain, s2, st)
}

/// The resolution after the Charges component lookup gave `found`.
pub open spec fn probe_found_step(m: ProbeResolveModel, found: Option<usize>) -> (ProbeResolveModel, ProbeStepModel) {
    let (s2, st) = sample_found_step(m.sample->0, found);
    lift_sample(m.chain, s2, st)
}

impl FlaskProbeResolve {
    fn lift_sample(chain: InventoryResolve, s: ChargeSample, step: SampleStep) -> (r: (FlaskProbeResolve, ProbeStep))
        requires
            !(step@ is ReadError),
            sample_step_ok(s@, step@),
            !s@.fast,
            usable_probe(s@.probe),
            s@.probe.area_instance == chain.area_instance,
            s@.probe.local_player == chain.local_player,
            s@.probe.player_info_offset == chain.player_info_offset,
        ensures
            (r.0@, r.1@) == lift_sample(chain, s@, step@),
            r.0@.wf(),
            probe_fits(r.0@, r.1@),
            probe_done_ok(r.0@, r.1@),
    {
        let p = s.probe();
        let out = match step {
            SampleStep::ReadWord(a) => ProbeStep::ReadWord(a),
            SampleStep::ReadInt(a) => ProbeStep::ReadInt(a),
            SampleStep::ReadBytes(a, n) => ProbeStep::ReadBytes(a, n),
            SampleStep::FindCharges(e) => ProbeStep::FindCharges(e),
            SampleStep::ReadError => ProbeStep::ReadWord(0),
            SampleStep::Done(Ok(_)) => ProbeStep::Done(Ok(p)),
            SampleStep::Done(Err(e)) => ProbeStep::Done(Err(e)),
        };
        (FlaskProbeResolve { chain, sample: Some(s) }, out)
    }

    fn lift_chain(chain: InventoryResolve, step: InventoryStep) -> (r: (FlaskProbeResolve, ProbeStep))
        requires
            chain.wf(),
            step_fits(chain, step@),
            step@ matches InventoryStepModel::Done(Ok(p)) ==> usable_probe(p) && p.area_instance
                == chain.area_instance && p.local_player == chain.local_player
                && p.player_info_offset == chain.player_info_offset,
        ensures
            (r.0@, r.1@) == lift_chain(chain, step@),
            r.0@.wf(),
            probe_fits(r.0@, r.1@),
            probe_done_ok(r.0@, r.1@),
            r.0@.chain == chain,
            step@ matches InventoryStepModel::Done(Ok(_)) ==> r.0@.sample matches Some(s)
                && sample_step_ok(s, sample_full_start(s.probe).1),
    {
        match step {
            InventoryStep::ReadWord(a) => (FlaskProbeResolve { chain, sample: None }, ProbeStep::ReadWord(a)),
            InventoryStep::ReadInt(a) => (FlaskProbeResolve { chain, sample: None }, ProbeStep::ReadInt(a)),
            InventoryStep::Done(Err(e)) => (FlaskProbeResolve { chain, sample: None }, ProbeStep::Done(Err(e))),
            InventoryStep::Done(Ok(p)) => {
                let (s, st) = ChargeSample::full(&p);
                Self::lift_sample(chain, s, st)
            },
        }
    }

    /// Starts resolving the flask inventory of the local player found at `local_player_offset`
    /// in the area instance.
    pub fn start(area_instance: usize, local_player: usize, local_player_offset: usize) -> (r: (
        FlaskProbeResolve,
        ProbeStep,
    ))
        ensures
            r.0@.wf(),
            probe_fits(r.0@, r.1@),
            r.0@.sample is None,
            match player_info_offset_result(local_player_offset) {
                Err(e) => r.1@ == ProbeStepModel::Done(Err(e)),
                Ok(off) => r.0@.chain.area_instance == area_instance && r.0@.chain.local_player
                    == local_player && r.0@.chain.player_info_offset == off && r.0@.chain.stage
                    == InventoryStage::PlayerPointer && r.1@ == ProbeStepModel::ReadWord(
                    wrap_add(wrap_add(area_instance, off), PLAYER_INFO_LOCAL_PLAYER),
                ),
            },
    {
        let (chain, step) = InventoryResolve::start(area_instance, local_player, local_player_offset);
        match step {
            InventoryStep::ReadWord(a) => (FlaskProbeResolve { chain, sample: None }, ProbeStep::ReadWord(a)),
            InventoryStep::ReadInt(a) => (FlaskProbeResolve { chain, sample: None }, ProbeStep::ReadInt(a)),
            InventoryStep::Done(Err(e)) => (FlaskProbeResolve { chain, sample: None }, ProbeStep::Done(Err(e))),
            InventoryStep::Done(Ok(p)) => (FlaskProbeResolve { chain, sample: None }, ProbeStep::ReadWord(0)),
        }
    }

    /// A pointer-sized read asked for gave `v`.
    pub fn word_read(self, v: usize) -> (r: (FlaskProbeResolve, ProbeStep))
        requires
            self@.wf(),
            self@.expects_word(),
        ensures
            (r.0@, r.1@) == probe_word_step(self@, v),
            r.0@.wf(),
            probe_fits(r.0@, r.1@),
            probe_done_ok(r.0@, r.1@),
            r.0@.origin() == self@.origin(),
    {
        match self.sample {
            None => {
                let mut chain = self.chain;
                let step = chain.word_read(v);
                Self::lift_chain(chain, step)
            },
            Some(mut s) => {
                let step = s.word_read(v);
                Self::lift_sample(self.chain, s, step)
            },
        }
    }

    /// A 32-bit read asked for gave `v`.
    pub fn int_read(self, v: i32) -> (r: (FlaskProbeResolve, ProbeStep))
        requires
            self@.wf(),
            self@.expects_int(),
        ensures
            (r.0@, r.1@) == probe_int_step(self@, v),
            r.0@.wf(),
            probe_fits(r.0@, r.1@),
            probe_done_ok(r.0@, r.1@),
            r.0@.origin() == self@.origin(),
    {
        match self.sample {
            None => {
                let mut chain = self.chain;
                let step = chain.int_read(v);
                Self::lift_chain(chain, step)
            },
            Some(mut s) => {
                let step = s.int_read(v);
                Self::lift_sample(self.chain, s, step)
            },
        }
    }

    /// A read of bytes asked for gave `b`.
    pub fn bytes_read(self, b: &[u8]) -> (r: (FlaskProbeResolve, ProbeStep))
        requires
            self@.wf(),
            self@.bytes_wanted() == Some(b@.len()),
        ensures
            (r.0@, r.1@) == probe_bytes_step(self@, b@),
            r.0@.wf(),
            probe_fits(r.0@, r.1@),
            probe_done_ok(r.0@, r.1@),
            r.0@.origin() == self@.origin(),
    {
        match self.sample {
            None => (FlaskProbeResolve { chain: self.chain, sample: None }, ProbeStep::ReadWord(0)),
            Some(mut s) => {
                let step = s.bytes_read(b);
                Self::lift_sample(self.chain, s, step)
            },
        }
    }

    /// The lookup of the current item entity's Charges component gave `found`.
    pub fn charges_found(self, found: Option<usize>) -> (r: (FlaskProbeResolve, ProbeStep))
        requires
            self@.wf(),
            self@.expects_charges(),
        ensures
            (r.0@, r.1@) == probe_found_step(self@, found),
            r.0@.wf(),
            probe_fits(r.0@, r.1@),
            probe_done_ok(r.0@, r.1@),
            r.0@.origin() == self@.origin(),
    {
        match self.sample {
            None => (FlaskProbeResolve { chain: self.chain, sample: None }, ProbeStep::ReadWord(0)),
            Some(mut s) => {
                let step = s.charges_found(found);
                Self::lift_sample(self.chain, s, step)
            },
        }
    }
}


// The fast reader against the full reader, on the same memory.

/// The fast reader checks the chain's identity with one read of the player info where the full
/// reader reads its two pointers one by one; for a resolved inventory, whose pointers are
/// plausible, both accept exactly the same values.
pub proof fn lemma_identity_checks_agree(
    probe: FlaskInventoryProbe,
    entries: Seq<Option<CachedChargeComponent>>,
    b: Seq<u8>,
)
    requires
        plausible_address(probe.local_player as int),
        plausible_address(probe.server_data as int),
        b.len() == PLAYER_INFO_LEN,
    ensures
        ({
            let (f1, s1) = sample_word_step(
                sample_full_start(probe).0,
                word_at(b, PLAYER_INFO_LOCAL_PLAYER as int),
            );
            let (f2, s2) = sample_word_step(f1, word_at(b, 0));
            let (q1, t1) = sample_bytes_step(sample_fast_start(probe, entries).0, b);
            (f2.stage is ItemsFirst) == (q1.stage is HeaderBytes)
        }),
{
}

/// For an inventory with the two flask slots, the fast reader's one read of the item list's
/// header accepts exactly the headers the full reader accepts, and both go on to the same slot
/// pointers.
pub proof fn lemma_header_checks_agree(full: SampleModel, fast: SampleModel, b: Seq<u8>)
    requires
        full.stage is ItemsFirst,
        fast.stage is HeaderBytes,
        full.probe == fast.probe,
        full.probe.item_cells >= 2,
        b.len() == VECTOR_HEADER_LEN,
    ensures
        ({
            let (f1, s1) = sample_word_step(full, word_at(b, 0));
            let (f2, s2) = sample_word_step(f1, word_at(b, 8));
            let (q1, t1) = sample_bytes_step(fast, b);
            &&& (f2.stage is SlotWord) == (q1.stage is SlotBytes)
            &&& f2.stage is SlotWord ==> f2.first == q1.first && f2.slot == 0
        }),
{
}

/// How a step of the fast reader relates to the same step of the full reader while both read
/// the flask slots: the fast one takes the same next read into the same state, except that it
/// knows both slot pointers `pointers` from the start; when the full reader finishes the first
/// slot and goes to read the second slot's pointer, the fast one is where the full one is once
/// that read gave the pointer it read up front.
pub open spec fn reader_agree(
    full: (SampleModel, SampleStepModel),
    fast: (SampleModel, SampleStepModel),
    pointers: Seq<usize>,
) -> bool {
    if full.0.stage is SlotWord && full.0.slot == 1 {
        let (f2, s2) = sample_word_step(full.0, pointers[1]);
        fast.0 == SampleModel { fast: true, ..f2 } && fast.1 == s2
    } else {
        fast.0 == SampleModel { fast: true, pointers, ..full.0 } && fast.1 == full.1
    }
}

/// The two readers agree on the slot pointers: the full reader's read of the first pointer and
/// the fast reader's read of both lead to agreeing states, for the same memory.
pub proof fn lemma_slot_pointers_agree(full: SampleModel, fast: SampleModel, b: Seq<u8>)
    requires
        full.wf(),
        full.stage is SlotWord,
        full.slot == 0,
        !full.fast,
        fast == (SampleModel { fast: true, stage: SampleStage::SlotBytes, ..full }),
        b.len() == 16,
    ensures
        reader_agree(
            sample_word_step(full, word_at(b, 0)),
            sample_bytes_step(fast, b),
            seq![word_at(b, 0), word_at(b, 8)],
        ),
{
    let p = seq![word_at(b, 0), word_at(b, 8)];
    assert(full.pointers.update(0, word_at(b, 0)).update(1, word_at(b, 8)) =~= p);
}

/// While both readers read a slot, each read they are given leads them to agreeing states
/// (see `reader_agree`), so for the same memory the fast reader with an empty cache reports what
/// the full reader reports, slot by slot.
pub proof fn lemma_slot_reads_agree(
    full: SampleModel,
    pointers: Seq<usize>,
    v: usize,
    n: i32,
    b: Seq<u8>,
    found: Option<usize>,
)
    requires
        full.wf(),
        full.in_slot(),
        !full.fast,
        pointers.len() == 2,
        pointers[0] == full.pointers[0],
        full.slot == 1 ==> pointers == full.pointers,
    ensures
        ({
            let fast = SampleModel { fast: true, pointers, ..full };
            &&& full.expects_word() ==> reader_agree(
                sample_word_step(full, v),
                sample_word_step(fast, v),
                pointers,
            )
            &&& full.stage is PerUse ==> reader_agree(
                sample_int_step(full, n),
                sample_int_step(fast, n),
                pointers,
            )
            &&& full.bytes_wanted() == Some(b.len()) ==> reader_agree(
                sample_bytes_step(full, b),
                sample_bytes_step(fast, b),
                pointers,
            )
            &&& full.stage is Charges ==> reader_agree(
                sample_found_step(full, found),
                sample_found_step(fast, found),
                pointers,
            )
            &&& full.expects_values() ==> reader_agree(
                value_failure(full, None),
                value_failure(fast, None),
                pointers,
            )
        }),
{
    assert(full.pointers.update(1, pointers[1]) =~= pointers);
}

/// The `n` bytes of a memory image at `a`.
pub open spec fn mem_bytes(mem: spec_fn(int) -> u8, a: usize, n: usize) -> Seq<u8> {
    Seq::new(n as nat, |i: int| mem(a + i))
}

/// The sample after the read it asked for is done on a memory image, with `find` giving each
/// entity's Charges component.
pub open spec fn respond(
    m: SampleModel,
    s: SampleStepModel,
    mem: spec_fn(int) -> u8,
    find: spec_fn(usize) -> Option<usize>,
) -> (SampleModel, SampleStepModel) {
    match s {
        SampleStepModel::ReadWord(a) => sample_word_step(m, word_at(mem_bytes(mem, a, 8), 0)),
        SampleStepModel::ReadInt(a) => sample_int_step(m, le_signed(mem_bytes(mem, a, 4), 32) as i32),
        SampleStepModel::ReadBytes(a, n) => sample_bytes_step(m, mem_bytes(mem, a, n)),
        SampleStepModel::FindCharges(e) => sample_found_step(m, find(e)),
        _ => (m, s),
    }
}

/// Whether a sample is over.
pub open spec fn finished(s: SampleStepModel) -> bool {
    s is Done || s is ReadError
}

/// A sample run on a memory image for at most `fuel` reads: its outcome, or the read still
/// pending when the reads ran out.
pub open spec fn run(
    m: SampleModel,
    s: SampleStepModel,
    mem: spec_fn(int) -> u8,
    find: spec_fn(usize) -> Option<usize>,
    fuel: nat,
) -> SampleStepModel
    decreases fuel,
{
    if fuel == 0 || finished(s) {
        s
    } else {
        let (m2, s2) = respond(m, s, mem, find);
        run(m2, s2, mem, find, (fuel - 1) as nat)
    }
}

/// The slots a finished sample reports, if it succeeded.
pub open spec fn snapshot_of(s: SampleStepModel) -> Option<Seq<Option<FlaskChargeState>>> {
    match s {
        SampleStepModel::Done(Ok(slots)) => Some(slots),
        _ => None,
    }
}

/// Samples whose states differ only in which reader they are run the same, once both read the
/// second slot.
proof fn lemma_run_second_slot(
    full: SampleModel,
    s: SampleStepModel,
    mem: spec_fn(int) -> u8,
    find: spec_fn(usize) -> Option<usize>,
    fuel: nat,
)
    requires
        sample_step_ok(full, s),
        !full.fast,
        full.slot == 1,
        full.in_slot() || finished(s),
    ensures
        run(SampleModel { fast: true, ..full }, s, mem, find, fuel) == run(full, s, mem, find, fuel),
    decreases fuel,
{
    let fast = SampleModel { fast: true, ..full };
    if fuel == 0 || finished(s) {
    } else {
        let (f2, s2) = respond(full, s, mem, find);
        let (q2, t2) = respond(fast, s, mem, find);
        assert(fast == SampleModel { fast: true, pointers: full.pointers, ..full });
        match s {
            SampleStepModel::ReadWord(a) => {
                lemma_slot_reads_agree(full, full.pointers, word_at(mem_bytes(mem, a, 8), 0), 0, Seq::empty(), None);
            },
            SampleStepModel::ReadInt(a) => {
                lemma_slot_reads_agree(full, full.pointers, 0, le_signed(mem_bytes(mem, a, 4), 32) as i32, Seq::empty(), None);
            },
            SampleStepModel::ReadBytes(a, n) => {
                lemma_slot_reads_agree(full, full.pointers, 0, 0, mem_bytes(mem, a, n), None);
            },
            SampleStepModel::FindCharges(e) => {
                lemma_slot_reads_agree(full, full.pointers, 0, 0, Seq::empty(), find(e));
            },
            _ => {},
        }
        assert(q2 == SampleModel { fast: true, ..f2 } && t2 == s2);
        lemma_run_second_slot(f2, s2, mem, find, (fuel - 1) as nat);
    }
}

/// From agreeing states while reading the slots, a fast sample that finishes within `fuel`
/// reads reports what the full sample reports within one read more.
#[verifier::spinoff_prover]
#[verifier::rlimit(60)]
proof fn lemma_run_slots(
    full: SampleModel,
    s: SampleStepModel,
    fast: SampleModel,
    t: SampleStepModel,
    pointers: Seq<usize>,
    mem: spec_fn(int) -> u8,
    find: spec_fn(usize) -> Option<usize>,
    fuel: nat,
)
    requires
        sample_step_ok(full, s),
        !full.fast,
        full.in_slot() || finished(s) || (full.stage is SlotWord && full.slot == 1),
        full.stage is SlotWord && full.slot == 1 ==> s == SampleStepModel::ReadWord(
            wrap_add(full.first, 8),
        ),
        pointers.len() == 2,
        pointers[0] == full.pointers[0],
        full.slot == 1 && full.in_slot() ==> pointers == full.pointers,
        word_at(mem_bytes(mem, wrap_add(full.first, 8), 8), 0) == pointers[1],
        reader_agree((full, s), (fast, t), pointers),
    ensures
        finished(run(fast, t, mem, find, fuel)) ==> run(full, s, mem, find, fuel + 1) == run(
            fast,
            t,
            mem,
            find,
            fuel,
        ),
    decreases fuel,
{
    if full.stage is SlotWord && full.slot == 1 {
        let (f2, s2) = sample_word_step(full, pointers[1]);
        assert(respond(full, s, mem, find) == (f2, s2));
        lemma_run_second_slot(f2, s2, mem, find, fuel);
    } else if finished(s) || fuel == 0 {
    } else {
        let (f2, s2) = respond(full, s, mem, find);
        let (q2, t2) = respond(fast, s, mem, find);
        match s {
            SampleStepModel::ReadWord(a) => {
                lemma_slot_reads_agree(full, pointers, word_at(mem_bytes(mem, a, 8), 0), 0, Seq::empty(), None);
            },
            SampleStepModel::ReadInt(a) => {
                lemma_slot_reads_agree(full, pointers, 0, le_signed(mem_bytes(mem, a, 4), 32) as i32, Seq::empty(), None);
            },
            SampleStepModel::ReadBytes(a, n) => {
                lemma_slot_reads_agree(full, pointers, 0, 0, mem_bytes(mem, a, n), None);
            },
            SampleStepModel::FindCharges(e) => {
                lemma_slot_reads_agree(full, pointers, 0, 0, Seq::empty(), find(e));
            },
            _ => {},
        }
        assert(reader_agree((f2, s2), (q2, t2), pointers));
        lemma_run_slots(f2, s2, q2, t2, pointers, mem, find, (fuel - 1) as nat);
    }
}

/// A word read at `a + off` is the word at `off` of the bytes read at `a`.
proof fn lemma_word_in_bytes(mem: spec_fn(int) -> u8, a: usize, n: usize, off: usize)
    requires
        off + 8 <= n,
        a + n <= usize::MAX,
    ensures
        word_at(mem_bytes(mem, (a + off) as usize, 8), 0) == word_at(mem_bytes(mem, a, n), off as int),
{
    assert(field(mem_bytes(mem, (a + off) as usize, 8), 0, 8) =~= field(
        mem_bytes(mem, a, n),
        off as int,
        8,
    ));
}

/// The fast reader, started with an empty cache, reports the same flask charges as the full
/// reader on the same memory, and fails exactly when the full reader fails: for a resolved
/// inventory (plausible local player and server data pointers, at least the two flask slots)
/// whose reads do not wrap around the address space, the fast sample finishes within fifteen
/// reads, and the full sample within three reads more, with the same snapshot, or both fail.
#[verifier::spinoff_prover]
#[verifier::rlimit(80)]
pub proof fn lemma_fast_reader_matches_full(
    probe: FlaskInventoryProbe,
    mem: spec_fn(int) -> u8,
    find: spec_fn(usize) -> Option<usize>,
    fuel: nat,
)
    requires
        plausible_address(probe.local_player as int),
        plausible_address(probe.server_data as int),
        probe.item_cells >= 2,
        info_address(probe) + PLAYER_INFO_LEN <= usize::MAX,
        probe.flask_inventory + INVENTORY_ITEM_LIST + VECTOR_HEADER_LEN <= usize::MAX,
        word_at(mem_bytes(mem, (probe.flask_inventory + INVENTORY_ITEM_LIST) as usize, 8), 0)
            + SLOT_POINTERS_LEN <= usize::MAX,
        fuel >= 15,
    ensures
        ({
            let (fm, fs) = sample_full_start(probe);
            let (qm, qs) = sample_fast_start(probe, seq![None, None]);
            &&& finished(run(qm, qs, mem, find, fuel))
            &&& finished(run(fm, fs, mem, find, fuel + 3))
            &&& snapshot_of(run(fm, fs, mem, find, fuel + 3)) == snapshot_of(
                run(qm, qs, mem, find, fuel),
            )
        }),
{
    let (fm, fs) = sample_full_start(probe);
    let (qm, qs) = sample_fast_start(probe, seq![None, None]);
    lemma_fast_run_finishes(qm, qs, mem, find, fuel);
    let info = info_address(probe);
    let list = (probe.flask_inventory + INVENTORY_ITEM_LIST) as usize;
    // The chain's identity.
    let b1 = mem_bytes(mem, info, PLAYER_INFO_LEN);
    lemma_word_in_bytes(mem, info, PLAYER_INFO_LEN, PLAYER_INFO_LOCAL_PLAYER);
    lemma_word_in_bytes(mem, info, PLAYER_INFO_LEN, 0);
    assert(mem_bytes(mem, (info + 0) as usize, 8) == mem_bytes(mem, info, 8));
    let (f1, s1) = respond(fm, fs, mem, find);
    let (f2, s2) = respond(f1, s1, mem, find);
    let (q1, t1) = respond(qm, qs, mem, find);
    lemma_identity_checks_agree(probe, seq![None, None], b1);
    if !(q1.stage is HeaderBytes) {
        assert(run(qm, qs, mem, find, fuel) == run(q1, t1, mem, find, (fuel - 1) as nat));
        assert(t1 is Done && !(t1 matches SampleStepModel::Done(Ok(_))));
        assert(s1 is Done || s2 is Done);
        if s1 is Done {
            assert(run(fm, fs, mem, find, fuel + 3) == s1);
        } else {
            assert(run(fm, fs, mem, find, fuel + 3) == run(f1, s1, mem, find, fuel + 2));
            assert(run(f1, s1, mem, find, fuel + 2) == run(f2, s2, mem, find, fuel + 1));
            assert(run(f2, s2, mem, find, fuel + 1) == s2);
        }
        return;
    }
    // The item list's header.
    let b2 = mem_bytes(mem, list, VECTOR_HEADER_LEN);
    lemma_word_in_bytes(mem, list, VECTOR_HEADER_LEN, 0);
    lemma_word_in_bytes(mem, list, VECTOR_HEADER_LEN, 8);
    assert(mem_bytes(mem, (list + 0) as usize, 8) == mem_bytes(mem, list, 8));
    let (f3, s3) = respond(f2, s2, mem, find);
    let (f4, s4) = respond(f3, s3, mem, find);
    let (q2, t2) = respond(q1, t1, mem, find);
    lemma_header_checks_agree(f2, q1, b2);
    if !(q2.stage is SlotBytes) {
        assert(run(qm, qs, mem, find, fuel) == run(q2, t2, mem, find, (fuel - 2) as nat));
        assert(t2 is Done && !(t2 matches SampleStepModel::Done(Ok(_))));
        assert(s4 is Done);
        assert(run(fm, fs, mem, find, fuel + 3) == run(f1, s1, mem, find, fuel + 2));
        assert(run(f1, s1, mem, find, fuel + 2) == run(f2, s2, mem, find, fuel + 1));
        assert(run(f2, s2, mem, find, fuel + 1) == run(f3, s3, mem, find, fuel));
        assert(run(f3, s3, mem, find, fuel) == run(f4, s4, mem, find, (fuel - 1) as nat));
        return;
    }
    // The slot pointers.
    let first = f4.first;
    let b3 = mem_bytes(mem, first, SLOT_POINTERS_LEN);
    lemma_word_in_bytes(mem, first, SLOT_POINTERS_LEN, 0);
    lemma_word_in_bytes(mem, first, SLOT_POINTERS_LEN, 8);
    assert(mem_bytes(mem, (first + 0) as usize, 8) == mem_bytes(mem, first, 8));
    let (f5, s5) = respond(f4, s4, mem, find);
    let (q3, t3) = respond(q2, t2, mem, find);
    lemma_slot_pointers_agree(f4, q2, b3);
    let pointers = seq![word_at(b3, 0), word_at(b3, 8)];
    lemma_run_slots(f5, s5, q3, t3, pointers, mem, find, (fuel - 3) as nat);
    assert(run(fm, fs, mem, find, fuel + 3) == run(f5, s5, mem, find, (fuel - 2) as nat));
    assert(run(qm, qs, mem, find, fuel) == run(q3, t3, mem, find, (fuel - 3) as nat));
}

/// At most how many more reads the fast reader makes from `m`.
pub open spec fn fast_reads_left(m: SampleModel) -> nat {
    let slot_cost: nat = match m.stage {
        SampleStage::Entity => 4,
        SampleStage::Charges => 3,
        SampleStage::ChargeHead => if m.from_cache {
            6
        } else {
            2
        },
        SampleStage::PerUse => if m.from_cache {
            5
        } else {
            1
        },
        _ => 0,
    };
    match m.stage {
        SampleStage::IdentityBytes => 15,
        SampleStage::HeaderBytes => 14,
        SampleStage::SlotBytes => 13,
        SampleStage::Finished => 0,
        _ => if m.slot == 0 {
            slot_cost + 6
        } else {
            slot_cost
        },
    }
}

/// Each read takes the fast reader closer to its end.
proof fn lemma_fast_read_progresses(
    m: SampleModel,
    s: SampleStepModel,
    mem: spec_fn(int) -> u8,
    find: spec_fn(usize) -> Option<usize>,
)
    requires
        sample_step_ok(m, s),
        m.fast,
        !finished(s),
        !(m.stage is SlotWord || m.stage is PlayerWord || m.stage is ServerWord
            || m.stage is ItemsFirst || m.stage is ItemsLast),
    ensures
        ({
            let (m2, s2) = respond(m, s, mem, find);
            &&& sample_step_ok(m2, s2)
            &&& m2.fast
            &&& !(m2.stage is SlotWord || m2.stage is PlayerWord || m2.stage is ServerWord
                || m2.stage is ItemsFirst || m2.stage is ItemsLast)
            &&& finished(s2) || fast_reads_left(m2) < fast_reads_left(m)
        }),
{
}

/// The fast reader finishes within as many reads as `fast_reads_left` says.
proof fn lemma_fast_run_finishes(
    m: SampleModel,
    s: SampleStepModel,
    mem: spec_fn(int) -> u8,
    find: spec_fn(usize) -> Option<usize>,
    fuel: nat,
)
    requires
        sample_step_ok(m, s),
        m.fast,
        !(m.stage is SlotWord || m.stage is PlayerWord || m.stage is ServerWord
            || m.stage is ItemsFirst || m.stage is ItemsLast),
        fuel >= fast_reads_left(m),
    ensures
        finished(run(m, s, mem, find, fuel)),
    decreases fuel,
{
    if finished(s) {
    } else {
        if fuel == 0 {
            assert(m.stage is Finished);
        }
        lemma_fast_read_progresses(m, s, mem, find);
        let (m2, s2) = respond(m, s, mem, find);
        lemma_fast_run_finishes(m2, s2, mem, find, (fuel - 1) as nat);
    }
}

} // verus!
