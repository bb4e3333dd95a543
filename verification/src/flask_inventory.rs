//! Flask charges: resolving the flask inventory, its shape, the charge values, and the cache of
//! charge components.

use vstd::prelude::*;

use crate::area::{plausible_address, plausible_ptr};
use crate::entity::{address, wrap_add};
use crate::error::{error, probe_error, result_view, ErrorKind, ProbeError, ProbeErrorModel};
use crate::text::{
    decimal, hex_padded, push_decimal, push_hex_padded, push_signed_decimal, push_str,
    signed_decimal, string_from,
};

verus! {

/// Flask slots the helper uses: Life and Mana.
pub const POE2_FLASK_SLOT_COUNT: usize = 2;

/// Largest plausible number of item cells in the flask inventory.
pub const MAX_INVENTORY_CELLS: usize = 64;

/// Largest plausible charge value.
pub const MAX_REASONABLE_CHARGES: i32 = 100_000;

/// Inventory id of the flask belt.
pub const FLASK_INVENTORY_ID: i32 = 12;

/// Offset from the local player pointer to the player info block in the area instance.
pub const PLAYER_INFO_LOCAL_PLAYER: usize = 0x20;

/// The charges of one flask.
#[derive(Debug, Clone, Copy, PartialEq, Eq, Structural)]
pub struct FlaskChargeState {
    pub inventory_item: usize,
    pub item_entity: usize,
    pub charges_component: usize,
    pub current: i32,
    pub per_use: i32,
}

impl FlaskChargeState {
    /// Whether the flask holds enough charges for one use.
    pub fn usable(self) -> (b: bool)
        ensures
            b == (self.current >= self.per_use),
    {
        self.current >= self.per_use
    }
}

/// The charges of the Life and Mana flasks; `None` for an empty slot.
#[derive(Debug, Clone, Copy, PartialEq, Eq)]
pub struct FlaskChargeSnapshot {
    pub slots: [Option<FlaskChargeState>; 2],
}

/// The resolved chain to the flask inventory.
#[derive(Debug, Clone, Copy, PartialEq, Eq, Structural)]
pub struct FlaskInventoryProbe {
    pub area_instance: usize,
    pub local_player: usize,
    pub player_info_offset: usize,
    pub server_data: usize,
    pub player_data: usize,
    pub flask_inventory: usize,
    pub width: i32,
    pub height: i32,
    pub item_cells: usize,
}

/// A flask's charge component, found by name, for the inventory item it belongs to.
#[derive(Debug, Clone, Copy, PartialEq, Eq, Structural)]
pub struct CachedChargeComponent {
    pub inventory_item: usize,
    pub item_entity: usize,
    pub charges_component: usize,
}

/// Caches named Charges components while the corresponding inventory-item pointer is unchanged.
#[derive(Debug)]
pub struct FlaskChargeCache {
    slots: [Option<CachedChargeComponent>; 2],
}

impl FlaskChargeCache {
    /// What the cache holds for each slot.
    pub closed spec fn entries(&self) -> Seq<Option<CachedChargeComponent>> {
        self.slots@
    }

    /// The cache has an entry for each of the two flask slots.
    pub proof fn lemma_two_slots(&self)
        ensures
            self.entries().len() == 2,
    {
    }

    /// An empty cache.
    pub fn new() -> (c: Self)
        ensures
            c.entries() == seq![None::<CachedChargeComponent>, None],
    {
        let c = FlaskChargeCache { slots: [None, None] };
        assert(c.slots@ =~= seq![None::<CachedChargeComponent>, None]);
        c
    }

    /// Forgets every slot.
    pub fn clear(&mut self)
        ensures
            final(self).entries() == seq![None::<CachedChargeComponent>, None],
    {
        self.slots = [None, None];
        assert(self.slots@ =~= seq![None::<CachedChargeComponent>, None]);
    }

    /// The cached component of `slot`, if it was found for this same inventory item.
    pub fn lookup(&self, slot: usize, inventory_item: usize) -> (r: Option<CachedChargeComponent>)
        requires
            slot < POE2_FLASK_SLOT_COUNT,
        ensures
            r == (match self.entries()[slot as int] {
                Some(c) => if c.inventory_item == inventory_item {
                    Some(c)
                } else {
                    None
                },
                None => None,
            }),
    {
        match self.slots[slot] {
            Some(c) => if c.inventory_item == inventory_item {
                Some(c)
            } else {
                None
            },
            None => None,
        }
    }

    /// Remembers `entry` for `slot`, or forgets the slot.
    pub fn set(&mut self, slot: usize, entry: Option<CachedChargeComponent>)
        requires
            slot < POE2_FLASK_SLOT_COUNT,
        ensures
            final(self).entries() == old(self).entries().update(slot as int, entry),
    {
        self.slots[slot] = entry;
    }
}

/// The error text for a vector header that fails its checks.
pub open spec fn vector_range_result(first: usize, last: usize, stride: usize, max_count: usize, label: Seq<char>) -> Result<usize, ProbeErrorModel> {
    if first == 0 && last == 0 {
        Ok(0)
    } else if !plausible_address(first as int) || last < first {
        Err(probe_error(ErrorKind::InvalidData, label + " has an invalid range"@))
    } else if stride == 0 || (last - first) % (stride as int) != 0 {
        Err(probe_error(ErrorKind::InvalidData, label + " has an invalid element stride"@))
    } else if (last - first) / (stride as int) > max_count {
        Err(
            probe_error(
                ErrorKind::InvalidData,
                label + " contains an implausible "@ + decimal(((last - first) / (stride as int)) as nat)
                    + " elements"@,
            ),
        )
    } else {
        Ok(((last - first) / (stride as int)) as usize)
    }
}

/// Checks a `[first, last)` vector header of `stride`-byte elements and counts them; an
/// all-zero header is an empty vector.
pub fn validate_vector_range(first: usize, last: usize, stride: usize, max_count: usize, label: &str) -> (r: Result<usize, ProbeError>)
    ensures
        result_view(r) == vector_range_result(first, last, stride, max_count, label@),
{
    if first == 0 && last == 0 {
        return Ok(0);
    }
    if !plausible_ptr(first) || last < first {
        let mut m = string_from(label);
        push_str(&mut m, " has an invalid range");
        return Err(ProbeError { kind: ErrorKind::InvalidData, message: m });
    }
    let bytes = last - first;
    if stride == 0 || bytes % stride != 0 {
        let mut m = string_from(label);
        push_str(&mut m, " has an invalid element stride");
        return Err(ProbeError { kind: ErrorKind::InvalidData, message: m });
    }
    let count = bytes / stride;
    if count > max_count {
        let mut m = string_from(label);
        push_str(&mut m, " contains an implausible ");
        push_decimal(&mut m, count as u64);
        push_str(&mut m, " elements");
        return Err(ProbeError { kind: ErrorKind::InvalidData, message: m });
    }
    Ok(count)
}

/// `"flask slot N"` for the zero-based `slot`.
pub open spec fn slot_label(slot: usize) -> Seq<char> {
    "flask slot "@ + decimal((slot + 1) as nat)
}

fn slot_message(slot: usize, rest: &str) -> (s: String)
    requires
        slot < usize::MAX,
    ensures
        s@ == slot_label(slot) + rest@,
{
    let mut s = string_from("flask slot ");
    push_decimal(&mut s, (slot + 1) as u64);
    push_str(&mut s, rest);
    s
}

/// Charge values a flask can hold: a current count from 0 and a cost per use from 1, both at
/// most `MAX_REASONABLE_CHARGES`.
pub open spec fn plausible_charges(current: i32, per_use: i32) -> bool {
    0 <= current <= MAX_REASONABLE_CHARGES && 1 <= per_use <= MAX_REASONABLE_CHARGES
}

/// The check of a flask's charge values.
pub open spec fn charge_values_result(current: i32, per_use: i32, slot: usize) -> Result<(i32, i32), ProbeErrorModel> {
    if plausible_charges(current, per_use) {
        Ok((current, per_use))
    } else {
        Err(
            probe_error(
                ErrorKind::InvalidData,
                slot_label(slot) + " returned implausible charge values: current="@
                    + signed_decimal(current as int) + ", per_use="@ + signed_decimal(per_use as int),
            ),
        )
    }
}

/// Checks a flask's charge values.
pub fn check_charge_values(current: i32, per_use: i32, slot: usize) -> (r: Result<(i32, i32), ProbeError>)
    requires
        slot < usize::MAX,
    ensures
        result_view(r) == charge_values_result(current, per_use, slot),
{
    if !(0 <= current && current <= MAX_REASONABLE_CHARGES) || !(1 <= per_use && per_use
        <= MAX_REASONABLE_CHARGES) {
        let mut m = slot_message(slot, " returned implausible charge values: current=");
        push_signed_decimal(&mut m, current as i64);
        push_str(&mut m, ", per_use=");
        push_signed_decimal(&mut m, per_use as i64);
        return Err(ProbeError { kind: ErrorKind::InvalidData, message: m });
    }
    Ok((current, per_use))
}

/// The check of a flask's pointer to its charge data.
pub open spec fn charges_internal_result(pointer: usize, slot: usize) -> Result<usize, ProbeErrorModel> {
    if plausible_address(pointer as int) {
        Ok(pointer)
    } else {
        Err(probe_error(ErrorKind::InvalidData, slot_label(slot) + " has an invalid Charges internal pointer"@))
    }
}

/// Checks a flask's pointer to its charge data.
pub fn check_charges_internal(pointer: usize, slot: usize) -> (r: Result<usize, ProbeError>)
    requires
        slot < usize::MAX,
    ensures
        result_view(r) == charges_internal_result(pointer, slot),
{
    if !plausible_ptr(pointer) {
        return Err(ProbeError { kind: ErrorKind::InvalidData, message: slot_message(slot, " has an invalid Charges internal pointer") });
    }
    Ok(pointer)
}

/// What a flask slot's item pointer says: empty, an item, or an implausible pointer.
pub open spec fn slot_item_result(pointer: usize, slot: usize) -> Result<Option<usize>, ProbeErrorModel> {
    if pointer == 0 {
        Ok(None)
    } else if !plausible_address(pointer as int) {
        Err(probe_error(ErrorKind::InvalidData, slot_label(slot) + " has an invalid inventory-item pointer"@))
    } else {
        Ok(Some(pointer))
    }
}

/// Checks a flask slot's item pointer.
pub fn check_slot_item(pointer: usize, slot: usize) -> (r: Result<Option<usize>, ProbeError>)
    requires
        slot < usize::MAX,
    ensures
        result_view(r) == slot_item_result(pointer, slot),
{
    if pointer == 0 {
        return Ok(None);
    }
    if !plausible_ptr(pointer) {
        return Err(ProbeError { kind: ErrorKind::InvalidData, message: slot_message(slot, " has an invalid inventory-item pointer") });
    }
    Ok(Some(pointer))
}

/// The error when a flask item has no Charges component.
pub fn missing_charges_component(slot: usize) -> (e: ProbeError)
    requires
        slot < usize::MAX,
    ensures
        e@ == probe_error(ErrorKind::InvalidData, slot_label(slot) + " item does not expose a readable Charges component"@),
{
    ProbeError { kind: ErrorKind::InvalidData, message: slot_message(slot, " item does not expose a readable Charges component") }
}

/// The cell count the flask inventory's dimensions imply, when they are plausible.
pub open spec fn inventory_cells_result(width: i32, height: i32) -> Result<usize, ProbeErrorModel> {
    if width <= 0 || height <= 0 {
        Err(probe_error(ErrorKind::InvalidData, "implausible PoE2 flask inventory dimensions: "@ + signed_decimal(width as int) + "x"@ + signed_decimal(height as int)))
    } else if width * height > usize::MAX {
        Err(probe_error(ErrorKind::InvalidData, "flask inventory cell-count overflow"@))
    } else if width * height > MAX_INVENTORY_CELLS {
        Err(probe_error(ErrorKind::InvalidData, "implausible PoE2 flask inventory size: "@ + signed_decimal(width as int) + "x"@ + signed_decimal(height as int)))
    } else {
        Ok((width * height) as usize)
    }
}

fn dims_message(prefix: &str, width: i32, height: i32) -> (s: String)
    ensures
        s@ == prefix@ + signed_decimal(width as int) + "x"@ + signed_decimal(height as int),
{
    let mut s = string_from(prefix);
    push_signed_decimal(&mut s, width as i64);
    push_str(&mut s, "x");
    push_signed_decimal(&mut s, height as i64);
    s
}

/// Checks the flask inventory's dimensions and counts its cells.
pub fn check_inventory_dimensions(width: i32, height: i32) -> (r: Result<usize, ProbeError>)
    ensures
        result_view(r) == inventory_cells_result(width, height),
{
    if width <= 0 || height <= 0 {
        return Err(ProbeError { kind: ErrorKind::InvalidData, message: dims_message("implausible PoE2 flask inventory dimensions: ", width, height) });
    }
    let cells = match (width as usize).checked_mul(height as usize) {
        Some(c) => c,
        None => {
            return Err(error(ErrorKind::InvalidData, "flask inventory cell-count overflow"));
        },
    };
    if cells > MAX_INVENTORY_CELLS {
        return Err(ProbeError { kind: ErrorKind::InvalidData, message: dims_message("implausible PoE2 flask inventory size: ", width, height) });
    }
    Ok(cells as usize)
}

/// The item list's length checked against the dimensions and the two slots the helper uses.
pub open spec fn item_cells_result(expected: usize, cells: usize) -> Result<usize, ProbeErrorModel> {
    if cells != expected {
        Err(probe_error(ErrorKind::InvalidData, "flask inventory dimensions imply "@ + decimal(expected as nat) + " cells but ItemList contains "@ + decimal(cells as nat)))
    } else if cells < POE2_FLASK_SLOT_COUNT {
        Err(probe_error(ErrorKind::InvalidData, "PoE2 flask inventory exposes only "@ + decimal(cells as nat) + " cells; expected at least two"@))
    } else {
        Ok(cells)
    }
}

/// Checks the item list's length.
pub fn check_item_cells(expected: usize, cells: usize) -> (r: Result<usize, ProbeError>)
    ensures
        result_view(r) == item_cells_result(expected, cells),
{
    if cells != expected {
        let mut m = string_from("flask inventory dimensions imply ");
        push_decimal(&mut m, expected as u64);
        push_str(&mut m, " cells but ItemList contains ");
        push_decimal(&mut m, cells as u64);
        return Err(ProbeError { kind: ErrorKind::InvalidData, message: m });
    }
    if cells < POE2_FLASK_SLOT_COUNT {
        let mut m = string_from("PoE2 flask inventory exposes only ");
        push_decimal(&mut m, cells as u64);
        push_str(&mut m, " cells; expected at least two");
        return Err(ProbeError { kind: ErrorKind::InvalidData, message: m });
    }
    Ok(cells)
}

/// Where the player info block is, from the local player pointer's offset.
pub open spec fn player_info_offset_result(local_player_offset: usize) -> Result<usize, ProbeErrorModel> {
    if local_player_offset < PLAYER_INFO_LOCAL_PLAYER {
        Err(probe_error(ErrorKind::InvalidData, "LocalPlayer offset is smaller than PlayerInfo.LocalPlayerPtr"@))
    } else {
        Ok((local_player_offset - PLAYER_INFO_LOCAL_PLAYER) as usize)
    }
}

/// Finds the player info block's offset.
pub fn player_info_offset(local_player_offset: usize) -> (r: Result<usize, ProbeError>)
    ensures
        result_view(r) == player_info_offset_result(local_player_offset),
{
    match local_player_offset.checked_sub(PLAYER_INFO_LOCAL_PLAYER) {
        Some(v) => Ok(v),
        None => Err(error(ErrorKind::InvalidData, "LocalPlayer offset is smaller than PlayerInfo.LocalPlayerPtr")),
    }
}

/// The check of a pointer read from `address`.
pub open spec fn pointer_result(address: usize, value: usize) -> Result<usize, ProbeErrorModel> {
    if plausible_address(value as int) {
        Ok(value)
    } else {
        Err(probe_error(ErrorKind::InvalidData, "invalid pointer at 0x"@ + hex_padded(address as nat, 16)))
    }
}

/// Checks a pointer read from `address`.
pub fn check_pointer(address: usize, value: usize) -> (r: Result<usize, ProbeError>)
    ensures
        result_view(r) == pointer_result(address, value),
{
    if plausible_ptr(value) {
        Ok(value)
    } else {
        let mut m = string_from("invalid pointer at 0x");
        push_hex_padded(&mut m, address as u64, 16);
        Err(ProbeError { kind: ErrorKind::InvalidData, message: m })
    }
}

/// What a re-read of the chain's identity pointers says while sampling charges.
pub open spec fn inventory_identity_result(probe: FlaskInventoryProbe, player: usize, server_data: usize) -> Result<(), ProbeErrorModel> {
    if player != probe.local_player {
        Err(probe_error(ErrorKind::Interrupted, "local player changed while reading flask inventory"@))
    } else if server_data != probe.server_data {
        Err(probe_error(ErrorKind::Interrupted, "ServerData changed while reading flask inventory"@))
    } else {
        Ok(())
    }
}

/// Checks that the chain still leads to the same player and server data.
pub fn check_inventory_identity(probe: &FlaskInventoryProbe, player: usize, server_data: usize) -> (r: Result<(), ProbeError>)
    ensures
        result_view(r) == inventory_identity_result(*probe, player, server_data),
{
    if player != probe.local_player {
        return Err(error(ErrorKind::Interrupted, "local player changed while reading flask inventory"));
    }
    if server_data != probe.server_data {
        return Err(error(ErrorKind::Interrupted, "ServerData changed while reading flask inventory"));
    }
    Ok(())
}

/// The item list still has the shape it had when the inventory was resolved: `cells` elements,
/// and, when `need_slots`, at least the two flask slots.
pub open spec fn list_shape_result(expected: usize, cells: usize, need_slots: bool) -> Result<(), ProbeErrorModel> {
    if cells != expected || (need_slots && cells < POE2_FLASK_SLOT_COUNT) {
        Err(probe_error(ErrorKind::Interrupted, "flask inventory shape changed"@))
    } else {
        Ok(())
    }
}

/// Checks that the item list kept its shape.
pub fn check_list_shape(expected: usize, cells: usize, need_slots: bool) -> (r: Result<(), ProbeError>)
    ensures
        result_view(r) == list_shape_result(expected, cells, need_slots),
{
    if cells != expected || (need_slots && cells < POE2_FLASK_SLOT_COUNT) {
        return Err(error(ErrorKind::Interrupted, "flask inventory shape changed"));
    }
    Ok(())
}

/// The cache entry of `slot` for `item`, when it is for that item.
pub open spec fn cached_for(entries: Seq<Option<CachedChargeComponent>>, slot: usize, item: usize) -> Option<CachedChargeComponent> {
    match entries[slot as int] {
        Some(c) => if c.inventory_item == item {
            Some(c)
        } else {
            None
        },
        None => None,
    }
}

/// Checks that the player info still points at the resolved local player.
pub fn check_player_info(current_player: usize, local_player: usize) -> (r: Result<(), ProbeError>)
    ensures
        match r {
            Ok(()) => current_player == local_player,
            Err(e) => current_player != local_player && e@ == probe_error(
                ErrorKind::Interrupted,
                "PlayerInfo.LocalPlayerPtr no longer matches the resolved local player"@,
            ),
        },
{
    if current_player != local_player {
        return Err(
            error(
                ErrorKind::Interrupted,
                "PlayerInfo.LocalPlayerPtr no longer matches the resolved local player",
            ),
        );
    }
    Ok(())
}

/// Checks that the server data lists at least one player data pointer.
pub fn check_player_data_count(count: usize) -> (r: Result<(), ProbeError>)
    ensures
        match r {
            Ok(()) => count != 0,
            Err(e) => count == 0 && e@ == probe_error(
                ErrorKind::InvalidData,
                "ServerData.PlayerServerDataPtr is empty"@,
            ),
        },
{
    if count == 0 {
        return Err(error(ErrorKind::InvalidData, "ServerData.PlayerServerDataPtr is empty"));
    }
    Ok(())
}

/// Whether an inventory descriptor's id is the flask inventory's.
pub fn is_flask_inventory(inventory_id: i32) -> (b: bool)
    ensures
        b == (inventory_id == FLASK_INVENTORY_ID),
{
    inventory_id == FLASK_INVENTORY_ID
}

/// The error when no inventory descriptor is the flask inventory.
pub fn flask_inventory_missing() -> (e: ProbeError)
    ensures
        e@ == probe_error(
            ErrorKind::NotFound,
            "PoE2 flask inventory (id 12) was not found in ServerData"@,
        ),
{
    error(ErrorKind::NotFound, "PoE2 flask inventory (id 12) was not found in ServerData")
}

/// Offset of the player data vector in the server data.
pub const SERVER_DATA_PLAYER_DATA_VECTOR: usize = 0x48;

/// Offset of the inventory descriptor vector in the player data.
pub const PLAYER_DATA_INVENTORIES_VECTOR: usize = 0x320;

/// Size of one inventory descriptor.
pub const INVENTORY_DESCRIPTOR_STRIDE: usize = 0x18;

/// Offset of an inventory's width; its height follows.
pub const INVENTORY_TOTAL_BOXES: usize = 0x150;

/// Offset of an inventory's item list vector.
pub const INVENTORY_ITEM_LIST: usize = 0x170;

/// Most player data pointers a server data may list.
pub const MAX_PLAYER_DATA_POINTERS: usize = 16;

/// Most inventories a player data may list.
pub const MAX_INVENTORIES: usize = 256;

/// A flask inventory the helper can use: positive dimensions whose cells the item list holds,
/// at least the two flask slots and at most `MAX_INVENTORY_CELLS`.
pub open spec fn usable_probe(p: FlaskInventoryProbe) -> bool {
    &&& p.width > 0
    &&& p.height > 0
    &&& p.item_cells == p.width * p.height
    &&& 2 <= p.item_cells <= MAX_INVENTORY_CELLS
}

/// The value the flask inventory resolution reads next.
#[derive(Debug, Clone, Copy, PartialEq, Eq, Structural)]
pub enum InventoryStage {
    PlayerPointer,
    ServerData,
    PlayerDataFirst,
    PlayerDataLast,
    PlayerData,
    InventoriesFirst,
    InventoriesLast,
    /// The id of the inventory descriptor with this index.
    InventoryId(usize),
    /// The inventory pointer of the flask inventory's descriptor, which has this index.
    FlaskPointer(usize),
    Width,
    Height,
    ItemsFirst,
    ItemsLast,
    Finished,
}

/// What the flask inventory resolution does next.
#[derive(Debug)]
pub enum InventoryStep {
    /// Read the pointer-sized value at this address and report it with `word_read`.
    ReadWord(usize),
    /// Read the 32-bit value at this address and report it with `int_read`.
    ReadInt(usize),
    /// Finished: the flask inventory, or why it cannot be used.
    Done(Result<FlaskInventoryProbe, ProbeError>),
}

pub enum InventoryStepModel {
    ReadWord(usize),
    ReadInt(usize),
    Done(Result<FlaskInventoryProbe, ProbeErrorModel>),
}

impl View for InventoryStep {
    type V = InventoryStepModel;

    open spec fn view(&self) -> InventoryStepModel {
        match self {
            InventoryStep::ReadWord(a) => InventoryStepModel::ReadWord(*a),
            InventoryStep::ReadInt(a) => InventoryStepModel::ReadInt(*a),
            InventoryStep::Done(r) => InventoryStepModel::Done(result_view(*r)),
        }
    }
}

/// The resolution of the player's flask inventory, one read at a time: the player info next to
/// the local player pointer, its server data, the first player data, the inventory descriptor
/// whose id is the flask inventory's, and that inventory's size and item list.
#[derive(Debug, Clone, Copy, PartialEq, Eq, Structural)]
pub struct InventoryResolve {
    pub area_instance: usize,
    pub local_player: usize,
    pub player_info_offset: usize,
    pub stage: InventoryStage,
    pub server_data: usize,
    pub player_data: usize,
    /// Start of the vector being read.
    pub first: usize,
    /// Number of inventory descriptors.
    pub count: usize,
    pub flask_inventory: usize,
    pub width: i32,
    pub height: i32,
    pub expected_cells: usize,
}

impl InventoryResolve {
    /// Where the player info is.
    pub open spec fn player_info(self) -> usize {
        wrap_add(self.area_instance, self.player_info_offset)
    }

    /// Where the inventory descriptor with index `i` is.
    pub open spec fn entry(self, i: usize) -> usize {
        wrap_add(self.first, (i * INVENTORY_DESCRIPTOR_STRIDE) as usize)
    }

    /// The resolution's invariant: descriptor indexes stay within the descriptors read.
    pub open spec fn wf(self) -> bool {
        &&& self.count <= MAX_INVENTORIES
        &&& (self.stage matches InventoryStage::InventoryId(i) ==> i < self.count)
        &&& (self.stage matches InventoryStage::FlaskPointer(i) ==> i < self.count)
        &&& (self.stage is ItemsFirst || self.stage is ItemsLast) ==> self.width > 0 && self.height
            > 0 && self.expected_cells == self.width * self.height && self.expected_cells
            <= MAX_INVENTORY_CELLS
    }

    /// Whether the next value to read is a 32-bit one.
    pub open spec fn expects_int(self) -> bool {
        self.stage is InventoryId || self.stage is Width || self.stage is Height
    }

    /// Whether the next value to read is pointer-sized.
    pub open spec fn expects_word(self) -> bool {
        !self.expects_int() && !(self.stage is Finished)
    }

    pub open spec fn finished(self) -> InventoryResolve {
        InventoryResolve { stage: InventoryStage::Finished, ..self }
    }

    /// The resolved inventory, once its item list checked out with `cells` cells.
    pub open spec fn probe_with(self, cells: usize) -> FlaskInventoryProbe {
        FlaskInventoryProbe {
            area_instance: self.area_instance,
            local_player: self.local_player,
            player_info_offset: self.player_info_offset,
            server_data: self.server_data,
            player_data: self.player_data,
            flask_inventory: self.flask_inventory,
            width: self.width,
            height: self.height,
            item_cells: cells,
        }
    }
}

/// The resolution after a pointer-sized read gave `v`.
pub open spec fn inventory_word_step(m: InventoryResolve, v: usize) -> (InventoryResolve, InventoryStepModel) {
    let fail = |e: ProbeErrorModel| (m.finished(), InventoryStepModel::Done(Err(e)));
    match m.stage {
        InventoryStage::PlayerPointer => match pointer_result(
            wrap_add(m.player_info(), PLAYER_INFO_LOCAL_PLAYER),
            v,
        ) {
            Err(e) => fail(e),
            Ok(p) => if p != m.local_player {
                fail(
                    probe_error(
                        ErrorKind::Interrupted,
                        "PlayerInfo.LocalPlayerPtr no longer matches the resolved local player"@,
                    ),
                )
            } else {
                (
                    InventoryResolve { stage: InventoryStage::ServerData, ..m },
                    InventoryStepModel::ReadWord(m.player_info()),
                )
            },
        },
        InventoryStage::ServerData => match pointer_result(m.player_info(), v) {
            Err(e) => fail(e),
            Ok(sd) => (
                InventoryResolve { stage: InventoryStage::PlayerDataFirst, server_data: sd, ..m },
                InventoryStepModel::ReadWord(wrap_add(sd, SERVER_DATA_PLAYER_DATA_VECTOR)),
            ),
        },
        InventoryStage::PlayerDataFirst => (
            InventoryResolve { stage: InventoryStage::PlayerDataLast, first: v, ..m },
            InventoryStepModel::ReadWord(wrap_add(m.server_data, (SERVER_DATA_PLAYER_DATA_VECTOR + 8) as usize)),
        ),
        InventoryStage::PlayerDataLast => match vector_range_result(
            m.first,
            v,
            8,
            MAX_PLAYER_DATA_POINTERS,
            "ServerData.PlayerServerDataPtr"@,
        ) {
            Err(e) => fail(e),
            Ok(c) => if c == 0 {
                fail(probe_error(ErrorKind::InvalidData, "ServerData.PlayerServerDataPtr is empty"@))
            } else {
                (
                    InventoryResolve { stage: InventoryStage::PlayerData, ..m },
                    InventoryStepModel::ReadWord(m.first),
                )
            },
        },
        InventoryStage::PlayerData => match pointer_result(m.first, v) {
            Err(e) => fail(e),
            Ok(pd) => (
                InventoryResolve { stage: InventoryStage::InventoriesFirst, player_data: pd, ..m },
                InventoryStepModel::ReadWord(wrap_add(pd, PLAYER_DATA_INVENTORIES_VECTOR)),
            ),
        },
        InventoryStage::InventoriesFirst => (
            InventoryResolve { stage: InventoryStage::InventoriesLast, first: v, ..m },
            InventoryStepModel::ReadWord(wrap_add(m.player_data, (PLAYER_DATA_INVENTORIES_VECTOR + 8) as usize)),
        ),
        InventoryStage::InventoriesLast => match vector_range_result(
            m.first,
            v,
            INVENTORY_DESCRIPTOR_STRIDE,
            MAX_INVENTORIES,
            "playerData.PlayerInventories"@,
        ) {
            Err(e) => fail(e),
            Ok(c) => if c == 0 {
                fail(
                    probe_error(
                        ErrorKind::NotFound,
                        "PoE2 flask inventory (id 12) was not found in ServerData"@,
                    ),
                )
            } else {
                (
                    InventoryResolve { stage: InventoryStage::InventoryId(0), count: c, ..m },
                    InventoryStepModel::ReadInt(m.first),
                )
            },
        },
        InventoryStage::FlaskPointer(i) => match pointer_result(wrap_add(m.entry(i), 8), v) {
            Err(e) => fail(e),
            Ok(fi) => (
                InventoryResolve { stage: InventoryStage::Width, flask_inventory: fi, ..m },
                InventoryStepModel::ReadInt(wrap_add(fi, INVENTORY_TOTAL_BOXES)),
            ),
        },
        InventoryStage::ItemsFirst => (
            InventoryResolve { stage: InventoryStage::ItemsLast, first: v, ..m },
            InventoryStepModel::ReadWord(wrap_add(m.flask_inventory, (INVENTORY_ITEM_LIST + 8) as usize)),
        ),
        InventoryStage::ItemsLast => match vector_range_result(
            m.first,
            v,
            8,
            MAX_INVENTORY_CELLS,
            "FlaskInventory.ItemList"@,
        ) {
            Err(e) => fail(e),
            Ok(cells) => match item_cells_result(m.expected_cells, cells) {
                Err(e) => fail(e),
                Ok(c) => (m.finished(), InventoryStepModel::Done(Ok(m.probe_with(c)))),
            },
        },
        _ => (m, InventoryStepModel::ReadWord(0)),
    }
}

/// The resolution after a 32-bit read gave `v`.
pub open spec fn inventory_int_step(m: InventoryResolve, v: i32) -> (InventoryResolve, InventoryStepModel) {
    match m.stage {
        InventoryStage::InventoryId(i) => if v == FLASK_INVENTORY_ID {
            (
                InventoryResolve { stage: InventoryStage::FlaskPointer(i), ..m },
                InventoryStepModel::ReadWord(wrap_add(m.entry(i), 8)),
            )
        } else if i + 1 < m.count {
            (
                InventoryResolve { stage: InventoryStage::InventoryId((i + 1) as usize), ..m },
                InventoryStepModel::ReadInt(m.entry((i + 1) as usize)),
            )
        } else {
            (
                m.finished(),
                InventoryStepModel::Done(
                    Err(
                        probe_error(
                            ErrorKind::NotFound,
                            "PoE2 flask inventory (id 12) was not found in ServerData"@,
                        ),
                    ),
                ),
            )
        },
        InventoryStage::Width => (
            InventoryResolve { stage: InventoryStage::Height, width: v, ..m },
            InventoryStepModel::ReadInt(wrap_add(m.flask_inventory, (INVENTORY_TOTAL_BOXES + 4) as usize)),
        ),
        InventoryStage::Height => match inventory_cells_result(m.width, v) {
            Err(e) => (m.finished(), InventoryStepModel::Done(Err(e))),
            Ok(cells) => (
                InventoryResolve {
                    stage: InventoryStage::ItemsFirst,
                    height: v,
                    expected_cells: cells,
                    ..m
                },
                InventoryStepModel::ReadWord(wrap_add(m.flask_inventory, INVENTORY_ITEM_LIST)),
            ),
        },
        _ => (m, InventoryStepModel::ReadInt(0)),
    }
}

/// Each step's read matches what the resolution expects next.
pub open spec fn step_fits(m: InventoryResolve, step: InventoryStepModel) -> bool {
    match step {
        InventoryStepModel::ReadWord(_) => m.expects_word(),
        InventoryStepModel::ReadInt(_) => m.expects_int(),
        InventoryStepModel::Done(_) => m.stage is Finished,
    }
}

impl InventoryResolve {
    /// Starts resolving the flask inventory of the local player found at `local_player_offset`
    /// in the area instance: the player info sits just before that pointer.
    pub fn start(area_instance: usize, local_player: usize, local_player_offset: usize) -> (r: (
        InventoryResolve,
        InventoryStep,
    ))
        ensures
            r.0.wf(),
            step_fits(r.0, r.1@),
            match player_info_offset_result(local_player_offset) {
                Err(e) => r.1@ == InventoryStepModel::Done(Err(e)),
                Ok(off) => r.0.area_instance == area_instance && r.0.local_player == local_player
                    && r.0.player_info_offset == off && r.0.stage == InventoryStage::PlayerPointer
                    && r.1@ == InventoryStepModel::ReadWord(
                    wrap_add(wrap_add(area_instance, off), PLAYER_INFO_LOCAL_PLAYER),
                ),
            },
    {
        let mut m = InventoryResolve {
            area_instance,
            local_player,
            player_info_offset: 0,
            stage: InventoryStage::Finished,
            server_data: 0,
            player_data: 0,
            first: 0,
            count: 0,
            flask_inventory: 0,
            width: 0,
            height: 0,
            expected_cells: 0,
        };
        match player_info_offset(local_player_offset) {
            Err(e) => (m, InventoryStep::Done(Err(e))),
            Ok(off) => {
                m.player_info_offset = off;
                m.stage = InventoryStage::PlayerPointer;
                let info = address(area_instance, off);
                (m, InventoryStep::ReadWord(address(info, PLAYER_INFO_LOCAL_PLAYER)))
            },
        }
    }

    fn fail(&mut self, e: ProbeError) -> (s: InventoryStep)
        ensures
            *final(self) == old(self).finished(),
            s@ == InventoryStepModel::Done(Err(e@)),
    {
        self.stage = InventoryStage::Finished;
        InventoryStep::Done(Err(e))
    }

    /// A pointer-sized read asked for gave `v`.
    pub fn word_read(&mut self, v: usize) -> (s: InventoryStep)
        requires
            old(self).wf(),
            old(self).expects_word(),
        ensures
            (*final(self), s@) == inventory_word_step(*old(self), v),
            final(self).wf(),
            step_fits(*final(self), s@),
            final(self).area_instance == old(self).area_instance,
            final(self).local_player == old(self).local_player,
            final(self).player_info_offset == old(self).player_info_offset,
            s@ matches InventoryStepModel::Done(Ok(p)) ==> usable_probe(p) && p.area_instance
                == final(self).area_instance && p.local_player == final(self).local_player
                && p.player_info_offset == final(self).player_info_offset,
    {
        let info = address(self.area_instance, self.player_info_offset);
        match self.stage {
            InventoryStage::PlayerPointer => {
                match check_pointer(address(info, PLAYER_INFO_LOCAL_PLAYER), v) {
                    Err(e) => self.fail(e),
                    Ok(p) => match check_player_info(p, self.local_player) {
                        Err(e) => self.fail(e),
                        Ok(()) => {
                            self.stage = InventoryStage::ServerData;
                            InventoryStep::ReadWord(info)
                        },
                    },
                }
            },
            InventoryStage::ServerData => match check_pointer(info, v) {
                Err(e) => self.fail(e),
                Ok(sd) => {
                    self.stage = InventoryStage::PlayerDataFirst;
                    self.server_data = sd;
                    InventoryStep::ReadWord(address(sd, SERVER_DATA_PLAYER_DATA_VECTOR))
                },
            },
            InventoryStage::PlayerDataFirst => {
                self.stage = InventoryStage::PlayerDataLast;
                self.first = v;
                InventoryStep::ReadWord(address(self.server_data, SERVER_DATA_PLAYER_DATA_VECTOR + 8))
            },
            InventoryStage::PlayerDataLast => match validate_vector_range(
                self.first,
                v,
                8,
                MAX_PLAYER_DATA_POINTERS,
                "ServerData.PlayerServerDataPtr",
            ) {
                Err(e) => self.fail(e),
                Ok(c) => match check_player_data_count(c) {
                    Err(e) => self.fail(e),
                    Ok(()) => {
                        self.stage = InventoryStage::PlayerData;
                        InventoryStep::ReadWord(self.first)
                    },
                },
            },
            InventoryStage::PlayerData => match check_pointer(self.first, v) {
                Err(e) => self.fail(e),
                Ok(pd) => {
                    self.stage = InventoryStage::InventoriesFirst;
                    self.player_data = pd;
                    InventoryStep::ReadWord(address(pd, PLAYER_DATA_INVENTORIES_VECTOR))
                },
            },
            InventoryStage::InventoriesFirst => {
                self.stage = InventoryStage::InventoriesLast;
                self.first = v;
                InventoryStep::ReadWord(address(self.player_data, PLAYER_DATA_INVENTORIES_VECTOR + 8))
            },
            InventoryStage::InventoriesLast => match validate_vector_range(
                self.first,
                v,
                INVENTORY_DESCRIPTOR_STRIDE,
                MAX_INVENTORIES,
                "playerData.PlayerInventories",
            ) {
                Err(e) => self.fail(e),
                Ok(c) => {
                    if c == 0 {
                        self.fail(flask_inventory_missing())
                    } else {
                        self.stage = InventoryStage::InventoryId(0);
                        self.count = c;
                        InventoryStep::ReadInt(self.first)
                    }
                },
            },
            InventoryStage::FlaskPointer(i) => {
                let entry = address(self.first, i * INVENTORY_DESCRIPTOR_STRIDE);
                match check_pointer(address(entry, 8), v) {
                    Err(e) => self.fail(e),
                    Ok(fi) => {
                        self.stage = InventoryStage::Width;
                        self.flask_inventory = fi;
                        InventoryStep::ReadInt(address(fi, INVENTORY_TOTAL_BOXES))
                    },
                }
            },
            InventoryStage::ItemsFirst => {
                self.stage = InventoryStage::ItemsLast;
                self.first = v;
                InventoryStep::ReadWord(address(self.flask_inventory, INVENTORY_ITEM_LIST + 8))
            },
            InventoryStage::ItemsLast => match validate_vector_range(
                self.first,
                v,
                8,
                MAX_INVENTORY_CELLS,
                "FlaskInventory.ItemList",
            ) {
                Err(e) => self.fail(e),
                Ok(cells) => match check_item_cells(self.expected_cells, cells) {
                    Err(e) => self.fail(e),
                    Ok(c) => {
                        self.stage = InventoryStage::Finished;
                        InventoryStep::Done(
                            Ok(
                                FlaskInventoryProbe {
                                    area_instance: self.area_instance,
                                    local_player: self.local_player,
                                    player_info_offset: self.player_info_offset,
                                    server_data: self.server_data,
                                    player_data: self.player_data,
                                    flask_inventory: self.flask_inventory,
                                    width: self.width,
                                    height: self.height,
                                    item_cells: c,
                                },
                            ),
                        )
                    },
                },
            },
            _ => InventoryStep::ReadWord(0),
        }
    }

    /// A 32-bit read asked for gave `v`.
    pub fn int_read(&mut self, v: i32) -> (s: InventoryStep)
        requires
            old(self).wf(),
            old(self).expects_int(),
        ensures
            (*final(self), s@) == inventory_int_step(*old(self), v),
            final(self).wf(),
            step_fits(*final(self), s@),
            final(self).area_instance == old(self).area_instance,
            final(self).local_player == old(self).local_player,
            final(self).player_info_offset == old(self).player_info_offset,
            !(s@ matches InventoryStepModel::Done(Ok(_))),
    {
        match self.stage {
            InventoryStage::InventoryId(i) => {
                if is_flask_inventory(v) {
                    self.stage = InventoryStage::FlaskPointer(i);
                    let entry = address(self.first, i * INVENTORY_DESCRIPTOR_STRIDE);
                    InventoryStep::ReadWord(address(entry, 8))
                } else if i + 1 < self.count {
                    self.stage = InventoryStage::InventoryId(i + 1);
                    InventoryStep::ReadInt(address(self.first, (i + 1) * INVENTORY_DESCRIPTOR_STRIDE))
                } else {
                    self.fail(flask_inventory_missing())
                }
            },
            InventoryStage::Width => {
                self.stage = InventoryStage::Height;
                self.width = v;
                InventoryStep::ReadInt(address(self.flask_inventory, INVENTORY_TOTAL_BOXES + 4))
            },
            InventoryStage::Height => match check_inventory_dimensions(self.width, v) {
                Err(e) => self.fail(e),
                Ok(cells) => {
                    self.stage = InventoryStage::ItemsFirst;
                    self.height = v;
                    self.expected_cells = cells;
                    InventoryStep::ReadWord(address(self.flask_inventory, INVENTORY_ITEM_LIST))
                },
            },
            _ => InventoryStep::ReadInt(0),
        }
    }
}

} // verus!
