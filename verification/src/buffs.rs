//! Active flask effects: the player's status-effect list, the scan for the flask slots it
//! locks, and the remembered classification of buff definitions.

use vstd::prelude::*;
use std::collections::HashMap;

use crate::area::{
    find_zero_unit, first_zero_unit, is_valid_text, plausible_address, plausible_ptr, unit_prefix,
    units_of, utf16_units,
};
use crate::entity::{address, wrap_add};
use crate::error::{error, probe_error, result_view, ErrorKind, ProbeError, ProbeErrorModel};
use crate::le::{field, le_nat, le_signed, read_i16_from, read_u32_from, read_u64_from};
use crate::text::{decimal, push_decimal, str_eq, string_from, utf16_lossy, utf16_lossy_text};

verus! {

broadcast use vstd::std_specs::hash::group_hash_axioms;

/// Offset of the entity id in an entity.
pub const ENTITY_ID: usize = 0x88;

/// Offset of the status-effect vector in the Buffs component.
pub const BUFFS_STATUS_EFFECT_VECTOR: usize = 0x160;

/// Largest plausible number of status effects.
pub const MAX_STATUS_EFFECTS: usize = 512;

/// Offset of the definition pointer in a status effect.
pub const STATUS_BUFF_DEFINITION_PTR: usize = 0x08;

/// Offset of the total duration in a status effect.
pub const STATUS_TOTAL_TIME: usize = 0x18;

/// Offset of the remaining duration in a status effect.
pub const STATUS_TIME_LEFT: usize = 0x1C;

/// Offset of the source entity id in a status effect.
pub const STATUS_SOURCE_ENTITY_ID: usize = 0x28;

/// Offset of the flask slot in a status effect.
pub const STATUS_FLASK_SLOT: usize = 0x42;

/// Offset of the buff type in a buff definition.
pub const BUFF_DEFINITION_TYPE: usize = 0x67;

/// Longest buff name read, in UTF-16 units.
pub const MAX_BUFF_NAME_CHARS: usize = 128;

/// Start of the block read from each status effect.
pub const FAST_STATUS_START: usize = 0x08;

/// Length of the block read from each status effect.
pub const FAST_STATUS_LEN: usize = 0x3C;

/// The resolved chain to the local player's status effects.
#[derive(Debug, Clone, Copy, PartialEq, Eq, Structural)]
pub struct FlaskProbe {
    pub local_player: usize,
    pub player_id: u32,
    pub buffs_component: usize,
}

/// Which flask slots have an active effect.
#[derive(Debug, Clone, Copy, PartialEq, Eq)]
pub struct FlaskLocks {
    pub slots: [bool; 2],
}

impl FlaskLocks {
    /// No slot locked.
    pub fn none() -> (l: Self)
        ensures
            l.slots@ == seq![false, false],
    {
        let l = FlaskLocks { slots: [false, false] };
        assert(l.slots@ =~= seq![false, false]);
        l
    }

    /// Marks `slot` locked.
    pub fn lock(&mut self, slot: usize)
        requires
            slot < 2,
        ensures
            final(self).slots@ == old(self).slots@.update(slot as int, true),
    {
        self.slots[slot] = true;
    }

    /// Whether both slots are locked.
    pub fn all_locked(&self) -> (b: bool)
        ensures
            b == (self.slots@[0] && self.slots@[1]),
    {
        self.slots[0] && self.slots[1]
    }
}

/// Why a buff definition was classified as it was: its first `BUFF_DEFINITION_TYPE + 1` bytes,
/// or the name read through the name pointer in them.
pub enum LockEvidence {
    Definition(Seq<u8>),
    Name(Seq<char>),
}

/// Whether the evidence makes the definition a flask effect: type 4, or a flask effect's name.
pub open spec fn evidence_locks(e: LockEvidence) -> bool {
    match e {
        LockEvidence::Definition(b) => definition_class_of(b) is Lock,
        LockEvidence::Name(n) => is_flask_lock_name_text(n),
    }
}

/// The chain to the player's status effects, with the classification of each buff definition
/// seen so far.
pub struct FlaskLockProbe {
    pub local_player: usize,
    pub player_id: u32,
    pub buffs_component: usize,
    definition_cache: HashMap<usize, bool>,
    evidence: Ghost<Map<usize, LockEvidence>>,
}

impl FlaskLockProbe {
    /// The classifications remembered, by definition address.
    pub closed spec fn classified(&self) -> Map<usize, bool> {
        self.definition_cache@
    }

    /// What each remembered classification rests on.
    pub closed spec fn evidence(&self) -> Map<usize, LockEvidence> {
        self.evidence@
    }

    /// The probe's invariant: every remembered classification is what its evidence says.
    pub open spec fn sound(&self) -> bool {
        forall|d: usize| #[trigger]
            self.classified().contains_key(d) ==> self.evidence().contains_key(d)
                && self.classified()[d] == evidence_locks(self.evidence()[d])
    }

    /// The local player, its entity id and its Buffs component.
    pub closed spec fn identity(&self) -> (usize, u32, usize) {
        (self.local_player, self.player_id, self.buffs_component)
    }

    /// A probe that has classified nothing yet.
    pub fn new(local_player: usize, player_id: u32, buffs_component: usize) -> (p: Self)
        ensures
            p.identity() == (local_player, player_id, buffs_component),
            p.classified() == Map::<usize, bool>::empty(),
            p.sound(),
    {
        FlaskLockProbe {
            local_player,
            player_id,
            buffs_component,
            definition_cache: HashMap::new(),
            evidence: Ghost(Map::empty()),
        }
    }

    /// The remembered classification of a definition.
    pub fn cached_lock(&self, definition: usize) -> (r: Option<bool>)
        ensures
            r == (if self.classified().contains_key(definition) {
                Some(self.classified()[definition])
            } else {
                None
            }),
    {
        match self.definition_cache.get(&definition) {
            Some(v) => Some(*v),
            None => None,
        }
    }

    /// Remembers a definition's classification, which `evidence` makes.
    fn remember_lock(&mut self, definition: usize, is_lock: bool, evidence: Ghost<LockEvidence>)
        requires
            old(self).sound(),
            is_lock == evidence_locks(evidence@),
        ensures
            final(self).classified() == old(self).classified().insert(definition, is_lock),
            final(self).evidence() == old(self).evidence().insert(definition, evidence@),
            final(self).identity() == old(self).identity(),
            final(self).sound(),
    {
        self.definition_cache.insert(definition, is_lock);
        proof {
            self.evidence@ = self.evidence@.insert(definition, evidence@);
            assert forall|d: usize| #[trigger]
                self.classified().contains_key(d) implies self.evidence().contains_key(d)
                && self.classified()[d] == evidence_locks(self.evidence()[d]) by {
                if d != definition {
                    assert(old(self).classified().contains_key(d));
                }
            }
        }
    }
}

/// The check of the player's entity id when the chain is resolved.
pub open spec fn player_id_result(id: u32) -> Result<u32, ProbeErrorModel> {
    if id == 0 || id == u32::MAX {
        Err(probe_error(ErrorKind::InvalidData, "implausible player entity id: "@ + decimal(id as nat)))
    } else {
        Ok(id)
    }
}

/// Checks the player's entity id.
pub fn check_player_id(id: u32) -> (r: Result<u32, ProbeError>)
    ensures
        result_view(r) == player_id_result(id),
{
    if id == 0 || id == u32::MAX {
        let mut m = string_from("implausible player entity id: ");
        push_decimal(&mut m, id as u64);
        return Err(ProbeError { kind: ErrorKind::InvalidData, message: m });
    }
    Ok(id)
}

/// The error when the player has no Buffs component.
pub fn missing_buffs_component() -> (e: ProbeError)
    ensures
        e@ == probe_error(ErrorKind::NotFound, "named Buffs component could not be resolved on the local player"@),
{
    error(ErrorKind::NotFound, "named Buffs component could not be resolved on the local player")
}

/// The check that the player is still the one resolved.
pub fn check_player_unchanged(current: u32, expected: u32) -> (r: Result<(), ProbeError>)
    ensures
        match r {
            Ok(()) => current == expected,
            Err(e) => current != expected && e@ == probe_error(ErrorKind::Interrupted, "local player entity id changed"@),
        },
{
    if current != expected {
        return Err(error(ErrorKind::Interrupted, "local player entity id changed"));
    }
    Ok(())
}

/// The status-effect vector's start and length from its header.
pub open spec fn status_vector_result(first: usize, last: usize) -> Result<(usize, usize), ProbeErrorModel> {
    if first == 0 && last == 0 {
        Ok((0, 0))
    } else if !plausible_address(first as int) || last < first {
        Err(probe_error(ErrorKind::InvalidData, "Buffs status-effect vector has an invalid range"@))
    } else if (last - first) % 8 != 0 {
        Err(probe_error(ErrorKind::InvalidData, "Buffs status-effect vector is not pointer-aligned"@))
    } else if (last - first) / 8 > MAX_STATUS_EFFECTS {
        Err(probe_error(ErrorKind::InvalidData, "implausible status-effect count: "@ + decimal(((last - first) / 8) as nat)))
    } else {
        Ok((first, ((last - first) / 8) as usize))
    }
}

/// Checks the status-effect vector's header.
pub fn check_status_vector(first: usize, last: usize) -> (r: Result<(usize, usize), ProbeError>)
    ensures
        result_view(r) == status_vector_result(first, last),
{
    if first == 0 && last == 0 {
        return Ok((0, 0));
    }
    if !plausible_ptr(first) || last < first {
        return Err(error(ErrorKind::InvalidData, "Buffs status-effect vector has an invalid range"));
    }
    let bytes = last - first;
    if bytes % 8 != 0 {
        return Err(error(ErrorKind::InvalidData, "Buffs status-effect vector is not pointer-aligned"));
    }
    let count = bytes / 8;
    if count > MAX_STATUS_EFFECTS {
        let mut m = string_from("implausible status-effect count: ");
        push_decimal(&mut m, count as u64);
        return Err(ProbeError { kind: ErrorKind::InvalidData, message: m });
    }
    Ok((first, count))
}

/// The check of one pointer in the status-effect vector.
pub fn check_effect_pointer(pointer: usize) -> (r: Result<usize, ProbeError>)
    ensures
        match r {
            Ok(p) => p == pointer && plausible_address(pointer as int),
            Err(e) => !plausible_address(pointer as int) && e@ == probe_error(ErrorKind::InvalidData, "Buffs status-effect vector contains an invalid pointer"@),
        },
{
    if !plausible_ptr(pointer) {
        return Err(error(ErrorKind::InvalidData, "Buffs status-effect vector contains an invalid pointer"));
    }
    Ok(pointer)
}

/// The flask slot a status effect may lock: it must come from the player, name slot 0 or 1,
/// and have a definition. (Its durations are checked by the caller.)
pub open spec fn effect_slot_of(source: u32, player_id: u32, slot: i16, definition: usize) -> Option<usize> {
    if source == player_id && 0 <= slot < 2 && plausible_address(definition as int) {
        Some(slot as usize)
    } else {
        None
    }
}

/// Decides `effect_slot_of`.
pub fn effect_slot(source: u32, player_id: u32, slot: i16, definition: usize) -> (r: Option<usize>)
    ensures
        r == effect_slot_of(source, player_id, slot, definition),
{
    if source == player_id && 0 <= slot && slot < 2 && plausible_ptr(definition) {
        Some(slot as usize)
    } else {
        None
    }
}

/// What a buff definition's first bytes say: a timed flask effect, not a flask effect, or a
/// name to look at.
#[derive(Debug, Clone, Copy, PartialEq, Eq, Structural)]
pub enum DefinitionClass {
    Lock,
    NotLock,
    NeedsName(usize),
}

/// The class of a definition from its first `BUFF_DEFINITION_TYPE + 1` bytes: type 4 is a timed
/// flask effect; otherwise its name decides, when it has one.
pub open spec fn definition_class_of(bytes: Seq<u8>) -> DefinitionClass {
    if bytes[BUFF_DEFINITION_TYPE as int] == 4 {
        DefinitionClass::Lock
    } else {
        let name_ptr = le_nat(field(bytes, 0, 8)) as usize;
        if !plausible_address(name_ptr as int) {
            DefinitionClass::NotLock
        } else {
            DefinitionClass::NeedsName(name_ptr)
        }
    }
}

/// Classifies a definition from its first bytes.
pub fn classify_definition(bytes: &[u8]) -> (c: DefinitionClass)
    requires
        bytes@.len() == BUFF_DEFINITION_TYPE + 1,
    ensures
        c == definition_class_of(bytes@),
{
    if bytes[BUFF_DEFINITION_TYPE] == 4 {
        return DefinitionClass::Lock;
    }
    let name_ptr = read_u64_from(bytes, 0) as usize;
    if !plausible_ptr(name_ptr) {
        return DefinitionClass::NotLock;
    }
    DefinitionClass::NeedsName(name_ptr)
}

/// Buff names of flask effects.
pub open spec fn is_flask_lock_name_text(name: Seq<char>) -> bool {
    name == "flask_effect_life"@ || name == "flask_effect_life_not_removed_when_full"@ || name
        == "flask_effect_mana"@ || name == "flask_effect_mana_not_removed_when_full"@ || name
        == "flask_instant_mana_recovery_at_end_of_effect"@ || name == "visual_display_buff"@
}

/// Whether a buff name is a flask effect's.
pub fn is_flask_lock_name(name: &str) -> (b: bool)
    ensures
        b == is_flask_lock_name_text(name@),
{
    str_eq(name, "flask_effect_life") || str_eq(name, "flask_effect_life_not_removed_when_full")
        || str_eq(name, "flask_effect_mana") || str_eq(name, "flask_effect_mana_not_removed_when_full")
        || str_eq(name, "flask_instant_mana_recovery_at_end_of_effect") || str_eq(
        name,
        "visual_display_buff",
    )
}

/// A zero-terminated UTF-16 buff name, decoded leniently; it must end within the buffer.
pub open spec fn buff_name_text(bytes: Seq<u8>) -> Result<Seq<char>, ProbeErrorModel> {
    let u = units_of(bytes);
    let end = first_zero_unit(u, 0);
    if end >= u.len() {
        Err(probe_error(ErrorKind::InvalidData, "unterminated UTF-16 string"@))
    } else {
        Ok(utf16_lossy_text(u.subrange(0, end)))
    }
}

/// Decodes a buff name.
pub fn read_buff_name(bytes: &[u8]) -> (r: Result<String, ProbeError>)
    ensures
        crate::area::text_result_view(r) == buff_name_text(bytes@),
{
    let units = utf16_units(bytes);
    let end = find_zero_unit(units.as_slice());
    if end >= units.len() {
        return Err(error(ErrorKind::InvalidData, "unterminated UTF-16 string"));
    }
    let prefix = unit_prefix(units.as_slice(), end);
    Ok(utf16_lossy(prefix.as_slice()))
}

/// A definition name worth showing: not empty and without control characters.
pub fn shown_definition_name(name: String) -> (r: Option<String>)
    ensures
        match r {
            Some(n) => n@ == name@ && is_valid_text(name@),
            None => !is_valid_text(name@),
        },
{
    if crate::area::valid_text(name.as_str()) {
        Some(name)
    } else {
        None
    }
}

/// The buff definition pointer in the status bytes read from `FAST_STATUS_START`.
pub open spec fn status_definition(status: Seq<u8>) -> usize {
    le_nat(field(status, (STATUS_BUFF_DEFINITION_PTR - FAST_STATUS_START) as int, 8)) as usize
}

/// The id of the entity that applied the effect.
pub open spec fn status_source(status: Seq<u8>) -> u32 {
    le_nat(field(status, (STATUS_SOURCE_ENTITY_ID - FAST_STATUS_START) as int, 4)) as u32
}

/// The flask slot the effect belongs to.
pub open spec fn status_slot(status: Seq<u8>) -> i16 {
    le_signed(field(status, (STATUS_FLASK_SLOT - FAST_STATUS_START) as int, 2), 16) as i16
}

/// What the lock scan does next.
#[derive(Debug, Clone, Copy, PartialEq, Eq, Structural)]
pub enum LockAction {
    /// Go on with the next status effect.
    Next,
    /// Classify the buff definition at this address: read `BUFF_DEFINITION_TYPE + 1` bytes there
    /// and report them with `definition_read`.
    ReadDefinition(usize),
    /// Read the definition's name at this address and report it with `name_read`.
    ReadName(usize),
    /// Every flask slot is locked; the scan is over.
    AllLocked,
}

/// A scan of the player's status effects for active flask effects. Each buff definition is
/// classified once and remembered in the probe.
#[derive(Debug, Clone, Copy, PartialEq, Eq)]
pub struct LockScan {
    pub locks: FlaskLocks,
    /// The slot of the effect whose definition is being classified.
    pub slot: usize,
    /// The definition being classified.
    pub definition: usize,
}

/// The locks after locking `slot`, and whether the scan goes on.
pub open spec fn lock_slot(locks: Seq<bool>, slot: usize) -> (Seq<bool>, LockAction) {
    let l = locks.update(slot as int, true);
    (
        l,
        if l[0] && l[1] {
            LockAction::AllLocked
        } else {
            LockAction::Next
        },
    )
}

/// The classification remembered for `definition`, if any.
pub open spec fn remembered(classified: Map<usize, bool>, definition: usize) -> Option<bool> {
    if classified.contains_key(definition) {
        Some(classified[definition])
    } else {
        None
    }
}

impl LockScan {
    /// The scan's invariant: a pending slot is a flask slot and the locks are two.
    pub open spec fn wf(&self) -> bool {
        self.slot < 2 && self.locks.slots@.len() == 2
    }

    /// A scan with no slot locked.
    pub fn new() -> (s: Self)
        ensures
            s.wf(),
            s.locks.slots@ == seq![false, false],
    {
        LockScan { locks: FlaskLocks::none(), slot: 0, definition: 0 }
    }

    fn lock(&mut self, slot: usize) -> (a: LockAction)
        requires
            old(self).wf(),
            slot < 2,
        ensures
            final(self).wf(),
            (final(self).locks.slots@, a) == lock_slot(old(self).locks.slots@, slot),
            final(self).slot == old(self).slot,
            final(self).definition == old(self).definition,
    {
        self.locks.lock(slot);
        if self.locks.all_locked() {
            LockAction::AllLocked
        } else {
            LockAction::Next
        }
    }

    /// One status effect: `status` holds its bytes from `FAST_STATUS_START`, and `timing_ok`
    /// says whether its duration and time left are plausible for a flask. Only a timed effect
    /// the player applied to a flask slot, with a plausible definition, counts; a definition
    /// classified before is not read again.
    pub fn effect(&mut self, probe: &FlaskLockProbe, status: &[u8], timing_ok: bool) -> (a: LockAction)
        requires
            old(self).wf(),
            status@.len() == FAST_STATUS_LEN,
        ensures
            final(self).wf(),
            match effect_slot_of(
                status_source(status@),
                probe.identity().1,
                status_slot(status@),
                status_definition(status@),
            ) {
                None => a == LockAction::Next && *final(self) == *old(self),
                Some(slot) => if !timing_ok {
                    a == LockAction::Next && *final(self) == *old(self)
                } else {
                    match remembered(probe.classified(), status_definition(status@)) {
                        Some(true) => (final(self).locks.slots@, a) == lock_slot(
                            old(self).locks.slots@,
                            slot,
                        ),
                        Some(false) => a == LockAction::Next && *final(self) == *old(self),
                        None => a == LockAction::ReadDefinition(status_definition(status@))
                            && *final(self) == (LockScan {
                            slot,
                            definition: status_definition(status@),
                            ..*old(self)
                        }),
                    }
                },
            },
    {
        let definition = read_u64_from(status, STATUS_BUFF_DEFINITION_PTR - FAST_STATUS_START) as usize;
        let source = read_u32_from(status, STATUS_SOURCE_ENTITY_ID - FAST_STATUS_START);
        let raw_slot = read_i16_from(status, STATUS_FLASK_SLOT - FAST_STATUS_START);
        let slot = match effect_slot(source, probe.player_id, raw_slot, definition) {
            None => {
                return LockAction::Next;
            },
            Some(s) => s,
        };
        if !timing_ok {
            return LockAction::Next;
        }
        match probe.cached_lock(definition) {
            Some(true) => self.lock(slot),
            Some(false) => LockAction::Next,
            None => {
                self.slot = slot;
                self.definition = definition;
                LockAction::ReadDefinition(definition)
            },
        }
    }

    fn classified_as(&mut self, probe: &mut FlaskLockProbe, is_lock: bool, evidence: Ghost<LockEvidence>) -> (a: LockAction)
        requires
            old(self).wf(),
            old(probe).sound(),
            is_lock == evidence_locks(evidence@),
        ensures
            final(self).wf(),
            final(probe).sound(),
            final(probe).classified() == old(probe).classified().insert(old(self).definition, is_lock),
            final(probe).evidence() == old(probe).evidence().insert(old(self).definition, evidence@),
            final(probe).identity() == old(probe).identity(),
            is_lock ==> (final(self).locks.slots@, a) == lock_slot(old(self).locks.slots@, old(self).slot),
            !is_lock ==> a == LockAction::Next && *final(self) == *old(self),
    {
        probe.remember_lock(self.definition, is_lock, evidence);
        if is_lock {
            let slot = self.slot;
            self.lock(slot)
        } else {
            LockAction::Next
        }
    }

    /// The definition's first `BUFF_DEFINITION_TYPE + 1` bytes were read. Timed flask effects
    /// (type 4) lock their slot at once; otherwise the definition's name decides, when it has
    /// one.
    pub fn definition_read(&mut self, probe: &mut FlaskLockProbe, bytes: &[u8]) -> (a: LockAction)
        requires
            old(self).wf(),
            old(probe).sound(),
            bytes@.len() == BUFF_DEFINITION_TYPE + 1,
        ensures
            final(self).wf(),
            final(probe).sound(),
            !(definition_class_of(bytes@) is NeedsName) ==> final(probe).evidence() == old(
                probe,
            ).evidence().insert(old(self).definition, LockEvidence::Definition(bytes@)),
            final(probe).identity() == old(probe).identity(),
            match definition_class_of(bytes@) {
                DefinitionClass::Lock => final(probe).classified() == old(probe).classified().insert(
                    old(self).definition,
                    true,
                ) && (final(self).locks.slots@, a) == lock_slot(old(self).locks.slots@, old(self).slot),
                DefinitionClass::NotLock => final(probe).classified() == old(probe).classified().insert(
                    old(self).definition,
                    false,
                ) && a == LockAction::Next && *final(self) == *old(self),
                DefinitionClass::NeedsName(name_ptr) => a == LockAction::ReadName(name_ptr)
                    && *final(self) == *old(self) && final(probe).classified() == old(
                    probe,
                ).classified() && final(probe).evidence() == old(probe).evidence(),
            },
    {
        match classify_definition(bytes) {
            DefinitionClass::Lock => self.classified_as(probe, true, Ghost(LockEvidence::Definition(bytes@))),
            DefinitionClass::NotLock => self.classified_as(probe, false, Ghost(LockEvidence::Definition(bytes@))),
            DefinitionClass::NeedsName(name_ptr) => LockAction::ReadName(name_ptr),
        }
    }

    /// The definition's name was read: the known flask effect names lock the slot.
    pub fn name_read(&mut self, probe: &mut FlaskLockProbe, name: &str) -> (a: LockAction)
        requires
            old(self).wf(),
            old(probe).sound(),
        ensures
            final(self).wf(),
            final(probe).sound(),
            final(probe).evidence() == old(probe).evidence().insert(old(self).definition, LockEvidence::Name(name@)),
            final(probe).identity() == old(probe).identity(),
            final(probe).classified() == old(probe).classified().insert(
                old(self).definition,
                is_flask_lock_name_text(name@),
            ),
            is_flask_lock_name_text(name@) ==> (final(self).locks.slots@, a) == lock_slot(
                old(self).locks.slots@,
                old(self).slot,
            ),
            !is_flask_lock_name_text(name@) ==> a == LockAction::Next && *final(self) == *old(self),
    {
        let is_lock = is_flask_lock_name(name);
        self.classified_as(probe, is_lock, Ghost(LockEvidence::Name(name@)))
    }
}


/// A status effect that locked a flask slot: its status bytes, whether its timing was judged
/// plausible, and what its definition's classification rests on.
pub struct LockReason {
    pub status: Seq<u8>,
    pub timing_ok: bool,
    pub evidence: LockEvidence,
}

/// Whether `r` shows that the player's flask slot `slot` is in use: an effect the player applied
/// to that slot, with plausible timing and a plausible definition that is a flask effect's.
pub open spec fn justifies(r: LockReason, player_id: u32, slot: int) -> bool {
    &&& r.timing_ok
    &&& effect_slot_of(
        status_source(r.status),
        player_id,
        status_slot(r.status),
        status_definition(r.status),
    ) == Some(slot as usize)
    &&& evidence_locks(r.evidence)
}

/// Bytes read of a buff definition's name.
pub const BUFF_NAME_LEN: usize = 256;

/// The value a lock sample reads next.
#[derive(Debug, Clone, Copy, PartialEq, Eq, Structural)]
pub enum LockStage {
    PlayerId,
    Header,
    Pointers,
    Status,
    Definition,
    Name,
    Finished,
}

/// What a lock sample does next.
#[derive(Debug)]
pub enum LockStep {
    /// Read this many bytes at this address and report them with `bytes_read`.
    ReadBytes(usize, usize),
    /// Read `FAST_STATUS_LEN` bytes of a status effect at this address, judge whether its
    /// duration and time left are plausible for a flask, and report both with `status_read`.
    ReadStatus(usize),
    /// Finished: the locked slots, or why the effects cannot be read.
    Done(Result<FlaskLocks, ProbeError>),
}

pub enum LockStepModel {
    ReadBytes(usize, usize),
    ReadStatus(usize),
    Done(Result<Seq<bool>, ProbeErrorModel>),
}

impl View for LockStep {
    type V = LockStepModel;

    open spec fn view(&self) -> LockStepModel {
        match self {
            LockStep::ReadBytes(a, n) => LockStepModel::ReadBytes(*a, *n),
            LockStep::ReadStatus(a) => LockStepModel::ReadStatus(*a),
            LockStep::Done(Ok(l)) => LockStepModel::Done(Ok(l.slots@)),
            LockStep::Done(Err(e)) => LockStepModel::Done(Err(e@)),
        }
    }
}

/// The unsigned 64-bit little-endian value at `off` of `b`, as an address.
pub open spec fn address_at(b: Seq<u8>, off: int) -> usize {
    le_nat(field(b, off, 8)) as usize
}

/// The read of status effect `i`, whose pointer is in `pointers`.
pub open spec fn effect_step(pointers: Seq<u8>, i: int) -> LockStepModel {
    let p = address_at(pointers, 8 * i);
    if !plausible_address(p as int) {
        LockStepModel::Done(
            Err(probe_error(ErrorKind::InvalidData, "Buffs status-effect vector contains an invalid pointer"@)),
        )
    } else {
        LockStepModel::ReadStatus(wrap_add(p, FAST_STATUS_START))
    }
}

/// What follows the scan's `action` on effect `i` of `count`, with the slots locked now.
pub open spec fn after_scan(pointers: Seq<u8>, i: int, count: int, locks: Seq<bool>, action: LockAction) -> LockStepModel {
    match action {
        LockAction::Next => if i + 1 < count {
            effect_step(pointers, i + 1)
        } else {
            LockStepModel::Done(Ok(locks))
        },
        LockAction::AllLocked => LockStepModel::Done(Ok(locks)),
        LockAction::ReadDefinition(d) => LockStepModel::ReadBytes(d, (BUFF_DEFINITION_TYPE + 1) as usize),
        LockAction::ReadName(p) => LockStepModel::ReadBytes(p, BUFF_NAME_LEN),
    }
}

/// Whether a finished sample's locks are each shown by a reason it recorded.
pub open spec fn locks_justified(locks: Seq<bool>, reasons: Seq<LockReason>, player_id: u32) -> bool {
    forall|i: int|
        0 <= i < 2 && #[trigger] locks[i] ==> exists|k: int|
            0 <= k < reasons.len() && justifies(reasons[k], player_id, i)
}

/// One sample of the player's active flask effects: the player's entity id is checked, the
/// status-effect vector is read, and each effect is scanned until both slots are locked. A slot
/// is reported locked only for an effect the player applied to it, with plausible timing, whose
/// definition is of type 4 or carries a flask effect's name.
pub struct LockSample {
    stage: LockStage,
    player_id: u32,
    scan: LockScan,
    pointers: Vec<u8>,
    count: usize,
    index: usize,
    reasons: Ghost<Seq<LockReason>>,
    pending: Ghost<Seq<u8>>,
}

impl LockSample {
    pub closed spec fn stage(&self) -> LockStage {
        self.stage
    }

    /// The slots locked so far.
    pub closed spec fn locks(&self) -> Seq<bool> {
        self.scan.locks.slots@
    }

    /// Why each locked slot is locked.
    pub closed spec fn reasons(&self) -> Seq<LockReason> {
        self.reasons@
    }

    /// The status-effect pointers, the number of effects and the effect being scanned.
    pub closed spec fn effects(&self) -> (Seq<u8>, int, int) {
        (self.pointers@, self.count as int, self.index as int)
    }

    /// The slot and definition of the effect whose definition is being classified.
    pub closed spec fn pending(&self) -> (usize, usize) {
        (self.scan.slot, self.scan.definition)
    }

    /// How many bytes the next read is.
    pub closed spec fn bytes_wanted(&self) -> Option<nat> {
        match self.stage {
            LockStage::PlayerId => Some(4),
            LockStage::Header => Some(16),
            LockStage::Pointers => Some((self.count * 8) as nat),
            LockStage::Definition => Some((BUFF_DEFINITION_TYPE + 1) as nat),
            LockStage::Name => Some(BUFF_NAME_LEN as nat),
            _ => None,
        }
    }

    /// The sample's invariant, with the probe it reads for.
    pub closed spec fn wf(&self, probe: &FlaskLockProbe) -> bool {
        &&& probe.sound()
        &&& probe.identity().1 == self.player_id
        &&& self.scan.wf()
        &&& self.count <= MAX_STATUS_EFFECTS
        &&& (self.stage is Status || self.stage is Definition || self.stage is Name) ==> self.index
            < self.count && self.pointers@.len() == self.count * 8
        &&& locks_justified(self.scan.locks.slots@, self.reasons@, self.player_id)
        &&& (self.stage is PlayerId || self.stage is Header || self.stage is Pointers)
            ==> self.scan.locks.slots@ == seq![false, false]
        &&& self.stage is Pointers ==> 0 < self.count
        &&& (self.stage is Definition || self.stage is Name) ==> effect_slot_of(
            status_source(self.pending@),
            self.player_id,
            status_slot(self.pending@),
            status_definition(self.pending@),
        ) == Some(self.scan.slot) && status_definition(self.pending@) == self.scan.definition
    }

    /// Starts a sample for `probe`: its player's entity id is read first.
    pub fn start(probe: &FlaskLockProbe) -> (r: (LockSample, LockStep))
        requires
            probe.sound(),
        ensures
            r.0.wf(probe),
            r.0.stage() is PlayerId,
            r.1@ == LockStepModel::ReadBytes(wrap_add(probe.identity().0, ENTITY_ID), 4),
    {
        let s = LockSample {
            stage: LockStage::PlayerId,
            player_id: probe.player_id,
            scan: LockScan::new(),
            pointers: Vec::new(),
            count: 0,
            index: 0,
            reasons: Ghost(Seq::empty()),
            pending: Ghost(Seq::empty()),
        };
        (s, LockStep::ReadBytes(address(probe.local_player, ENTITY_ID), 4))
    }

    fn effect_step(&mut self, i: usize) -> (s: LockStep)
        requires
            i < old(self).count,
            old(self).pointers@.len() == old(self).count * 8,
            old(self).count <= MAX_STATUS_EFFECTS,
        ensures
            s@ == effect_step(old(self).pointers@, i as int),
            s@ is ReadStatus ==> *final(self) == (LockSample {
                stage: LockStage::Status,
                index: i,
                ..*old(self)
            }),
            s@ is Done ==> *final(self) == (LockSample { stage: LockStage::Finished, ..*old(self) }),
    {
        let p = read_u64_from(self.pointers.as_slice(), i * 8) as usize;
        match check_effect_pointer(p) {
            Err(e) => {
                self.stage = LockStage::Finished;
                LockStep::Done(Err(e))
            },
            Ok(p) => {
                self.stage = LockStage::Status;
                self.index = i;
                LockStep::ReadStatus(address(p, FAST_STATUS_START))
            },
        }
    }

    fn after_scan(&mut self, a: LockAction) -> (s: LockStep)
        requires
            old(self).index < old(self).count,
            old(self).pointers@.len() == old(self).count * 8,
            old(self).count <= MAX_STATUS_EFFECTS,
        ensures
            s@ == after_scan(
                old(self).pointers@,
                old(self).index as int,
                old(self).count as int,
                old(self).scan.locks.slots@,
                a,
            ),
            final(self).scan == old(self).scan,
            final(self).reasons == old(self).reasons,
            final(self).pending == old(self).pending,
            final(self).player_id == old(self).player_id,
            final(self).count == old(self).count,
            final(self).pointers@ == old(self).pointers@,
            s@ is ReadStatus ==> final(self).stage is Status && final(self).index < final(self).count,
            a is ReadDefinition ==> final(self).stage is Definition && final(self).index == old(self).index,
            a is ReadName ==> final(self).stage is Name && final(self).index == old(self).index,
            s@ is Done ==> final(self).stage is Finished,
    {
        match a {
            LockAction::Next => {
                if self.index + 1 < self.count {
                    let i = self.index + 1;
                    self.effect_step(i)
                } else {
                    self.stage = LockStage::Finished;
                    LockStep::Done(Ok(self.scan.locks))
                }
            },
            LockAction::AllLocked => {
                self.stage = LockStage::Finished;
                LockStep::Done(Ok(self.scan.locks))
            },
            LockAction::ReadDefinition(d) => {
                self.stage = LockStage::Definition;
                LockStep::ReadBytes(d, BUFF_DEFINITION_TYPE + 1)
            },
            LockAction::ReadName(p) => {
                self.stage = LockStage::Name;
                LockStep::ReadBytes(p, BUFF_NAME_LEN)
            },
        }
    }

    /// A read of bytes asked for gave `b`.
    pub fn bytes_read(&mut self, probe: &mut FlaskLockProbe, b: &[u8]) -> (s: LockStep)
        requires
            old(self).wf(old(probe)),
            old(self).bytes_wanted() == Some(b@.len()),
        ensures
            final(self).wf(final(probe)),
            final(probe).identity() == old(probe).identity(),
            s@ matches LockStepModel::Done(Ok(l)) ==> l == final(self).locks() && locks_justified(
                l,
                final(self).reasons(),
                old(probe).identity().1,
            ),
            old(self).stage() is PlayerId ==> if le_nat(field(b@, 0, 4)) != old(probe).identity().1 {
                s@ == LockStepModel::Done(
                    Err(probe_error(ErrorKind::Interrupted, "local player entity id changed"@)),
                )
            } else {
                s@ == LockStepModel::ReadBytes(
                    wrap_add(old(probe).identity().2, BUFFS_STATUS_EFFECT_VECTOR),
                    16,
                )
            },
            old(self).stage() is Header ==> match status_vector_result(
                address_at(b@, 0),
                address_at(b@, 8),
            ) {
                Err(e) => s@ == LockStepModel::Done(Err(e)),
                Ok((f, c)) => if c == 0 {
                    s@ == LockStepModel::Done(Ok(seq![false, false]))
                } else {
                    s@ == LockStepModel::ReadBytes(f, (c * 8) as usize)
                },
            },
            old(self).stage() is Pointers ==> s@ == effect_step(b@, 0),
            old(self).stage() is Definition ==> match definition_class_of(b@) {
                DefinitionClass::Lock => final(probe).classified() == old(probe).classified().insert(
                    old(self).pending().1,
                    true,
                ) && s@ == after_scan(
                    old(self).effects().0,
                    old(self).effects().2,
                    old(self).effects().1,
                    lock_slot(old(self).locks(), old(self).pending().0).0,
                    lock_slot(old(self).locks(), old(self).pending().0).1,
                ),
                DefinitionClass::NotLock => final(probe).classified() == old(
                    probe,
                ).classified().insert(old(self).pending().1, false) && s@ == after_scan(
                    old(self).effects().0,
                    old(self).effects().2,
                    old(self).effects().1,
                    old(self).locks(),
                    LockAction::Next,
                ),
                DefinitionClass::NeedsName(p) => s@ == LockStepModel::ReadBytes(p, BUFF_NAME_LEN),
            },
            old(self).stage() is Name ==> match buff_name_text(b@) {
                Err(e) => s@ == LockStepModel::Done(Err(e)),
                Ok(n) => final(probe).classified() == old(probe).classified().insert(
                    old(self).pending().1,
                    is_flask_lock_name_text(n),
                ) && if is_flask_lock_name_text(n) {
                    s@ == after_scan(
                        old(self).effects().0,
                        old(self).effects().2,
                        old(self).effects().1,
                        lock_slot(old(self).locks(), old(self).pending().0).0,
                        lock_slot(old(self).locks(), old(self).pending().0).1,
                    )
                } else {
                    s@ == after_scan(
                        old(self).effects().0,
                        old(self).effects().2,
                        old(self).effects().1,
                        old(self).locks(),
                        LockAction::Next,
                    )
                },
            },
    {
        match self.stage {
            LockStage::PlayerId => {
                let id = read_u32_from(b, 0);
                match check_player_unchanged(id, self.player_id) {
                    Err(e) => {
                        self.stage = LockStage::Finished;
                        LockStep::Done(Err(e))
                    },
                    Ok(()) => {
                        self.stage = LockStage::Header;
                        LockStep::ReadBytes(address(probe.buffs_component, BUFFS_STATUS_EFFECT_VECTOR), 16)
                    },
                }
            },
            LockStage::Header => {
                let first = read_u64_from(b, 0) as usize;
                let last = read_u64_from(b, 8) as usize;
                match check_status_vector(first, last) {
                    Err(e) => {
                        self.stage = LockStage::Finished;
                        LockStep::Done(Err(e))
                    },
                    Ok((f, c)) => {
                        if c == 0 {
                            self.stage = LockStage::Finished;
                            LockStep::Done(Ok(self.scan.locks))
                        } else {
                            self.stage = LockStage::Pointers;
                            self.count = c;
                            LockStep::ReadBytes(f, c * 8)
                        }
                    },
                }
            },
            LockStage::Pointers => {
                self.pointers = vstd::slice::slice_to_vec(b);
                self.effect_step(0)
            },
            LockStage::Definition => {
                let ghost locks0 = self.scan.locks.slots@;
                let ghost slot0 = self.scan.slot;
                let ghost r0 = self.reasons@;
                let ghost reason = LockReason {
                    status: self.pending@,
                    timing_ok: true,
                    evidence: LockEvidence::Definition(b@),
                };
                let a = self.scan.definition_read(probe, b);
                proof {
                    if definition_class_of(b@) is Lock {
                        self.reasons@ = self.reasons@.push(reason);
                        assert(self.reasons@.drop_last() =~= r0);
                        lemma_lock_justified(locks0, self.reasons@, self.player_id, slot0);
                    }
                }
                self.after_scan(a)
            },
            LockStage::Name => match read_buff_name(b) {
                Err(e) => {
                    self.stage = LockStage::Finished;
                    LockStep::Done(Err(e))
                },
                Ok(name) => {
                    let ghost locks0 = self.scan.locks.slots@;
                    let ghost slot0 = self.scan.slot;
                    let ghost r0 = self.reasons@;
                    let ghost reason = LockReason {
                        status: self.pending@,
                        timing_ok: true,
                        evidence: LockEvidence::Name(name@),
                    };
                    let a = self.scan.name_read(probe, name.as_str());
                    proof {
                        if is_flask_lock_name_text(name@) {
                            self.reasons@ = self.reasons@.push(reason);
                            assert(self.reasons@.drop_last() =~= r0);
                            lemma_lock_justified(locks0, self.reasons@, self.player_id, slot0);
                        }
                    }
                    self.after_scan(a)
                },
            },
            _ => LockStep::Done(Ok(self.scan.locks)),
        }
    }

    /// A status effect asked for was read as `status`; `timing_ok` says whether its duration
    /// and time left are plausible for a flask.
    pub fn status_read(&mut self, probe: &FlaskLockProbe, status: &[u8], timing_ok: bool) -> (s: LockStep)
        requires
            old(self).wf(probe),
            old(self).stage() is Status,
            status@.len() == FAST_STATUS_LEN,
        ensures
            final(self).wf(probe),
            s@ matches LockStepModel::Done(Ok(l)) ==> l == final(self).locks() && locks_justified(
                l,
                final(self).reasons(),
                probe.identity().1,
            ),
            match effect_slot_of(
                status_source(status@),
                probe.identity().1,
                status_slot(status@),
                status_definition(status@),
            ) {
                None => s@ == after_scan(
                    old(self).effects().0,
                    old(self).effects().2,
                    old(self).effects().1,
                    old(self).locks(),
                    LockAction::Next,
                ),
                Some(slot) => if !timing_ok {
                    s@ == after_scan(
                        old(self).effects().0,
                        old(self).effects().2,
                        old(self).effects().1,
                        old(self).locks(),
                        LockAction::Next,
                    )
                } else {
                    match remembered(probe.classified(), status_definition(status@)) {
                        Some(true) => s@ == after_scan(
                            old(self).effects().0,
                            old(self).effects().2,
                            old(self).effects().1,
                            lock_slot(old(self).locks(), slot).0,
                            lock_slot(old(self).locks(), slot).1,
                        ),
                        Some(false) => s@ == after_scan(
                            old(self).effects().0,
                            old(self).effects().2,
                            old(self).effects().1,
                            old(self).locks(),
                            LockAction::Next,
                        ),
                        None => s@ == LockStepModel::ReadBytes(
                            status_definition(status@),
                            (BUFF_DEFINITION_TYPE + 1) as usize,
                        ),
                    }
                },
            },
    {
        let ghost locks0 = self.scan.locks.slots@;
        let ghost r0 = self.reasons@;
        let ghost def = status_definition(status@);
        let a = self.scan.effect(probe, status, timing_ok);
        proof {
            self.pending@ = status@;
            let slot = effect_slot_of(
                status_source(status@),
                self.player_id,
                status_slot(status@),
                def,
            );
            if slot is Some && timing_ok && remembered(probe.classified(), def) == Some(true) {
                let reason = LockReason {
                    status: status@,
                    timing_ok,
                    evidence: probe.evidence()[def],
                };
                self.reasons@ = self.reasons@.push(reason);
                assert(self.reasons@.drop_last() =~= r0);
                lemma_lock_justified(locks0, self.reasons@, self.player_id, slot->0);
            }
        }
        self.after_scan(a)
    }
}

/// Locking `slot` for the reason recorded last keeps every lock justified.
proof fn lemma_lock_justified(locks: Seq<bool>, reasons: Seq<LockReason>, player_id: u32, slot: usize)
    requires
        reasons.len() > 0,
        slot < 2,
        locks.len() == 2,
        justifies(reasons.last(), player_id, slot as int),
        locks_justified(locks, reasons.drop_last(), player_id),
    ensures
        locks_justified(locks.update(slot as int, true), reasons, player_id),
{
    let l = locks.update(slot as int, true);
    assert forall|i: int| 0 <= i < 2 && #[trigger] l[i] implies exists|k: int|
        0 <= k < reasons.len() && justifies(reasons[k], player_id, i) by {
        if i == slot {
            assert(justifies(reasons[reasons.len() - 1], player_id, i));
        } else {
            assert(locks[i]);
            let k = choose|k: int| 0 <= k < reasons.drop_last().len() && justifies(reasons.drop_last()[k], player_id, i);
            assert(reasons[k] == reasons.drop_last()[k]);
        }
    }
}

} // verus!
