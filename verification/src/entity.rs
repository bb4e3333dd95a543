//! Entity components: the checks on an entity's component table and the lookup of a component
//! by name.

use vstd::prelude::*;

use crate::area::{plausible_address, plausible_ptr};
use crate::text::str_eq;

verus! {

/// Largest plausible number of components of an entity.
pub const MAX_COMPONENTS: usize = 256;

/// Size of one entry of the component lookup bucket.
pub const COMPONENT_LOOKUP_ENTRY_STRIDE: usize = 0x10;

/// The number of `stride`-byte elements in `[first, last)`, when it is a non-empty whole number
/// no larger than `max_count`.
pub open spec fn element_count(first: usize, last: usize, stride: usize, max_count: usize) -> Option<usize> {
    if last <= first {
        None
    } else if (last - first) % (stride as int) != 0 {
        None
    } else {
        let count = (last - first) / (stride as int);
        if count != 0 && count <= max_count {
            Some(count as usize)
        } else {
            None
        }
    }
}

/// Counts the elements of a vector header, refusing empty, ragged or oversized ones.
pub fn checked_count(first: usize, last: usize, stride: usize, max_count: usize) -> (r: Option<usize>)
    requires
        stride > 0,
    ensures
        r == element_count(first, last, stride, max_count),
{
    if last <= first {
        return None;
    }
    let bytes = last - first;
    if bytes % stride != 0 {
        return None;
    }
    let count = bytes / stride;
    if count != 0 && count <= max_count {
        Some(count)
    } else {
        None
    }
}

/// The component a lookup entry names, when its index is within the component list.
pub open spec fn component_slot_of(component_index: i32, component_count: usize) -> Option<usize> {
    if component_index < 0 || component_index >= component_count {
        None
    } else {
        Some(component_index as usize)
    }
}

/// Checks a lookup entry's component index.
pub fn component_slot(component_index: i32, component_count: usize) -> (r: Option<usize>)
    ensures
        r == component_slot_of(component_index, component_count),
{
    if component_index < 0 || component_index as usize >= component_count {
        None
    } else {
        Some(component_index as usize)
    }
}

/// `a + b` wrapped around the address space, as addresses are computed in the game's memory.
pub open spec fn wrap_add(a: usize, b: usize) -> usize {
    if a + b > usize::MAX {
        (a + b - usize::MAX - 1) as usize
    } else {
        (a + b) as usize
    }
}

/// Computes `wrap_add`.
pub fn address(a: usize, b: usize) -> (r: usize)
    ensures
        r == wrap_add(a, b),
{
    a.wrapping_add(b)
}

/// Offset of the entity details pointer in an entity.
pub const ENTITY_DETAILS_PTR: usize = 0x08;

/// Offset of the component list vector in an entity.
pub const ENTITY_COMPONENT_LIST: usize = 0x10;

/// Offset of the component lookup pointer in the entity details.
pub const ENTITY_DETAILS_COMPONENT_LOOKUP_PTR: usize = 0x28;

/// Offset of the lookup bucket vector in the component lookup.
pub const COMPONENT_LOOKUP_BUCKET: usize = 0x28;

/// Bytes read of a component name.
pub const COMPONENT_NAME_LEN: usize = 32;

/// The value a component lookup reads next.
#[derive(Debug, Clone, Copy, PartialEq, Eq, Structural)]
pub enum LookupStage {
    Details,
    Lookup,
    ComponentsFirst,
    ComponentsLast,
    BucketFirst,
    BucketLast,
    /// The name pointer of the bucket entry with this index.
    EntryName(usize),
    /// The component index of the bucket entry with this index.
    EntryIndex(usize),
    /// The name of the bucket entry with this index.
    EntryText(usize),
    /// The component pointer of the entry whose name matched.
    Component,
    Finished,
}

/// What a component lookup does next.
#[derive(Debug, Clone, Copy, PartialEq, Eq, Structural)]
pub enum LookupStep {
    /// Read the pointer-sized value at this address and report it with `word_read` (`None` when
    /// the read failed).
    ReadWord(usize),
    /// Read the 32-bit value at this address and report it with `int_read`.
    ReadInt(usize),
    /// Read the zero-terminated name of at most `COMPONENT_NAME_LEN` bytes at this address and
    /// report it with `name_read`.
    ReadName(usize),
    /// Finished: the component's address, or `None` when the entity has no such component or
    /// its tables do not check out.
    Done(Option<usize>),
}

/// A lookup of a named component in an entity's component table: the entity details lead to
/// a lookup bucket of `(name, index)` entries, and the index of the entry with the wanted name
/// selects a pointer in the entity's component list. Unreadable entries are skipped.
#[derive(Debug)]
pub struct ComponentLookup {
    pub entity: usize,
    pub wanted: String,
    pub stage: LookupStage,
    pub lookup: usize,
    pub components_first: usize,
    pub component_count: usize,
    pub bucket_first: usize,
    pub entry_count: usize,
    pub name_ptr: usize,
    pub slot: usize,
}

pub struct LookupModel {
    pub entity: usize,
    pub wanted: Seq<char>,
    pub stage: LookupStage,
    pub lookup: usize,
    pub components_first: usize,
    pub component_count: usize,
    pub bucket_first: usize,
    pub entry_count: usize,
    pub name_ptr: usize,
    pub slot: usize,
}

impl View for ComponentLookup {
    type V = LookupModel;

    open spec fn view(&self) -> LookupModel {
        LookupModel {
            entity: self.entity,
            wanted: self.wanted@,
            stage: self.stage,
            lookup: self.lookup,
            components_first: self.components_first,
            component_count: self.component_count,
            bucket_first: self.bucket_first,
            entry_count: self.entry_count,
            name_ptr: self.name_ptr,
            slot: self.slot,
        }
    }
}

impl LookupModel {
    /// The lookup's invariant: entry indexes stay within the bucket, and a selected component
    /// within the component list.
    pub open spec fn wf(self) -> bool {
        &&& self.entry_count <= MAX_COMPONENTS
        &&& self.component_count <= MAX_COMPONENTS
        &&& (self.stage matches LookupStage::EntryName(i) ==> i < self.entry_count)
        &&& (self.stage matches LookupStage::EntryIndex(i) ==> i < self.entry_count)
        &&& (self.stage matches LookupStage::EntryText(i) ==> i < self.entry_count
            && self.slot < self.component_count)
        &&& (self.stage is Component ==> self.slot < self.component_count)
    }

    /// Where the bucket entry with index `i` is.
    pub open spec fn entry(self, i: usize) -> usize {
        wrap_add(self.bucket_first, (i * COMPONENT_LOOKUP_ENTRY_STRIDE) as usize)
    }

    pub open spec fn finish(self, r: Option<usize>) -> (LookupModel, LookupStep) {
        (LookupModel { stage: LookupStage::Finished, ..self }, LookupStep::Done(r))
    }

    /// Goes on with the entry after `i`, or finishes without a component after the last.
    pub open spec fn next_entry(self, i: usize) -> (LookupModel, LookupStep) {
        if i + 1 < self.entry_count {
            (
                LookupModel { stage: LookupStage::EntryName((i + 1) as usize), ..self },
                LookupStep::ReadWord(self.entry((i + 1) as usize)),
            )
        } else {
            self.finish(None)
        }
    }

    pub open spec fn expects_word(self) -> bool {
        self.stage is Details || self.stage is Lookup || self.stage is ComponentsFirst
            || self.stage is ComponentsLast || self.stage is BucketFirst || self.stage is BucketLast
            || self.stage is EntryName || self.stage is Component
    }
}

/// A read pointer when it was read and can be one.
pub open spec fn plausible_read(v: Option<usize>) -> Option<usize> {
    match v {
        Some(p) => if plausible_address(p as int) {
            Some(p)
        } else {
            None
        },
        None => None,
    }
}

/// The lookup after a pointer-sized read gave `v`.
pub open spec fn lookup_word_step(m: LookupModel, v: Option<usize>) -> (LookupModel, LookupStep) {
    match m.stage {
        LookupStage::Details => match plausible_read(v) {
            None => m.finish(None),
            Some(d) => (
                LookupModel { stage: LookupStage::Lookup, ..m },
                LookupStep::ReadWord(wrap_add(d, ENTITY_DETAILS_COMPONENT_LOOKUP_PTR)),
            ),
        },
        LookupStage::Lookup => match plausible_read(v) {
            None => m.finish(None),
            Some(l) => (
                LookupModel { stage: LookupStage::ComponentsFirst, lookup: l, ..m },
                LookupStep::ReadWord(wrap_add(m.entity, ENTITY_COMPONENT_LIST)),
            ),
        },
        LookupStage::ComponentsFirst => match plausible_read(v) {
            None => m.finish(None),
            Some(f) => (
                LookupModel { stage: LookupStage::ComponentsLast, components_first: f, ..m },
                LookupStep::ReadWord(wrap_add(m.entity, (ENTITY_COMPONENT_LIST + 8) as usize)),
            ),
        },
        LookupStage::ComponentsLast => match plausible_read(v) {
            None => m.finish(None),
            Some(l) => match element_count(m.components_first, l, 8, MAX_COMPONENTS) {
                None => m.finish(None),
                Some(c) => (
                    LookupModel { stage: LookupStage::BucketFirst, component_count: c, ..m },
                    LookupStep::ReadWord(wrap_add(m.lookup, COMPONENT_LOOKUP_BUCKET)),
                ),
            },
        },
        LookupStage::BucketFirst => match plausible_read(v) {
            None => m.finish(None),
            Some(f) => (
                LookupModel { stage: LookupStage::BucketLast, bucket_first: f, ..m },
                LookupStep::ReadWord(wrap_add(m.lookup, (COMPONENT_LOOKUP_BUCKET + 8) as usize)),
            ),
        },
        LookupStage::BucketLast => match plausible_read(v) {
            None => m.finish(None),
            Some(l) => match element_count(
                m.bucket_first,
                l,
                COMPONENT_LOOKUP_ENTRY_STRIDE,
                MAX_COMPONENTS,
            ) {
                None => m.finish(None),
                Some(c) => (
                    LookupModel { stage: LookupStage::EntryName(0), entry_count: c, ..m },
                    LookupStep::ReadWord(m.bucket_first),
                ),
            },
        },
        LookupStage::EntryName(i) => match plausible_read(v) {
            None => m.next_entry(i),
            Some(n) => (
                LookupModel { stage: LookupStage::EntryIndex(i), name_ptr: n, ..m },
                LookupStep::ReadInt(wrap_add(m.entry(i), 8)),
            ),
        },
        LookupStage::Component => m.finish(plausible_read(v)),
        _ => (m, LookupStep::Done(None)),
    }
}

/// The lookup after reading an entry's component index gave `v` (`None` when the read failed).
pub open spec fn lookup_int_step(m: LookupModel, v: Option<i32>) -> (LookupModel, LookupStep) {
    match m.stage {
        LookupStage::EntryIndex(i) => match v {
            None => m.next_entry(i),
            Some(index) => match component_slot_of(index, m.component_count) {
                None => m.next_entry(i),
                Some(slot) => (
                    LookupModel { stage: LookupStage::EntryText(i), slot, ..m },
                    LookupStep::ReadName(m.name_ptr),
                ),
            },
        },
        _ => (m, LookupStep::Done(None)),
    }
}

/// The lookup after reading an entry's name gave `name` (`None` when the read failed).
pub open spec fn lookup_name_step(m: LookupModel, name: Option<Seq<char>>) -> (LookupModel, LookupStep) {
    match m.stage {
        LookupStage::EntryText(i) => match name {
            Some(n) => if n == m.wanted {
                (
                    LookupModel { stage: LookupStage::Component, ..m },
                    LookupStep::ReadWord(wrap_add(m.components_first, (m.slot * 8) as usize)),
                )
            } else {
                m.next_entry(i)
            },
            None => m.next_entry(i),
        },
        _ => (m, LookupStep::Done(None)),
    }
}

/// Each step's read matches what the lookup expects next.
pub open spec fn lookup_fits(m: LookupModel, step: LookupStep) -> bool {
    match step {
        LookupStep::ReadWord(_) => m.expects_word(),
        LookupStep::ReadInt(_) => m.stage is EntryIndex,
        LookupStep::ReadName(_) => m.stage is EntryText,
        LookupStep::Done(_) => m.stage is Finished,
    }
}

impl ComponentLookup {
    /// Starts looking up the component named `wanted` of `entity`.
    pub fn start(entity: usize, wanted: &str) -> (r: (ComponentLookup, LookupStep))
        ensures
            r.0@.entity == entity,
            r.0@.wanted == wanted@,
            r.0@.stage == LookupStage::Details,
            r.0@.entry_count == 0 && r.0@.component_count == 0,
            r.0@.wf(),
            r.1 == LookupStep::ReadWord(wrap_add(entity, ENTITY_DETAILS_PTR)),
            lookup_fits(r.0@, r.1),
    {
        (
            ComponentLookup {
                entity,
                wanted: crate::text::string_from(wanted),
                stage: LookupStage::Details,
                lookup: 0,
                components_first: 0,
                component_count: 0,
                bucket_first: 0,
                entry_count: 0,
                name_ptr: 0,
                slot: 0,
            },
            LookupStep::ReadWord(address(entity, ENTITY_DETAILS_PTR)),
        )
    }

    fn finish(&mut self, r: Option<usize>) -> (s: LookupStep)
        ensures
            (final(self)@, s) == old(self)@.finish(r),
    {
        self.stage = LookupStage::Finished;
        LookupStep::Done(r)
    }

    fn next_entry(&mut self, i: usize) -> (s: LookupStep)
        requires
            old(self)@.entry_count <= MAX_COMPONENTS,
            i < old(self)@.entry_count,
        ensures
            (final(self)@, s) == old(self)@.next_entry(i),
    {
        if i + 1 < self.entry_count {
            self.stage = LookupStage::EntryName(i + 1);
            LookupStep::ReadWord(address(self.bucket_first, (i + 1) * COMPONENT_LOOKUP_ENTRY_STRIDE))
        } else {
            self.finish(None)
        }
    }

    fn plausible(v: Option<usize>) -> (r: Option<usize>)
        ensures
            r == plausible_read(v),
    {
        match v {
            Some(p) => if plausible_ptr(p) {
                Some(p)
            } else {
                None
            },
            None => None,
        }
    }

    /// A pointer-sized read asked for gave `v`, `None` when it failed.
    pub fn word_read(&mut self, v: Option<usize>) -> (s: LookupStep)
        requires
            old(self)@.wf(),
            old(self)@.expects_word(),
        ensures
            (final(self)@, s) == lookup_word_step(old(self)@, v),
            final(self)@.wf(),
            lookup_fits(final(self)@, s),
    {
        match self.stage {
            LookupStage::Details => match Self::plausible(v) {
                None => self.finish(None),
                Some(d) => {
                    self.stage = LookupStage::Lookup;
                    LookupStep::ReadWord(address(d, ENTITY_DETAILS_COMPONENT_LOOKUP_PTR))
                },
            },
            LookupStage::Lookup => match Self::plausible(v) {
                None => self.finish(None),
                Some(l) => {
                    self.stage = LookupStage::ComponentsFirst;
                    self.lookup = l;
                    LookupStep::ReadWord(address(self.entity, ENTITY_COMPONENT_LIST))
                },
            },
            LookupStage::ComponentsFirst => match Self::plausible(v) {
                None => self.finish(None),
                Some(f) => {
                    self.stage = LookupStage::ComponentsLast;
                    self.components_first = f;
                    LookupStep::ReadWord(address(self.entity, ENTITY_COMPONENT_LIST + 8))
                },
            },
            LookupStage::ComponentsLast => match Self::plausible(v) {
                None => self.finish(None),
                Some(l) => match checked_count(self.components_first, l, 8, MAX_COMPONENTS) {
                    None => self.finish(None),
                    Some(c) => {
                        self.stage = LookupStage::BucketFirst;
                        self.component_count = c;
                        LookupStep::ReadWord(address(self.lookup, COMPONENT_LOOKUP_BUCKET))
                    },
                },
            },
            LookupStage::BucketFirst => match Self::plausible(v) {
                None => self.finish(None),
                Some(f) => {
                    self.stage = LookupStage::BucketLast;
                    self.bucket_first = f;
                    LookupStep::ReadWord(address(self.lookup, COMPONENT_LOOKUP_BUCKET + 8))
                },
            },
            LookupStage::BucketLast => match Self::plausible(v) {
                None => self.finish(None),
                Some(l) => match checked_count(
                    self.bucket_first,
                    l,
                    COMPONENT_LOOKUP_ENTRY_STRIDE,
                    MAX_COMPONENTS,
                ) {
                    None => self.finish(None),
                    Some(c) => {
                        self.stage = LookupStage::EntryName(0);
                        self.entry_count = c;
                        LookupStep::ReadWord(self.bucket_first)
                    },
                },
            },
            LookupStage::EntryName(i) => match Self::plausible(v) {
                None => self.next_entry(i),
                Some(n) => {
                    self.stage = LookupStage::EntryIndex(i);
                    self.name_ptr = n;
                    let entry = address(self.bucket_first, i * COMPONENT_LOOKUP_ENTRY_STRIDE);
                    LookupStep::ReadInt(address(entry, 8))
                },
            },
            LookupStage::Component => {
                let r = Self::plausible(v);
                self.finish(r)
            },
            _ => LookupStep::Done(None),
        }
    }

    /// The component index read asked for gave `v`, `None` when it failed.
    pub fn int_read(&mut self, v: Option<i32>) -> (s: LookupStep)
        requires
            old(self)@.wf(),
            old(self)@.stage is EntryIndex,
        ensures
            (final(self)@, s) == lookup_int_step(old(self)@, v),
            final(self)@.wf(),
            lookup_fits(final(self)@, s),
    {
        match self.stage {
            LookupStage::EntryIndex(i) => match v {
                None => self.next_entry(i),
                Some(index) => match component_slot(index, self.component_count) {
                    None => self.next_entry(i),
                    Some(slot) => {
                        self.stage = LookupStage::EntryText(i);
                        self.slot = slot;
                        LookupStep::ReadName(self.name_ptr)
                    },
                },
            },
            _ => LookupStep::Done(None),
        }
    }

    /// The name read asked for gave `name`, `None` when it failed.
    pub fn name_read(&mut self, name: Option<&str>) -> (s: LookupStep)
        requires
            old(self)@.wf(),
            old(self)@.stage is EntryText,
        ensures
            (final(self)@, s) == lookup_name_step(
                old(self)@,
                match name {
                    Some(n) => Some(n@),
                    None => None,
                },
            ),
            final(self)@.wf(),
            lookup_fits(final(self)@, s),
    {
        match self.stage {
            LookupStage::EntryText(i) => match name {
                Some(n) => {
                    if str_eq(n, self.wanted.as_str()) {
                        self.stage = LookupStage::Component;
                        LookupStep::ReadWord(address(self.components_first, self.slot * 8))
                    } else {
                        self.next_entry(i)
                    }
                },
                None => self.next_entry(i),
            },
            _ => LookupStep::Done(None),
        }
    }
}

} // verus!
