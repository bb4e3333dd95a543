//! The current area: finding its row in the game's data, whether it is a town, a hideout or a
//! combat area, and whether automation may run there.

use vstd::prelude::*;

use crate::entity::{address, wrap_add};
use crate::error::{error, probe_error, result_view, ErrorKind, ProbeError, ProbeErrorModel};
use crate::le::{field, le_nat, le_signed, read_i32_from, read_u64_from};
use crate::offsets::{is_search_order, prioritized_offsets};
use crate::text::{
    ascii_lower, char_is_control, chars_of, chars_eq, is_control, to_ascii_lower, utf16_strict,
    utf16_text,
};

verus! {

/// The usual offset of the world data pointer in the in-game state.
pub const IN_GAME_WORLD_DATA: usize = 0x368;

/// First offset the world data search tries.
pub const WORLD_DATA_SEARCH_START: usize = 0x340;

/// Last offset the world data search tries.
pub const WORLD_DATA_SEARCH_END: usize = 0x390;

/// Step of the world data search.
pub const WORLD_DATA_SEARCH_STEP: usize = 8;

/// Bytes read of an area row.
pub const AREA_ROW_READ_LEN: usize = 0x16;

/// Longest area id read, in UTF-16 units.
pub const MAX_AREA_ID_CHARS: usize = 128;

/// Longest area name read, in UTF-16 units.
pub const MAX_AREA_NAME_CHARS: usize = 192;

/// The current area as the game describes it.
#[derive(Debug, Clone, PartialEq, Eq)]
pub struct AreaInfo {
    pub id: String,
    pub name: String,
    pub act: i32,
    pub is_town: bool,
    pub is_hideout: bool,
    pub world_data_offset: usize,
    pub world_data: usize,
    pub area_row: usize,
}

/// Automation runs outside towns, and in hideouts only when the user allows it.
pub open spec fn allows_automation(is_town: bool, is_hideout: bool, enable_in_hideout: bool) -> bool {
    !is_town && (!is_hideout || enable_in_hideout)
}

/// The kind of area, as shown to the user.
pub open spec fn area_kind(is_town: bool, is_hideout: bool) -> Seq<char> {
    if is_town {
        "town"@
    } else if is_hideout {
        "hideout"@
    } else {
        "combat area"@
    }
}

impl AreaInfo {
    /// Whether automation may run in this area.
    pub fn allows_auto_flask(&self, enable_in_hideout: bool) -> (b: bool)
        ensures
            b == allows_automation(self.is_town, self.is_hideout, enable_in_hideout),
    {
        !self.is_town && (!self.is_hideout || enable_in_hideout)
    }

    /// The kind of area: town, hideout or combat area.
    pub fn kind(&self) -> (s: &'static str)
        ensures
            s@ == area_kind(self.is_town, self.is_hideout),
    {
        if self.is_town {
            "town"
        } else if self.is_hideout {
            "hideout"
        } else {
            "combat area"
        }
    }
}

/// The offsets at which the world data pointer is looked for, the usual one first.
pub fn world_data_offsets() -> (offsets: Vec<usize>)
    ensures
        is_search_order(
            offsets@,
            IN_GAME_WORLD_DATA as int,
            WORLD_DATA_SEARCH_STEP as int,
            WORLD_DATA_SEARCH_START as int,
            WORLD_DATA_SEARCH_END as int,
        ),
{
    prioritized_offsets(
        IN_GAME_WORLD_DATA,
        WORLD_DATA_SEARCH_START,
        WORLD_DATA_SEARCH_END,
        WORLD_DATA_SEARCH_STEP,
    )
}

/// A value that can be a pointer into the game's heap.
pub open spec fn plausible_address(v: int) -> bool {
    v >= 0x1_0000
}

/// Decides `plausible_address`.
pub fn plausible_ptr(value: usize) -> (b: bool)
    ensures
        b == plausible_address(value as int),
{
    value >= 0x1_0000
}

/// The fields of an area row that the helper uses.
#[derive(Debug, Clone, Copy, PartialEq, Eq, Structural)]
pub struct AreaRow {
    pub id_ptr: usize,
    pub name_ptr: usize,
    pub act: i32,
    pub raw_town: u8,
}

/// The area row in `AREA_ROW_READ_LEN` bytes, if its fields are plausible: two text pointers,
/// an act from -1 to 20, and two flag bytes that are 0 or 1.
pub open spec fn area_row_of(row: Seq<u8>) -> Option<AreaRow> {
    let id_ptr = le_nat(field(row, 0, 8)) as usize;
    let name_ptr = le_nat(field(row, 8, 8)) as usize;
    let act = le_signed(field(row, 0x10, 4), 32);
    if !plausible_address(id_ptr as int) || !plausible_address(name_ptr as int) {
        None
    } else if !(-1 <= act <= 20) {
        None
    } else if row[0x14] > 1 || row[0x15] > 1 {
        None
    } else {
        Some(AreaRow { id_ptr, name_ptr, act: act as i32, raw_town: row[0x14] })
    }
}

/// Decodes and checks an area row.
pub fn parse_area_row(row: &[u8]) -> (r: Option<AreaRow>)
    requires
        row@.len() == AREA_ROW_READ_LEN,
    ensures
        r == area_row_of(row@),
{
    let id_ptr = read_u64_from(row, 0) as usize;
    let name_ptr = read_u64_from(row, 8) as usize;
    if !plausible_ptr(id_ptr) || !plausible_ptr(name_ptr) {
        return None;
    }
    let act = read_i32_from(row, 0x10);
    if !(-1 <= act && act <= 20) {
        return None;
    }
    let raw_town = row[0x14];
    let has_waypoint = row[0x15];
    if raw_town > 1 || has_waypoint > 1 {
        return None;
    }
    Some(AreaRow { id_ptr, name_ptr, act, raw_town })
}

/// UTF-16 units of a little-endian byte buffer, pair by pair; an odd last byte is dropped.
pub open spec fn units_of(b: Seq<u8>) -> Seq<u16> {
    Seq::new(b.len() / 2, |i: int| (b[2 * i] + 256 * b[2 * i + 1]) as u16)
}

/// Index of the first zero unit, or the length when there is none.
pub open spec fn first_zero_unit(u: Seq<u16>, i: int) -> int
    decreases u.len() - i,
{
    if i < 0 || i >= u.len() {
        u.len() as int
    } else if u[i] == 0 {
        i
    } else {
        first_zero_unit(u, i + 1)
    }
}

/// Decodes the UTF-16 units of a byte buffer.
pub fn utf16_units(bytes: &[u8]) -> (units: Vec<u16>)
    ensures
        units@ == units_of(bytes@),
{
    let mut units: Vec<u16> = Vec::new();
    let len = bytes.len();
    let n = len / 2;
    let mut i: usize = 0;
    while i < n
        invariant
            len == bytes@.len(),
            n == bytes@.len() / 2,
            i <= n,
            units@ =~= units_of(bytes@).take(i as int),
        decreases n - i,
    {
        let u = (bytes[2 * i] as u16) + 256 * (bytes[2 * i + 1] as u16);
        units.push(u);
        i += 1;
    }
    assert(units_of(bytes@).take(n as int) =~= units_of(bytes@));
    units
}

/// Finds the first zero unit.
pub fn find_zero_unit(units: &[u16]) -> (r: usize)
    ensures
        r == first_zero_unit(units@, 0),
        r <= units@.len(),
{
    let mut i: usize = 0;
    while i < units.len() && units[i] != 0
        invariant
            i <= units@.len(),
            first_zero_unit(units@, 0) == first_zero_unit(units@, i as int),
        decreases units@.len() - i,
    {
        i += 1;
    }
    i
}

/// Copies `units[0..n]`.
pub fn unit_prefix(units: &[u16], n: usize) -> (out: Vec<u16>)
    requires
        n <= units@.len(),
    ensures
        out@ == units@.subrange(0, n as int),
{
    let mut out: Vec<u16> = Vec::new();
    let mut i: usize = 0;
    while i < n
        invariant
            i <= n <= units@.len(),
            out@ == units@.subrange(0, i as int),
        decreases n - i,
    {
        out.push(units[i]);
        i += 1;
        assert(out@ =~= units@.subrange(0, i as int));
    }
    out
}

/// A zero-terminated UTF-16 area text in `bytes`: it must end within the buffer and be valid.
pub open spec fn area_text(bytes: Seq<u8>) -> Result<Seq<char>, ProbeErrorModel> {
    let u = units_of(bytes);
    let end = first_zero_unit(u, 0);
    if end >= u.len() {
        Err(probe_error(ErrorKind::InvalidData, "unterminated UTF-16 area text"@))
    } else {
        match utf16_text(u.subrange(0, end)) {
            Some(t) => Ok(t),
            None => Err(probe_error(ErrorKind::InvalidData, "invalid UTF-16 area text"@)),
        }
    }
}

/// A text result with its error as a model.
pub open spec fn text_result_view(r: Result<String, ProbeError>) -> Result<Seq<char>, ProbeErrorModel> {
    match r {
        Ok(s) => Ok(s@),
        Err(e) => Err(e@),
    }
}

/// Decodes a zero-terminated UTF-16 area text.
pub fn read_utf16_z(bytes: &[u8]) -> (r: Result<String, ProbeError>)
    ensures
        text_result_view(r) == area_text(bytes@),
{
    let units = utf16_units(bytes);
    let end = find_zero_unit(units.as_slice());
    if end >= units.len() {
        return Err(error(ErrorKind::InvalidData, "unterminated UTF-16 area text"));
    }
    let prefix = unit_prefix(units.as_slice(), end);
    match utf16_strict(prefix.as_slice()) {
        Some(t) => Ok(t),
        None => Err(error(ErrorKind::InvalidData, "invalid UTF-16 area text")),
    }
}

/// Text fit to show: not empty and without control characters.
pub open spec fn is_valid_text(s: Seq<char>) -> bool {
    s.len() > 0 && forall|i: int| 0 <= i < s.len() ==> !is_control(#[trigger] s[i])
}

/// Decides `is_valid_text`.
pub fn valid_text(value: &str) -> (b: bool)
    ensures
        b == is_valid_text(value@),
{
    let v = chars_of(value);
    if v.len() == 0 {
        return false;
    }
    let mut i: usize = 0;
    while i < v.len()
        invariant
            v@ == value@,
            i <= v@.len(),
            forall|j: int| 0 <= j < i ==> !is_control(#[trigger] v@[j]),
        decreases v@.len() - i,
    {
        if char_is_control(v[i]) {
            return false;
        }
        i += 1;
    }
    true
}

/// `s` with ASCII letters lower-cased.
pub open spec fn lowercase(s: Seq<char>) -> Seq<char> {
    s.map_values(|c: char| ascii_lower(c))
}

/// Whether `needle` occurs in `s` at `i`.
pub open spec fn occurs_at(s: Seq<char>, needle: Seq<char>, i: int) -> bool {
    0 <= i && i + needle.len() <= s.len() && s.subrange(i, i + needle.len()) == needle
}

/// `str::contains`.
pub open spec fn contains_text(s: Seq<char>, needle: Seq<char>) -> bool {
    exists|i: int| occurs_at(s, needle, i)
}

fn lowercase_chars(v: &Vec<char>) -> (out: Vec<char>)
    ensures
        out@ == lowercase(v@),
{
    let mut out: Vec<char> = Vec::new();
    let mut i: usize = 0;
    while i < v.len()
        invariant
            i <= v@.len(),
            out@ =~= lowercase(v@).take(i as int),
        decreases v@.len() - i,
    {
        out.push(to_ascii_lower(v[i]));
        i += 1;
    }
    assert(lowercase(v@).take(v@.len() as int) =~= lowercase(v@));
    out
}

fn contains_chars(v: &Vec<char>, needle: &str) -> (b: bool)
    requires
        needle@.len() > 0,
    ensures
        b == contains_text(v@, needle@),
{
    let w = chars_of(needle);
    if w.len() > v.len() {
        assert forall|i: int| !occurs_at(v@, needle@, i) by {}
        return false;
    }
    let vlen = v.len();
    let last = vlen - w.len();
    let mut i: usize = 0;
    while i <= last
        invariant
            vlen == v@.len(),
            w@ == needle@,
            w@.len() <= v@.len(),
            last == v@.len() - w@.len(),
            w@.len() > 0,
            i <= last + 1,
            forall|j: int| 0 <= j < i ==> !occurs_at(v@, needle@, j),
        decreases last + 1 - i,
    {
        if chars_eq(v.as_slice(), i, i + w.len(), needle) {
            assert(occurs_at(v@, needle@, i as int));
            return true;
        }
        i += 1;
    }
    assert forall|j: int| !occurs_at(v@, needle@, j) by {
        if 0 <= j < i {
        }
    }
    false
}

/// Hub areas that act as towns without the row saying so.
pub open spec fn is_hub_town(id: Seq<char>) -> bool {
    id == "HeistHub"@ || id == "KalguuranSettlersLeague"@
}

/// Hideouts: an id containing `hideout`, but not `map`, in any ASCII case.
pub open spec fn is_hideout_id(id: Seq<char>) -> bool {
    contains_text(lowercase(id), "hideout"@) && !contains_text(lowercase(id), "map"@)
}

/// Whether the area with this id and row town flag is a town.
pub open spec fn is_town_area(id: Seq<char>, raw_town: u8) -> bool {
    raw_town != 0 || is_hub_town(id)
}

/// The area described by a row and its texts, when both texts are fit to show.
pub fn classify_area(
    id: String,
    name: String,
    row: AreaRow,
    world_data_offset: usize,
    world_data: usize,
    area_row: usize,
) -> (r: Option<AreaInfo>)
    ensures
        info_view(r) == area_model(id@, name@, row, world_data_offset, world_data, area_row),
        match r {
            None => !is_valid_text(id@) || !is_valid_text(name@),
            Some(a) => is_valid_text(id@) && is_valid_text(name@) && a.id@ == id@ && a.name@
                == name@ && a.act == row.act && a.is_town == is_town_area(id@, row.raw_town)
                && a.is_hideout == is_hideout_id(id@) && a.world_data_offset == world_data_offset
                && a.world_data == world_data && a.area_row == area_row,
        },
{
    if !valid_text(id.as_str()) || !valid_text(name.as_str()) {
        return None;
    }
    let v = chars_of(id.as_str());
    let is_town = row.raw_town != 0 || chars_eq(v.as_slice(), 0, v.len(), "HeistHub") || chars_eq(
        v.as_slice(),
        0,
        v.len(),
        "KalguuranSettlersLeague",
    );
    assert(v@.subrange(0, v@.len() as int) =~= id@);
    let lower = lowercase_chars(&v);
    proof {
        reveal_strlit("hideout");
        reveal_strlit("map");
    }
    let is_hideout = contains_chars(&lower, "hideout") && !contains_chars(&lower, "map");
    Some(
        AreaInfo {
            id,
            name,
            act: row.act,
            is_town,
            is_hideout,
            world_data_offset,
            world_data,
            area_row,
        },
    )
}

/// `AreaInfo` with its texts as character sequences.
pub struct AreaInfoModel {
    pub id: Seq<char>,
    pub name: Seq<char>,
    pub act: i32,
    pub is_town: bool,
    pub is_hideout: bool,
    pub world_data_offset: usize,
    pub world_data: usize,
    pub area_row: usize,
}

impl View for AreaInfo {
    type V = AreaInfoModel;

    open spec fn view(&self) -> AreaInfoModel {
        AreaInfoModel {
            id: self.id@,
            name: self.name@,
            act: self.act,
            is_town: self.is_town,
            is_hideout: self.is_hideout,
            world_data_offset: self.world_data_offset,
            world_data: self.world_data,
            area_row: self.area_row,
        }
    }
}

pub open spec fn info_view(r: Option<AreaInfo>) -> Option<AreaInfoModel> {
    match r {
        Some(a) => Some(a@),
        None => None,
    }
}

/// The area an area row and its two texts describe, when both texts are fit to show.
pub open spec fn area_model(
    id: Seq<char>,
    name: Seq<char>,
    row: AreaRow,
    world_data_offset: usize,
    world_data: usize,
    area_row: usize,
) -> Option<AreaInfoModel> {
    if is_valid_text(id) && is_valid_text(name) {
        Some(
            AreaInfoModel {
                id,
                name,
                act: row.act,
                is_town: is_town_area(id, row.raw_town),
                is_hideout: is_hideout_id(id),
                world_data_offset,
                world_data,
                area_row,
            },
        )
    } else {
        None
    }
}

/// Offset of the area details pointer in the world data.
pub const WORLD_DATA_AREA_DETAILS: usize = 0x98;

/// Offset of the area row pointer in the area details.
pub const WORLD_AREA_DETAILS_ROW: usize = 0x98;

/// What the area search reads next at the world data offset being tried.
#[derive(Debug, Clone, Copy, PartialEq, Eq, Structural)]
pub enum AreaStage {
    WorldData,
    AreaDetails,
    AreaRow,
    RowBytes,
    IdText,
    NameText,
    Finished,
}

/// What the area search does next.
#[derive(Debug)]
pub enum AreaStep {
    /// Read the pointer-sized value at this address; report it with `word_read` (`None` when the
    /// read failed).
    ReadWord(usize),
    /// Read this many bytes at this address; report them with `bytes_read`.
    ReadBytes(usize, usize),
    /// Finished: the current area, or why it could not be resolved.
    Done(Result<AreaInfo, ProbeError>),
}

pub enum AreaStepModel {
    ReadWord(usize),
    ReadBytes(usize, usize),
    Done(Result<AreaInfoModel, ProbeErrorModel>),
}

impl View for AreaStep {
    type V = AreaStepModel;

    open spec fn view(&self) -> AreaStepModel {
        match self {
            AreaStep::ReadWord(a) => AreaStepModel::ReadWord(*a),
            AreaStep::ReadBytes(a, n) => AreaStepModel::ReadBytes(*a, *n),
            AreaStep::Done(r) => AreaStepModel::Done(
                match r {
                    Ok(a) => Ok(a@),
                    Err(e) => Err(e@),
                },
            ),
        }
    }
}

/// The search for the current area: the in-game state's world data (looked for at the offsets
/// of `world_data_offsets`, the usual one first) leads to the area details and the area's row,
/// whose id and name texts are read. An offset whose chain does not check out gives way to the
/// next.
#[derive(Debug)]
pub struct AreaSearch {
    pub in_game_state: usize,
    pub offsets: Vec<usize>,
    pub index: usize,
    pub stage: AreaStage,
    pub world_data: usize,
    pub area_row: usize,
    pub row: AreaRow,
    pub id: String,
}

pub struct AreaSearchModel {
    pub in_game_state: usize,
    pub offsets: Seq<usize>,
    pub index: usize,
    pub stage: AreaStage,
    pub world_data: usize,
    pub area_row: usize,
    pub row: AreaRow,
    pub id: Seq<char>,
}

impl View for AreaSearch {
    type V = AreaSearchModel;

    open spec fn view(&self) -> AreaSearchModel {
        AreaSearchModel {
            in_game_state: self.in_game_state,
            offsets: self.offsets@,
            index: self.index,
            stage: self.stage,
            world_data: self.world_data,
            area_row: self.area_row,
            row: self.row,
            id: self.id@,
        }
    }
}

impl AreaSearchModel {
    pub open spec fn wf(self) -> bool {
        !(self.stage is Finished) ==> self.index < self.offsets.len()
    }

    /// Tries the world data offset with index `k`, or gives up after the last.
    pub open spec fn begin(self, k: int) -> (AreaSearchModel, AreaStepModel) {
        if 0 <= k < self.offsets.len() {
            (
                AreaSearchModel { index: k as usize, stage: AreaStage::WorldData, ..self },
                AreaStepModel::ReadWord(wrap_add(self.in_game_state, self.offsets[k])),
            )
        } else {
            (
                AreaSearchModel { stage: AreaStage::Finished, ..self },
                AreaStepModel::Done(
                    Err(
                        probe_error(
                            ErrorKind::InvalidData,
                            "current PoE2 area metadata could not be resolved"@,
                        ),
                    ),
                ),
            )
        }
    }

    pub open spec fn next_offset(self) -> (AreaSearchModel, AreaStepModel) {
        self.begin(self.index + 1)
    }

    pub open spec fn fits(self, step: AreaStepModel) -> bool {
        match step {
            AreaStepModel::ReadWord(_) => self.stage is WorldData || self.stage is AreaDetails
                || self.stage is AreaRow,
            AreaStepModel::ReadBytes(_, _) => self.stage is RowBytes || self.stage is IdText
                || self.stage is NameText,
            AreaStepModel::Done(_) => self.stage is Finished,
        }
    }
}

/// The area search after a pointer-sized read gave `v`.
pub open spec fn area_word_step(m: AreaSearchModel, v: Option<usize>) -> (AreaSearchModel, AreaStepModel) {
    match v {
        Some(p) if plausible_address(p as int) => match m.stage {
            AreaStage::WorldData => (
                AreaSearchModel { stage: AreaStage::AreaDetails, world_data: p, ..m },
                AreaStepModel::ReadWord(wrap_add(p, WORLD_DATA_AREA_DETAILS)),
            ),
            AreaStage::AreaDetails => (
                AreaSearchModel { stage: AreaStage::AreaRow, ..m },
                AreaStepModel::ReadWord(wrap_add(p, WORLD_AREA_DETAILS_ROW)),
            ),
            AreaStage::AreaRow => (
                AreaSearchModel { stage: AreaStage::RowBytes, area_row: p, ..m },
                AreaStepModel::ReadBytes(p, AREA_ROW_READ_LEN),
            ),
            _ => m.next_offset(),
        },
        _ => m.next_offset(),
    }
}

/// The area search after a read of bytes gave `bytes` (`None` when it failed).
pub open spec fn area_bytes_step(m: AreaSearchModel, bytes: Option<Seq<u8>>) -> (AreaSearchModel, AreaStepModel) {
    match bytes {
        None => m.next_offset(),
        Some(b) => match m.stage {
            AreaStage::RowBytes => if b.len() != AREA_ROW_READ_LEN {
                m.next_offset()
            } else {
                match area_row_of(b) {
                    None => m.next_offset(),
                    Some(row) => (
                        AreaSearchModel { stage: AreaStage::IdText, row, ..m },
                        AreaStepModel::ReadBytes(row.id_ptr, (2 * MAX_AREA_ID_CHARS) as usize),
                    ),
                }
            },
            AreaStage::IdText => match area_text(b) {
                Err(_) => m.next_offset(),
                Ok(id) => (
                    AreaSearchModel { stage: AreaStage::NameText, id, ..m },
                    AreaStepModel::ReadBytes(m.row.name_ptr, (2 * MAX_AREA_NAME_CHARS) as usize),
                ),
            },
            AreaStage::NameText => match area_text(b) {
                Err(_) => m.next_offset(),
                Ok(name) => match area_model(
                    m.id,
                    name,
                    m.row,
                    m.offsets[m.index as int],
                    m.world_data,
                    m.area_row,
                ) {
                    None => m.next_offset(),
                    Some(a) => (
                        AreaSearchModel { stage: AreaStage::Finished, ..m },
                        AreaStepModel::Done(Ok(a)),
                    ),
                },
            },
            _ => m.next_offset(),
        },
    }
}

impl AreaSearch {
    /// Starts the area search from the in-game state at `in_game_state`.
    pub fn start(in_game_state: usize) -> (r: (AreaSearch, AreaStep))
        ensures
            r.0@.wf(),
            r.0@.fits(r.1@),
            r.0@.in_game_state == in_game_state,
            is_search_order(
                r.0@.offsets,
                IN_GAME_WORLD_DATA as int,
                WORLD_DATA_SEARCH_STEP as int,
                WORLD_DATA_SEARCH_START as int,
                WORLD_DATA_SEARCH_END as int,
            ),
            (r.0@, r.1@) == r.0@.begin(0),
    {
        let mut m = AreaSearch {
            in_game_state,
            offsets: world_data_offsets(),
            index: 0,
            stage: AreaStage::Finished,
            world_data: 0,
            area_row: 0,
            row: AreaRow { id_ptr: 0, name_ptr: 0, act: 0, raw_town: 0 },
            id: String::new(),
        };
        let step = m.begin(0);
        (m, step)
    }

    fn begin(&mut self, k: usize) -> (s: AreaStep)
        ensures
            (final(self)@, s@) == old(self)@.begin(k as int),
            final(self)@.wf(),
            final(self)@.fits(s@),
    {
        if k < self.offsets.len() {
            self.index = k;
            self.stage = AreaStage::WorldData;
            AreaStep::ReadWord(address(self.in_game_state, self.offsets[k]))
        } else {
            self.stage = AreaStage::Finished;
            AreaStep::Done(
                Err(error(ErrorKind::InvalidData, "current PoE2 area metadata could not be resolved")),
            )
        }
    }

    fn next_offset(&mut self) -> (s: AreaStep)
        requires
            old(self)@.index < old(self)@.offsets.len(),
        ensures
            (final(self)@, s@) == old(self)@.next_offset(),
            final(self)@.wf(),
            final(self)@.fits(s@),
    {
        let n = self.offsets.len();
        assert(self.index < n);
        let k = self.index + 1;
        self.begin(k)
    }

    /// A pointer-sized read asked for gave `v`, `None` when it failed.
    pub fn word_read(&mut self, v: Option<usize>) -> (s: AreaStep)
        requires
            old(self)@.wf(),
            old(self)@.stage is WorldData || old(self)@.stage is AreaDetails
                || old(self)@.stage is AreaRow,
        ensures
            (final(self)@, s@) == area_word_step(old(self)@, v),
            final(self)@.wf(),
            final(self)@.fits(s@),
    {
        let p = match v {
            Some(p) => if plausible_ptr(p) {
                p
            } else {
                return self.next_offset();
            },
            None => {
                return self.next_offset();
            },
        };
        match self.stage {
            AreaStage::WorldData => {
                self.stage = AreaStage::AreaDetails;
                self.world_data = p;
                AreaStep::ReadWord(address(p, WORLD_DATA_AREA_DETAILS))
            },
            AreaStage::AreaDetails => {
                self.stage = AreaStage::AreaRow;
                AreaStep::ReadWord(address(p, WORLD_AREA_DETAILS_ROW))
            },
            _ => {
                self.stage = AreaStage::RowBytes;
                self.area_row = p;
                AreaStep::ReadBytes(p, AREA_ROW_READ_LEN)
            },
        }
    }

    /// A read of bytes asked for gave `bytes`, `None` when it failed.
    pub fn bytes_read(&mut self, bytes: Option<Vec<u8>>) -> (s: AreaStep)
        requires
            old(self)@.wf(),
            old(self)@.stage is RowBytes || old(self)@.stage is IdText
                || old(self)@.stage is NameText,
        ensures
            (final(self)@, s@) == area_bytes_step(
                old(self)@,
                match bytes {
                    Some(b) => Some(b@),
                    None => None,
                },
            ),
            final(self)@.wf(),
            final(self)@.fits(s@),
    {
        let b = match bytes {
            Some(b) => b,
            None => {
                return self.next_offset();
            },
        };
        match self.stage {
            AreaStage::RowBytes => {
                if b.len() != AREA_ROW_READ_LEN {
                    return self.next_offset();
                }
                match parse_area_row(b.as_slice()) {
                    None => self.next_offset(),
                    Some(row) => {
                        self.stage = AreaStage::IdText;
                        self.row = row;
                        AreaStep::ReadBytes(row.id_ptr, 2 * MAX_AREA_ID_CHARS)
                    },
                }
            },
            AreaStage::IdText => match read_utf16_z(b.as_slice()) {
                Err(_) => self.next_offset(),
                Ok(id) => {
                    self.stage = AreaStage::NameText;
                    self.id = id;
                    AreaStep::ReadBytes(self.row.name_ptr, 2 * MAX_AREA_NAME_CHARS)
                },
            },
            _ => match read_utf16_z(b.as_slice()) {
                Err(_) => self.next_offset(),
                Ok(name) => {
                    let id = self.id.clone();
                    let offset = self.offsets[self.index];
                    match classify_area(id, name, self.row, offset, self.world_data, self.area_row) {
                        None => self.next_offset(),
                        Some(a) => {
                            self.stage = AreaStage::Finished;
                            AreaStep::Done(Ok(a))
                        },
                    }
                },
            },
        }
    }
}

} // verus!
