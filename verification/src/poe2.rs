//! Life, Mana and Energy Shield pools: the search for the pointer chain that leads to them,
//! and the checks on each sample read through it.

use vstd::prelude::*;

use crate::error::{error, probe_error, result_view, ErrorKind, ProbeError, ProbeErrorModel};
use crate::le::{field, le_signed, read_i32_from};
use crate::offsets::{is_search_order, prioritized_offsets};
use crate::process::PeSection;
use crate::area::{plausible_address, plausible_ptr};
use crate::entity::{address, wrap_add, ENTITY_DETAILS_PTR};
use crate::text::{chars_of, hex_padded, push_hex_padded, push_str, string_from};

verus! {

/// Largest plausible pool total.
pub const MAX_VITAL_TOTAL: i32 = 10_000_000;

/// Longest entity metadata path read, in UTF-16 units.
pub const MAX_METADATA_CHARS: usize = 256;

/// Offset of the flat reservation in a pool's block.
pub const VITAL_RESERVED_FLAT: usize = 0x10;

/// Offset of the fractional reservation in a pool's block.
pub const VITAL_RESERVED_FRACTION: usize = 0x14;

/// Offset of the total in a pool's block.
pub const VITAL_TOTAL: usize = 0x2C;

/// Offset of the current value in a pool's block.
pub const VITAL_CURRENT: usize = 0x30;

/// Bytes read for one pool, from the flat reservation to the current value.
pub const VITAL_READ_LEN: usize = 0x24;

/// One vital pool as the game stores it.
#[derive(Debug, Clone, Copy, PartialEq, Eq, Structural)]
pub struct VitalPool {
    pub current: i32,
    /// Raw total before reservations are removed.
    pub total: i32,
    pub reserved_flat: i32,
    /// Reservation fraction in basis points: 10_000 = 100%.
    pub reserved_fraction: i32,
}

/// Rust's `/` on integers: the quotient rounded toward zero.
pub open spec fn trunc_div(a: int, b: int) -> int {
    if a >= 0 {
        a / b
    } else {
        -((-a) / b)
    }
}

pub open spec fn clamp(x: int, lo: int, hi: int) -> int {
    if x < lo {
        lo
    } else if x > hi {
        hi
    } else {
        x
    }
}

/// The part of `total` that a reservation of `fraction` basis points takes, rounded up.
pub open spec fn fraction_reserve(total: int, fraction: int) -> int {
    trunc_div(total * fraction + 9_999, 10_000)
}

/// The largest value a pool can reach once its reservations are removed.
pub open spec fn usable_max_of(p: VitalPool) -> int {
    clamp(
        p.total - fraction_reserve(p.total as int, p.reserved_fraction as int) - p.reserved_flat,
        0,
        i32::MAX as int,
    )
}

/// A pool whose values a live character can have.
pub open spec fn plausible_pool(p: VitalPool) -> bool {
    &&& 0 < p.total <= MAX_VITAL_TOTAL
    &&& -p.total <= p.current <= p.total + 1
    &&& 0 <= p.reserved_flat <= p.total
    &&& 0 <= p.reserved_fraction <= 10_000
}

/// A plausible pool, or an empty one (a character without Energy Shield).
pub open spec fn plausible_or_empty_pool(p: VitalPool) -> bool {
    (p.total == 0 && p.current == 0 && p.reserved_flat == 0 && 0 <= p.reserved_fraction
        <= 10_000) || plausible_pool(p)
}

impl VitalPool {
    /// The largest value the pool can reach once its reservations are removed, never negative.
    pub fn usable_max(self) -> (m: i32)
        ensures
            m as int == usable_max_of(self),
    {
        let t = self.total as i64;
        let f = self.reserved_fraction as i64;
        assert(-0x4000_0000_0000_0000 <= t * f <= 0x4000_0000_0000_0000) by (nonlinear_arith)
            requires
                -0x8000_0000 <= t <= 0x7FFF_FFFF,
                -0x8000_0000 <= f <= 0x7FFF_FFFF,
        ;
        let numerator = t * f + 9_999;
        let reserved = if numerator >= 0 {
            numerator / 10_000
        } else {
            -((-numerator) / 10_000)
        };
        let raw = t - reserved - self.reserved_flat as i64;
        if raw < 0 {
            0
        } else if raw > i32::MAX as i64 {
            i32::MAX
        } else {
            raw as i32
        }
    }

    /// Whether the pool's values are ones a live character can have.
    pub fn looks_valid(self) -> (b: bool)
        ensures
            b == plausible_pool(self),
    {
        if self.total <= 0 || self.total > MAX_VITAL_TOTAL {
            return false;
        }
        if self.current < -self.total || self.current as i64 > self.total as i64 + 1 {
            return false;
        }
        if self.reserved_flat < 0 || self.reserved_flat > self.total {
            return false;
        }
        0 <= self.reserved_fraction && self.reserved_fraction <= 10_000
    }

    /// Whether the pool is plausible or empty.
    pub fn looks_valid_or_zero(self) -> (b: bool)
        ensures
            b == plausible_or_empty_pool(self),
    {
        (self.total == 0 && self.current == 0 && self.reserved_flat == 0 && 0
            <= self.reserved_fraction && self.reserved_fraction <= 10_000) || self.looks_valid()
    }
}

/// The pool stored in a block of `VITAL_READ_LEN` bytes that starts at its flat reservation.
pub open spec fn pool_in(bytes: Seq<u8>) -> VitalPool {
    VitalPool {
        reserved_flat: le_signed(field(bytes, 0, 4), 32) as i32,
        reserved_fraction: le_signed(
            field(bytes, (VITAL_RESERVED_FRACTION - VITAL_RESERVED_FLAT) as int, 4),
            32,
        ) as i32,
        total: le_signed(field(bytes, (VITAL_TOTAL - VITAL_RESERVED_FLAT) as int, 4), 32) as i32,
        current: le_signed(field(bytes, (VITAL_CURRENT - VITAL_RESERVED_FLAT) as int, 4), 32) as i32,
    }
}

/// Decodes one pool from its block.
pub fn decode_vital(bytes: &[u8]) -> (p: VitalPool)
    requires
        bytes@.len() == VITAL_READ_LEN,
    ensures
        p == pool_in(bytes@),
{
    VitalPool {
        reserved_flat: read_i32_from(bytes, 0),
        reserved_fraction: read_i32_from(bytes, VITAL_RESERVED_FRACTION - VITAL_RESERVED_FLAT),
        total: read_i32_from(bytes, VITAL_TOTAL - VITAL_RESERVED_FLAT),
        current: read_i32_from(bytes, VITAL_CURRENT - VITAL_RESERVED_FLAT),
    }
}

/// Whether a pool found at a candidate offset is accepted: plausible and, where asked, alive.
pub open spec fn acceptable_pool(p: VitalPool, require_positive_current: bool) -> bool {
    plausible_pool(p) && (!require_positive_current || p.current > 0)
}

/// Decides `acceptable_pool`.
pub fn vital_acceptable(p: VitalPool, require_positive_current: bool) -> (b: bool)
    ensures
        b == acceptable_pool(p, require_positive_current),
{
    p.looks_valid() && (!require_positive_current || p.current > 0)
}

/// The pools read from the game in one sample.
#[derive(Debug, Clone, Copy, PartialEq, Eq, Structural)]
pub struct LiveVitals {
    pub health: VitalPool,
    pub mana: Option<VitalPool>,
    pub energy_shield: Option<VitalPool>,
}

/// The resolved pointer chain from the game's state to the local player's pools.
#[derive(Debug, Clone)]
pub struct VitalsProbe {
    pub text_section: PeSection,
    pub aob_match_count: usize,
    pub game_state_slot: usize,
    pub game_state: usize,
    pub in_game_state: usize,
    pub area_instance: usize,
    pub area_instance_offset: usize,
    pub local_player: usize,
    pub local_player_offset: usize,
    pub metadata: String,
    pub life_component: usize,
    pub health_offset: usize,
    pub mana_offset: Option<usize>,
    pub energy_shield_offset: Option<usize>,
    pub health: VitalPool,
    pub mana: Option<VitalPool>,
    pub energy_shield: Option<VitalPool>,
}

/// `base + displacement` as an address, refused when it leaves the address range.
pub open spec fn displaced(base: usize, displacement: i64) -> Result<usize, ProbeErrorModel> {
    let v = base + displacement;
    if 0 <= v <= usize::MAX {
        Ok(v as usize)
    } else {
        Err(probe_error(ErrorKind::InvalidData, "RIP-relative address overflow"@))
    }
}

/// Adds a signed displacement to an address.
pub fn add_signed(base: usize, displacement: i64) -> (r: Result<usize, ProbeError>)
    ensures
        result_view(r) == displaced(base, displacement),
{
    let value = base as i128 + displacement as i128;
    if value < 0 || value > usize::MAX as i128 {
        return Err(error(ErrorKind::InvalidData, "RIP-relative address overflow"));
    }
    Ok(value as usize)
}

/// Where the characters of an MSVC wide string of `len` units are: `None` when the length is
/// implausible, `Some(true)` when they are behind a pointer, `Some(false)` when they are inline.
pub open spec fn wide_string_layout(len: i32) -> Option<bool> {
    if len <= 0 || len > MAX_METADATA_CHARS {
        None
    } else {
        Some(len >= 8)
    }
}

/// Decides `wide_string_layout`.
pub fn wstring_layout(len: i32) -> (r: Option<bool>)
    ensures
        r == wide_string_layout(len),
{
    if len <= 0 || len as usize > MAX_METADATA_CHARS {
        None
    } else {
        Some(len >= 8)
    }
}

/// Whether an entity's metadata path names a player character.
pub fn is_character_metadata(metadata: &str) -> (b: bool)
    ensures
        b == ("Metadata/Characters/"@.is_prefix_of(metadata@)),
{
    let v = chars_of(metadata);
    let p = chars_of("Metadata/Characters/");
    if v.len() < p.len() {
        return false;
    }
    let mut i: usize = 0;
    while i < p.len()
        invariant
            i <= p@.len() <= v@.len(),
            p@ == "Metadata/Characters/"@,
            v@ == metadata@,
            forall|j: int| 0 <= j < i ==> p@[j] == v@[j],
        decreases p@.len() - i,
    {
        if p[i] != v[i] {
            return false;
        }
        i += 1;
    }
    true
}

/// The pointer identities a sample checks before trusting the pools.
#[derive(Debug, Clone, Copy, PartialEq, Eq, Structural)]
pub enum Identity {
    AreaInstance,
    LocalPlayer,
}

pub open spec fn identity_name(which: Identity) -> Seq<char> {
    match which {
        Identity::AreaInstance => "AreaInstance"@,
        Identity::LocalPlayer => "LocalPlayer"@,
    }
}

/// A pointer read for an identity check: missing is invalid data, a different one means the
/// game moved on.
pub open spec fn identity_result(read: Option<usize>, expected: usize, which: Identity) -> Result<
    usize,
    ProbeErrorModel,
> {
    match read {
        None => Err(probe_error(ErrorKind::InvalidData, identity_name(which) + " is unavailable"@)),
        Some(v) => if v != expected {
            Err(probe_error(ErrorKind::Interrupted, identity_name(which) + " changed"@))
        } else {
            Ok(v)
        },
    }
}

/// Checks a pointer read against the one resolved earlier.
pub fn check_identity(read: Option<usize>, expected: usize, which: Identity) -> (r: Result<
    usize,
    ProbeError,
>)
    ensures
        result_view(r) == identity_result(read, expected, which),
{
    let name = match which {
        Identity::AreaInstance => "AreaInstance",
        Identity::LocalPlayer => "LocalPlayer",
    };
    match read {
        None => {
            let mut m = string_from(name);
            crate::text::push_str(&mut m, " is unavailable");
            Err(ProbeError { kind: ErrorKind::InvalidData, message: m })
        },
        Some(v) => {
            if v != expected {
                let mut m = string_from(name);
                crate::text::push_str(&mut m, " changed");
                Err(ProbeError { kind: ErrorKind::Interrupted, message: m })
            } else {
                Ok(v)
            }
        },
    }
}

/// The pools a sample reads.
#[derive(Debug, Clone, Copy, PartialEq, Eq, Structural)]
pub enum PoolKind {
    Health,
    Mana,
    EnergyShield,
}

pub open spec fn pool_name(which: PoolKind) -> Seq<char> {
    match which {
        PoolKind::Health => "health"@,
        PoolKind::Mana => "mana"@,
        PoolKind::EnergyShield => "energy-shield"@,
    }
}

/// A pool read in a sample: it must be readable and pass its sanity check; Energy Shield may
/// also be empty.
pub open spec fn pool_result(read: Option<VitalPool>, which: PoolKind) -> Result<
    VitalPool,
    ProbeErrorModel,
> {
    match read {
        None => Err(probe_error(ErrorKind::InvalidData, pool_name(which) + " pool is unreadable"@)),
        Some(p) => if (which == PoolKind::EnergyShield && !plausible_or_empty_pool(p)) || (which
            != PoolKind::EnergyShield && !plausible_pool(p)) {
            Err(
                probe_error(
                    ErrorKind::InvalidData,
                    pool_name(which) + " pool failed sanity validation"@,
                ),
            )
        } else {
            Ok(p)
        },
    }
}

/// Checks one pool read in a sample.
pub fn check_pool(read: Option<VitalPool>, which: PoolKind) -> (r: Result<VitalPool, ProbeError>)
    ensures
        result_view(r) == pool_result(read, which),
{
    let name = match which {
        PoolKind::Health => "health",
        PoolKind::Mana => "mana",
        PoolKind::EnergyShield => "energy-shield",
    };
    match read {
        None => {
            let mut m = string_from(name);
            crate::text::push_str(&mut m, " pool is unreadable");
            Err(ProbeError { kind: ErrorKind::InvalidData, message: m })
        },
        Some(p) => {
            let ok = match which {
                PoolKind::EnergyShield => p.looks_valid_or_zero(),
                _ => p.looks_valid(),
            };
            if !ok {
                let mut m = string_from(name);
                crate::text::push_str(&mut m, " pool failed sanity validation");
                Err(ProbeError { kind: ErrorKind::InvalidData, message: m })
            } else {
                Ok(p)
            }
        },
    }
}

/// Adds `x` to `v` unless it is already there.
pub fn push_unique(v: &mut Vec<usize>, x: usize)
    ensures
        final(v)@ == (if old(v)@.contains(x) {
            old(v)@
        } else {
            old(v)@.push(x)
        }),
{
    let mut i: usize = 0;
    while i < v.len()
        invariant
            i <= v@.len(),
            v@ == old(v)@,
            forall|j: int| 0 <= j < i ==> v@[j] != x,
        decreases v@.len() - i,
    {
        if v[i] == x {
            return ;
        }
        i += 1;
    }
    v.push(x);
}

/// The usual offset of the area instance pointer in the in-game state.
pub const IN_GAME_STATE_AREA_INSTANCE: usize = 0x2A0;

/// The usual offset of the local player pointer in the area instance.
pub const AREA_INSTANCE_LOCAL_PLAYER: usize = 0x5D0;

/// One place where the local player may be found: an in-game state, the offset of its area
/// instance pointer, and the offset of the local player pointer in that area instance.
#[derive(Debug, Clone, Copy, PartialEq, Eq, Structural)]
pub struct ChainAttempt {
    pub in_game_state: usize,
    pub area_offset: usize,
    pub player_offset: usize,
}

/// `ps` without the occurrences of `x`, in order.
pub open spec fn without(ps: Seq<usize>, x: usize) -> Seq<usize>
    decreases ps.len(),
{
    if ps.len() == 0 {
        Seq::empty()
    } else if ps.last() == x {
        without(ps.drop_last(), x)
    } else {
        without(ps.drop_last(), x).push(ps.last())
    }
}

/// The attempts with state `s` and area offset `a`, one for each player offset of `ps`.
pub open spec fn attempt_row(s: usize, a: usize, ps: Seq<usize>) -> Seq<ChainAttempt> {
    ps.map_values(|p: usize| ChainAttempt { in_game_state: s, area_offset: a, player_offset: p })
}

/// The attempts with state `s`: for each area offset of `areas`, every player offset of `ps`.
pub open spec fn attempt_block(s: usize, areas: Seq<usize>, ps: Seq<usize>) -> Seq<ChainAttempt>
    decreases areas.len(),
{
    if areas.len() == 0 {
        Seq::empty()
    } else {
        attempt_block(s, areas.drop_last(), ps) + attempt_row(s, areas.last(), ps)
    }
}

/// First pass: every state with the usual offsets.
pub open spec fn usual_pass(states: Seq<usize>) -> Seq<ChainAttempt>
    decreases states.len(),
{
    if states.len() == 0 {
        Seq::empty()
    } else {
        usual_pass(states.drop_last()).push(
            ChainAttempt {
                in_game_state: states.last(),
                area_offset: IN_GAME_STATE_AREA_INSTANCE,
                player_offset: AREA_INSTANCE_LOCAL_PLAYER,
            },
        )
    }
}

/// Second pass: every state with the usual area offset and the other player offsets.
pub open spec fn player_pass(states: Seq<usize>, players: Seq<usize>) -> Seq<ChainAttempt>
    decreases states.len(),
{
    if states.len() == 0 {
        Seq::empty()
    } else {
        player_pass(states.drop_last(), players) + attempt_row(
            states.last(),
            IN_GAME_STATE_AREA_INSTANCE,
            without(players, AREA_INSTANCE_LOCAL_PLAYER),
        )
    }
}

/// Third pass: every state with each other area offset and every player offset.
pub open spec fn area_pass(states: Seq<usize>, areas: Seq<usize>, players: Seq<usize>) -> Seq<ChainAttempt>
    decreases states.len(),
{
    if states.len() == 0 {
        Seq::empty()
    } else {
        area_pass(states.drop_last(), areas, players) + attempt_block(
            states.last(),
            without(areas, IN_GAME_STATE_AREA_INSTANCE),
            players,
        )
    }
}

/// The offsets at which the local player pointer is looked for.
pub open spec fn player_search(players: Seq<usize>) -> bool {
    is_search_order(players, AREA_INSTANCE_LOCAL_PLAYER as int, 8, 0x560, 0x640)
}

/// The offsets at which the area instance pointer is looked for.
pub open spec fn area_search(areas: Seq<usize>) -> bool {
    is_search_order(areas, IN_GAME_STATE_AREA_INSTANCE as int, 8, 0x250, 0x2D0)
}

fn without_value(v: &Vec<usize>, x: usize) -> (out: Vec<usize>)
    ensures
        out@ == without(v@, x),
{
    let mut out: Vec<usize> = Vec::new();
    let mut i: usize = 0;
    while i < v.len()
        invariant
            i <= v@.len(),
            out@ == without(v@.take(i as int), x),
        decreases v@.len() - i,
    {
        assert(v@.take(i + 1).drop_last() =~= v@.take(i as int));
        if v[i] != x {
            out.push(v[i]);
        }
        i += 1;
    }
    assert(v@.take(v@.len() as int) =~= v@);
    out
}

fn push_row(out: &mut Vec<ChainAttempt>, s: usize, a: usize, ps: &Vec<usize>)
    ensures
        final(out)@ == old(out)@ + attempt_row(s, a, ps@),
{
    let ghost start = out@;
    let mut i: usize = 0;
    while i < ps.len()
        invariant
            i <= ps@.len(),
            out@ == start + attempt_row(s, a, ps@.take(i as int)),
        decreases ps@.len() - i,
    {
        out.push(ChainAttempt { in_game_state: s, area_offset: a, player_offset: ps[i] });
        assert(attempt_row(s, a, ps@.take(i + 1)) =~= attempt_row(s, a, ps@.take(i as int)).push(
            ChainAttempt { in_game_state: s, area_offset: a, player_offset: ps@[i as int] },
        ));
        i += 1;
    }
    assert(ps@.take(ps@.len() as int) =~= ps@);
}

fn push_block(out: &mut Vec<ChainAttempt>, s: usize, areas: &Vec<usize>, ps: &Vec<usize>)
    ensures
        final(out)@ == old(out)@ + attempt_block(s, areas@, ps@),
{
    let ghost start = out@;
    let mut i: usize = 0;
    while i < areas.len()
        invariant
            i <= areas@.len(),
            out@ == start + attempt_block(s, areas@.take(i as int), ps@),
        decreases areas@.len() - i,
    {
        assert(areas@.take(i + 1).drop_last() =~= areas@.take(i as int));
        push_row(out, s, areas[i], ps);
        proof {
            assert(attempt_block(s, areas@.take(i + 1), ps@) == attempt_block(
                s,
                areas@.take(i as int),
                ps@,
            ) + attempt_row(s, areas@[i as int], ps@));
            assert(out@ =~= start + attempt_block(s, areas@.take(i + 1), ps@));
        }
        i += 1;
    }
    assert(areas@.take(areas@.len() as int) =~= areas@);
}

/// Every place the local player is looked for, in the order they are tried: each in-game
/// state with the usual offsets; then each state with the usual area offset and every other
/// player offset; then each state with every other area offset and every player offset. The
/// offsets are tried nearest to the usual one first.
pub fn chain_attempts(states: &Vec<usize>) -> (out: Vec<ChainAttempt>)
    ensures
        exists|areas: Seq<usize>, players: Seq<usize>|
            area_search(areas) && player_search(players) && out@ == usual_pass(states@) + player_pass(
                states@,
                players,
            ) + area_pass(states@, areas, players),
{
    let players = prioritized_offsets(AREA_INSTANCE_LOCAL_PLAYER, 0x560, 0x640, 8);
    let areas = prioritized_offsets(IN_GAME_STATE_AREA_INSTANCE, 0x250, 0x2D0, 8);
    let other_players = without_value(&players, AREA_INSTANCE_LOCAL_PLAYER);
    let other_areas = without_value(&areas, IN_GAME_STATE_AREA_INSTANCE);
    let mut out: Vec<ChainAttempt> = Vec::new();
    let mut i: usize = 0;
    while i < states.len()
        invariant
            i <= states@.len(),
            out@ == usual_pass(states@.take(i as int)),
        decreases states@.len() - i,
    {
        assert(states@.take(i + 1).drop_last() =~= states@.take(i as int));
        out.push(
            ChainAttempt {
                in_game_state: states[i],
                area_offset: IN_GAME_STATE_AREA_INSTANCE,
                player_offset: AREA_INSTANCE_LOCAL_PLAYER,
            },
        );
        i += 1;
    }
    assert(states@.take(states@.len() as int) =~= states@);
    let ghost first = out@;
    let mut i: usize = 0;
    while i < states.len()
        invariant
            i <= states@.len(),
            other_players@ == without(players@, AREA_INSTANCE_LOCAL_PLAYER),
            out@ == first + player_pass(states@.take(i as int), players@),
        decreases states@.len() - i,
    {
        assert(states@.take(i + 1).drop_last() =~= states@.take(i as int));
        push_row(&mut out, states[i], IN_GAME_STATE_AREA_INSTANCE, &other_players);
        assert(out@ =~= first + player_pass(states@.take(i + 1), players@));
        i += 1;
    }
    let ghost second = out@;
    let mut i: usize = 0;
    while i < states.len()
        invariant
            i <= states@.len(),
            other_areas@ == without(areas@, IN_GAME_STATE_AREA_INSTANCE),
            out@ == second + area_pass(states@.take(i as int), areas@, players@),
        decreases states@.len() - i,
    {
        assert(states@.take(i + 1).drop_last() =~= states@.take(i as int));
        push_block(&mut out, states[i], &other_areas, &players);
        assert(out@ =~= second + area_pass(states@.take(i + 1), areas@, players@));
        i += 1;
    }
    assert(out@ == usual_pass(states@) + player_pass(states@, players@) + area_pass(
        states@,
        areas@,
        players@,
    ));
    out
}

/// The offsets around `configured` at which a vital pool is looked for, `configured` first and
/// then outward in steps of 4, from 0x20 below it to 0x40 above it.
pub fn vital_offsets(configured: usize) -> (offsets: Vec<usize>)
    requires
        configured + 0x40 <= usize::MAX,
    ensures
        is_search_order(
            offsets@,
            configured as int,
            4,
            (if configured >= 0x20 {
                configured - 0x20
            } else {
                0
            }),
            configured + 0x40,
        ),
        offsets@.len() > 0 && offsets@[0] == configured,
{
    let start = configured.saturating_sub(0x20);
    let offsets = prioritized_offsets(configured, start, configured + 0x40, 4);
    proof {
        crate::laws::lemma_search_starts_at_center(offsets@, configured, 4, start, (configured
            + 0x40) as usize);
    }
    offsets
}

/// The signature of the code that loads the global game-state slot: a RIP-relative compare, a
/// conditional jump, a call and the stable instructions after it. Operands that change between
/// builds are left open.
pub open spec fn game_state_signature() -> Seq<Option<u8>> {
    seq![
        Some(0x48u8),
        Some(0x39u8),
        Some(0x2Du8),
        None,
        None,
        None,
        None,
        Some(0x0Fu8),
        Some(0x85u8),
        None,
        None,
        None,
        None,
        Some(0xB9u8),
        None,
        None,
        None,
        None,
        Some(0xE8u8),
        None,
        None,
        None,
        None,
        Some(0x48u8),
        Some(0x8Bu8),
        Some(0xF8u8),
        Some(0x48u8),
        Some(0x89u8),
        Some(0x44u8),
        Some(0x24u8),
        Some(0x50u8)
    ]
}

/// The game-state signature as a scan pattern.
pub fn game_state_pattern() -> (p: Vec<Option<u8>>)
    ensures
        p@ == game_state_signature(),
{
    let mut p: Vec<Option<u8>> = Vec::new();
    p.push(Some(0x48));
    p.push(Some(0x39));
    p.push(Some(0x2D));
    p.push(None);
    p.push(None);
    p.push(None);
    p.push(None);
    p.push(Some(0x0F));
    p.push(Some(0x85));
    p.push(None);
    p.push(None);
    p.push(None);
    p.push(None);
    p.push(Some(0xB9));
    p.push(None);
    p.push(None);
    p.push(None);
    p.push(None);
    p.push(Some(0xE8));
    p.push(None);
    p.push(None);
    p.push(None);
    p.push(None);
    p.push(Some(0x48));
    p.push(Some(0x8B));
    p.push(Some(0xF8));
    p.push(Some(0x48));
    p.push(Some(0x89));
    p.push(Some(0x44));
    p.push(Some(0x24));
    p.push(Some(0x50));
    assert(p@ =~= game_state_signature());
    p
}

/// What one sample of the pools read: the area instance pointer, the local player pointer read
/// through the resolved area instance, and the pools at the resolved offsets. `None` stands for
/// a failed read, and for a pool the probe has no offset for.
#[derive(Debug, Clone, Copy, PartialEq, Eq, Structural)]
pub struct VitalsReads {
    pub area_instance: Option<usize>,
    pub local_player: Option<usize>,
    pub health: Option<VitalPool>,
    pub mana: Option<VitalPool>,
    pub energy_shield: Option<VitalPool>,
}

/// A pool the probe may have no offset for: absent without an offset, checked with one.
pub open spec fn optional_pool_result(has_offset: bool, read: Option<VitalPool>, which: PoolKind) -> Result<
    Option<VitalPool>,
    ProbeErrorModel,
> {
    if !has_offset {
        Ok(None)
    } else {
        match pool_result(read, which) {
            Ok(p) => Ok(Some(p)),
            Err(e) => Err(e),
        }
    }
}

/// The outcome of a sample: the area instance and the local player must still be the resolved
/// ones, Life must pass its checks, and Mana and Energy Shield theirs where the probe has them;
/// the first failing check gives the error.
pub open spec fn vitals_sample_result(probe: VitalsProbe, reads: VitalsReads) -> Result<
    LiveVitals,
    ProbeErrorModel,
> {
    match identity_result(reads.area_instance, probe.area_instance, Identity::AreaInstance) {
        Err(e) => Err(e),
        Ok(_) => match identity_result(reads.local_player, probe.local_player, Identity::LocalPlayer) {
            Err(e) => Err(e),
            Ok(_) => match pool_result(reads.health, PoolKind::Health) {
                Err(e) => Err(e),
                Ok(health) => match optional_pool_result(
                    probe.mana_offset is Some,
                    reads.mana,
                    PoolKind::Mana,
                ) {
                    Err(e) => Err(e),
                    Ok(mana) => match optional_pool_result(
                        probe.energy_shield_offset is Some,
                        reads.energy_shield,
                        PoolKind::EnergyShield,
                    ) {
                        Err(e) => Err(e),
                        Ok(energy_shield) => Ok(LiveVitals { health, mana, energy_shield }),
                    },
                },
            },
        },
    }
}

fn check_optional_pool(has_offset: bool, read: Option<VitalPool>, which: PoolKind) -> (r: Result<
    Option<VitalPool>,
    ProbeError,
>)
    ensures
        result_view(r) == optional_pool_result(has_offset, read, which),
{
    if !has_offset {
        return Ok(None);
    }
    match check_pool(read, which) {
        Ok(p) => Ok(Some(p)),
        Err(e) => Err(e),
    }
}

/// Checks one sample of the pools against the probe it was read with. Stale pointers fail
/// closed: a changed area instance or local player is reported as interrupted.
pub fn check_vitals_sample(probe: &VitalsProbe, reads: VitalsReads) -> (r: Result<LiveVitals, ProbeError>)
    ensures
        result_view(r) == vitals_sample_result(*probe, reads),
{
    match check_identity(reads.area_instance, probe.area_instance, Identity::AreaInstance) {
        Err(e) => {
            return Err(e);
        },
        Ok(_) => {},
    }
    match check_identity(reads.local_player, probe.local_player, Identity::LocalPlayer) {
        Err(e) => {
            return Err(e);
        },
        Ok(_) => {},
    }
    let health = match check_pool(reads.health, PoolKind::Health) {
        Err(e) => {
            return Err(e);
        },
        Ok(h) => h,
    };
    let mana = match check_optional_pool(probe.mana_offset.is_some(), reads.mana, PoolKind::Mana) {
        Err(e) => {
            return Err(e);
        },
        Ok(m) => m,
    };
    let energy_shield = match check_optional_pool(
        probe.energy_shield_offset.is_some(),
        reads.energy_shield,
        PoolKind::EnergyShield,
    ) {
        Err(e) => {
            return Err(e);
        },
        Ok(es) => es,
    };
    Ok(LiveVitals { health, mana, energy_shield })
}

/// Offset of the metadata string in the entity details.
pub const ENTITY_DETAILS_NAME: usize = 0x08;

/// The usual offset of the Life pool in the Life component.
pub const LIFE_HEALTH: usize = 0x1B0;

/// The usual offset of the Mana pool in the Life component.
pub const LIFE_MANA: usize = 0x208;

/// The usual offset of the Energy Shield pool in the Life component.
pub const LIFE_ENERGY_SHIELD: usize = 0x248;

/// What the player chain search reads next in its current attempt.
#[derive(Debug, Clone, Copy, PartialEq, Eq, Structural)]
pub enum ChainStage {
    AreaInstance,
    LocalPlayer,
    Details,
    /// The length of the metadata string.
    NameLength,
    /// The heap pointer of a long metadata string.
    NameHeap,
    NameText,
    Life,
    /// The Life pool at the Life offset with this index.
    Health(usize),
    /// The Mana pool at the Mana offset with this index.
    Mana(usize),
    /// The Energy Shield pool at the Energy Shield offset with this index.
    EnergyShield(usize),
    Finished,
}

/// What the player chain search does next.
#[derive(Debug)]
pub enum ChainStep {
    /// Read the pointer-sized value at this address; report it with `word_read` (`None` when
    /// the read failed).
    ReadWord(usize),
    /// Read the 32-bit value at this address; report it with `int_read`.
    ReadInt(usize),
    /// Read this many UTF-16 units at this address and decode them leniently; report the text
    /// with `text_read`.
    ReadText(usize, usize),
    /// Find the Life component of this entity; report it with `life_found`.
    FindLife(usize),
    /// Read the vital pool whose record is at this address; report it with `pool_read`.
    ReadPool(usize),
    /// Finished: the resolved chain, or why none was found.
    Done(Result<VitalsProbe, ProbeError>),
}

/// The search for the local player's Life component through the in-game states, trying the
/// places of `chain_attempts` in order: an attempt that cannot be followed gives way to the
/// next. An attempt needs a character's metadata, a Life component and a Life pool; Mana and
/// Energy Shield pools are optional.
#[derive(Debug)]
pub struct ChainSearch {
    pub text_section: PeSection,
    pub aob_match_count: usize,
    pub game_state_slot: usize,
    pub game_state: usize,
    pub attempts: Vec<ChainAttempt>,
    pub health_offsets: Vec<usize>,
    pub mana_offsets: Vec<usize>,
    pub shield_offsets: Vec<usize>,
    /// The attempt in progress.
    pub index: usize,
    pub stage: ChainStage,
    pub area_instance: usize,
    pub local_player: usize,
    pub details: usize,
    pub name_len: usize,
    pub metadata: String,
    pub life_component: usize,
    pub health_offset: usize,
    pub health: VitalPool,
    pub mana: Option<(usize, VitalPool)>,
}

pub struct ChainModel {
    pub text_section: PeSection,
    pub aob_match_count: usize,
    pub game_state_slot: usize,
    pub game_state: usize,
    pub attempts: Seq<ChainAttempt>,
    pub health_offsets: Seq<usize>,
    pub mana_offsets: Seq<usize>,
    pub shield_offsets: Seq<usize>,
    pub index: usize,
    pub stage: ChainStage,
    pub area_instance: usize,
    pub local_player: usize,
    pub details: usize,
    pub name_len: usize,
    pub metadata: String,
    pub life_component: usize,
    pub health_offset: usize,
    pub health: VitalPool,
    pub mana: Option<(usize, VitalPool)>,
}

pub enum ChainStepModel {
    ReadWord(usize),
    ReadInt(usize),
    ReadText(usize, usize),
    FindLife(usize),
    ReadPool(usize),
    Done(Result<VitalsProbe, ProbeErrorModel>),
}

impl View for ChainSearch {
    type V = ChainModel;

    open spec fn view(&self) -> ChainModel {
        ChainModel {
            text_section: self.text_section,
            aob_match_count: self.aob_match_count,
            game_state_slot: self.game_state_slot,
            game_state: self.game_state,
            attempts: self.attempts@,
            health_offsets: self.health_offsets@,
            mana_offsets: self.mana_offsets@,
            shield_offsets: self.shield_offsets@,
            index: self.index,
            stage: self.stage,
            area_instance: self.area_instance,
            local_player: self.local_player,
            details: self.details,
            name_len: self.name_len,
            metadata: self.metadata,
            life_component: self.life_component,
            health_offset: self.health_offset,
            health: self.health,
            mana: self.mana,
        }
    }
}

impl View for ChainStep {
    type V = ChainStepModel;

    open spec fn view(&self) -> ChainStepModel {
        match self {
            ChainStep::ReadWord(a) => ChainStepModel::ReadWord(*a),
            ChainStep::ReadInt(a) => ChainStepModel::ReadInt(*a),
            ChainStep::ReadText(a, n) => ChainStepModel::ReadText(*a, *n),
            ChainStep::FindLife(e) => ChainStepModel::FindLife(*e),
            ChainStep::ReadPool(a) => ChainStepModel::ReadPool(*a),
            ChainStep::Done(r) => ChainStepModel::Done(result_view(*r)),
        }
    }
}

impl VitalsProbe {
    /// The pools found with the chain pass their checks: Life with a positive current value,
    /// Mana when there is one, and Energy Shield (which may be empty) when there is one.
    pub open spec fn current_pools_checked(self) -> bool {
        &&& acceptable_pool(self.health, true)
        &&& self.mana matches Some(m) ==> acceptable_pool(m, false)
        &&& self.energy_shield matches Some(e) ==> plausible_or_empty_pool(e)
    }
}

/// The error when no attempt leads to a local player with a Life pool.
pub open spec fn no_chain_error(game_state: usize) -> ProbeErrorModel {
    probe_error(
        ErrorKind::InvalidData,
        "GameState resolved at 0x"@ + hex_padded(game_state as nat, 16)
            + ", but no validated local player/Life chain was found"@,
    )
}

/// The offset of a found pool, if any.
pub open spec fn found_offset(found: Option<(usize, VitalPool)>) -> Option<usize> {
    match found {
        Some((o, _)) => Some(o),
        None => None,
    }
}

/// The found pool, if any.
pub open spec fn found_pool(found: Option<(usize, VitalPool)>) -> Option<VitalPool> {
    match found {
        Some((_, p)) => Some(p),
        None => None,
    }
}

impl ChainModel {
    /// The search's invariant: the attempt and the pool offsets in progress exist.
    pub open spec fn wf(self) -> bool {
        &&& !(self.stage is Finished) ==> self.index < self.attempts.len()
        &&& self.stage matches ChainStage::Health(i) ==> i < self.health_offsets.len()
        &&& self.stage matches ChainStage::Mana(i) ==> i < self.mana_offsets.len()
        &&& self.stage matches ChainStage::EnergyShield(i) ==> i < self.shield_offsets.len()
        &&& (self.stage is Life || self.stage is Health || self.stage is Mana
            || self.stage is EnergyShield) ==> "Metadata/Characters/"@.is_prefix_of(self.metadata@)
        &&& (self.stage is Mana || self.stage is EnergyShield) ==> acceptable_pool(self.health, true)
        &&& self.stage is EnergyShield ==> (self.mana matches Some((_, p)) ==> acceptable_pool(p, false))
    }

    pub open spec fn attempt(self) -> ChainAttempt {
        self.attempts[self.index as int]
    }

    /// The probe the current attempt resolved, with the Energy Shield pool found.
    pub open spec fn probe(self, shield: Option<(usize, VitalPool)>) -> VitalsProbe {
        VitalsProbe {
            text_section: self.text_section,
            aob_match_count: self.aob_match_count,
            game_state_slot: self.game_state_slot,
            game_state: self.game_state,
            in_game_state: self.attempt().in_game_state,
            area_instance: self.area_instance,
            area_instance_offset: self.attempt().area_offset,
            local_player: self.local_player,
            local_player_offset: self.attempt().player_offset,
            metadata: self.metadata,
            life_component: self.life_component,
            health_offset: self.health_offset,
            mana_offset: found_offset(self.mana),
            energy_shield_offset: found_offset(shield),
            health: self.health,
            mana: found_pool(self.mana),
            energy_shield: found_pool(shield),
        }
    }

    /// Starts the attempt with index `k`, or gives up after the last.
    pub open spec fn begin(self, k: int) -> (ChainModel, ChainStepModel) {
        if 0 <= k < self.attempts.len() {
            (
                ChainModel { index: k as usize, stage: ChainStage::AreaInstance, ..self },
                ChainStepModel::ReadWord(
                    wrap_add(self.attempts[k].in_game_state, self.attempts[k].area_offset),
                ),
            )
        } else {
            (
                ChainModel { stage: ChainStage::Finished, ..self },
                ChainStepModel::Done(Err(no_chain_error(self.game_state))),
            )
        }
    }

    /// Gives up the current attempt.
    pub open spec fn next_attempt(self) -> (ChainModel, ChainStepModel) {
        self.begin(self.index + 1)
    }

    /// Starts looking for the Mana pool.
    pub open spec fn to_mana(self) -> (ChainModel, ChainStepModel) {
        (
            ChainModel { stage: ChainStage::Mana(0), ..self },
            ChainStepModel::ReadPool(wrap_add(self.life_component, self.mana_offsets[0])),
        )
    }

    /// Starts looking for the Energy Shield pool.
    pub open spec fn to_shield(self) -> (ChainModel, ChainStepModel) {
        (
            ChainModel { stage: ChainStage::EnergyShield(0), ..self },
            ChainStepModel::ReadPool(wrap_add(self.life_component, self.shield_offsets[0])),
        )
    }

    /// Each step's read matches what the search expects next.
    pub open spec fn fits(self, step: ChainStepModel) -> bool {
        match step {
            ChainStepModel::ReadWord(_) => self.stage is AreaInstance || self.stage is LocalPlayer
                || self.stage is Details || self.stage is NameHeap,
            ChainStepModel::ReadInt(_) => self.stage is NameLength,
            ChainStepModel::ReadText(_, _) => self.stage is NameText,
            ChainStepModel::FindLife(_) => self.stage is Life,
            ChainStepModel::ReadPool(_) => self.stage is Health || self.stage is Mana
                || self.stage is EnergyShield,
            ChainStepModel::Done(_) => self.stage is Finished,
        }
    }
}

/// The search after a pointer-sized read gave `v`.
pub open spec fn chain_word_step(m: ChainModel, v: Option<usize>) -> (ChainModel, ChainStepModel) {
    let p = match v {
        Some(x) => if plausible_address(x as int) {
            Some(x)
        } else {
            None
        },
        None => None,
    };
    match m.stage {
        ChainStage::AreaInstance => match p {
            None => m.next_attempt(),
            Some(a) => (
                ChainModel { stage: ChainStage::LocalPlayer, area_instance: a, ..m },
                ChainStepModel::ReadWord(wrap_add(a, m.attempt().player_offset)),
            ),
        },
        ChainStage::LocalPlayer => match p {
            None => m.next_attempt(),
            Some(pl) => (
                ChainModel { stage: ChainStage::Details, local_player: pl, ..m },
                ChainStepModel::ReadWord(wrap_add(pl, ENTITY_DETAILS_PTR)),
            ),
        },
        ChainStage::Details => match p {
            None => m.next_attempt(),
            Some(d) => (
                ChainModel { stage: ChainStage::NameLength, details: d, ..m },
                ChainStepModel::ReadInt(wrap_add(wrap_add(d, ENTITY_DETAILS_NAME), 0x10)),
            ),
        },
        ChainStage::NameHeap => match p {
            None => m.next_attempt(),
            Some(h) => (
                ChainModel { stage: ChainStage::NameText, ..m },
                ChainStepModel::ReadText(h, m.name_len),
            ),
        },
        _ => (m, ChainStepModel::Done(Err(no_chain_error(m.game_state)))),
    }
}

/// The search after the metadata length read gave `v`: a short string is stored in place, a
/// long one behind a pointer.
pub open spec fn chain_int_step(m: ChainModel, v: Option<i32>) -> (ChainModel, ChainStepModel) {
    match m.stage {
        ChainStage::NameLength => match v {
            None => m.next_attempt(),
            Some(len) => match wide_string_layout(len) {
                None => m.next_attempt(),
                Some(heap) => if heap {
                    (
                        ChainModel { stage: ChainStage::NameHeap, name_len: len as usize, ..m },
                        ChainStepModel::ReadWord(wrap_add(m.details, ENTITY_DETAILS_NAME)),
                    )
                } else {
                    (
                        ChainModel { stage: ChainStage::NameText, name_len: len as usize, ..m },
                        ChainStepModel::ReadText(wrap_add(m.details, ENTITY_DETAILS_NAME), len as usize),
                    )
                },
            },
        },
        _ => (m, ChainStepModel::Done(Err(no_chain_error(m.game_state)))),
    }
}

/// The search after the metadata text was read: only a character goes on.
pub open spec fn chain_text_step(m: ChainModel, text: Option<String>) -> (ChainModel, ChainStepModel) {
    match m.stage {
        ChainStage::NameText => match text {
            None => m.next_attempt(),
            Some(t) => if !"Metadata/Characters/"@.is_prefix_of(t@) {
                m.next_attempt()
            } else {
                (
                    ChainModel { stage: ChainStage::Life, metadata: t, ..m },
                    ChainStepModel::FindLife(m.local_player),
                )
            },
        },
        _ => (m, ChainStepModel::Done(Err(no_chain_error(m.game_state)))),
    }
}

/// The search after the Life component lookup gave `component`.
pub open spec fn chain_life_step(m: ChainModel, component: Option<usize>) -> (ChainModel, ChainStepModel) {
    match m.stage {
        ChainStage::Life => match component {
            None => m.next_attempt(),
            Some(c) => (
                ChainModel { stage: ChainStage::Health(0), life_component: c, ..m },
                ChainStepModel::ReadPool(wrap_add(c, m.health_offsets[0])),
            ),
        },
        _ => (m, ChainStepModel::Done(Err(no_chain_error(m.game_state)))),
    }
}

/// The search after a pool read gave `pool`. Each pool is looked for at its offsets in order:
/// Life must be found with a positive current value, else the attempt is given up; Mana is
/// optional; Energy Shield is optional and may be an empty pool.
pub open spec fn chain_pool_step(m: ChainModel, pool: Option<VitalPool>) -> (ChainModel, ChainStepModel) {
    match m.stage {
        ChainStage::Health(i) => match pool {
            Some(p) => if acceptable_pool(p, true) {
                ChainModel { health_offset: m.health_offsets[i as int], health: p, ..m }.to_mana()
            } else if i + 1 < m.health_offsets.len() {
                (
                    ChainModel { stage: ChainStage::Health((i + 1) as usize), ..m },
                    ChainStepModel::ReadPool(wrap_add(m.life_component, m.health_offsets[i + 1])),
                )
            } else {
                m.next_attempt()
            },
            None => if i + 1 < m.health_offsets.len() {
                (
                    ChainModel { stage: ChainStage::Health((i + 1) as usize), ..m },
                    ChainStepModel::ReadPool(wrap_add(m.life_component, m.health_offsets[i + 1])),
                )
            } else {
                m.next_attempt()
            },
        },
        ChainStage::Mana(i) => if pool matches Some(p) && acceptable_pool(p, false) {
            ChainModel { mana: Some((m.mana_offsets[i as int], pool->0)), ..m }.to_shield()
        } else if i + 1 < m.mana_offsets.len() {
            (
                ChainModel { stage: ChainStage::Mana((i + 1) as usize), ..m },
                ChainStepModel::ReadPool(wrap_add(m.life_component, m.mana_offsets[i + 1])),
            )
        } else {
            ChainModel { mana: None, ..m }.to_shield()
        },
        ChainStage::EnergyShield(i) => if pool matches Some(p) && plausible_or_empty_pool(p) {
            (
                ChainModel { stage: ChainStage::Finished, ..m },
                ChainStepModel::Done(Ok(m.probe(Some((m.shield_offsets[i as int], pool->0))))),
            )
        } else if i + 1 < m.shield_offsets.len() {
            (
                ChainModel { stage: ChainStage::EnergyShield((i + 1) as usize), ..m },
                ChainStepModel::ReadPool(wrap_add(m.life_component, m.shield_offsets[i + 1])),
            )
        } else {
            (
                ChainModel { stage: ChainStage::Finished, ..m },
                ChainStepModel::Done(Ok(m.probe(None))),
            )
        },
        _ => (m, ChainStepModel::Done(Err(no_chain_error(m.game_state)))),
    }
}

fn copy_section(s: &PeSection) -> (c: PeSection)
    ensures
        c == *s,
{
    PeSection { name: s.name.clone(), address: s.address, size: s.size }
}

impl ChainSearch {
    /// Starts the search through the in-game states `states` of the game state at
    /// `game_state`, found through the slot at `game_state_slot`.
    pub fn start(
        states: &Vec<usize>,
        text_section: PeSection,
        aob_match_count: usize,
        game_state_slot: usize,
        game_state: usize,
    ) -> (r: (ChainSearch, ChainStep))
        ensures
            r.0@.wf(),
            r.0@.fits(r.1@),
            r.0@.text_section == text_section,
            r.0@.aob_match_count == aob_match_count,
            r.0@.game_state_slot == game_state_slot,
            r.0@.game_state == game_state,
            states@.len() == 0 ==> r.1@ == ChainStepModel::Done(
                Err(
                    probe_error(
                        ErrorKind::InvalidData,
                        "GameState was readable, but it did not expose any candidate game states"@,
                    ),
                ),
            ),
            states@.len() > 0 ==> (exists|areas: Seq<usize>, players: Seq<usize>|
                area_search(areas) && player_search(players) && r.0@.attempts == usual_pass(
                    states@,
                ) + player_pass(states@, players) + area_pass(states@, areas, players))
                && r.0@.health_offsets.len() > 0 && r.0@.health_offsets[0] == LIFE_HEALTH
                && is_search_order(r.0@.health_offsets, LIFE_HEALTH as int, 4, LIFE_HEALTH - 0x20, LIFE_HEALTH + 0x40)
                && r.0@.mana_offsets.len() > 0 && r.0@.mana_offsets[0] == LIFE_MANA
                && is_search_order(r.0@.mana_offsets, LIFE_MANA as int, 4, LIFE_MANA - 0x20, LIFE_MANA + 0x40)
                && r.0@.shield_offsets.len() > 0 && r.0@.shield_offsets[0] == LIFE_ENERGY_SHIELD
                && is_search_order(r.0@.shield_offsets, LIFE_ENERGY_SHIELD as int, 4, LIFE_ENERGY_SHIELD - 0x20, LIFE_ENERGY_SHIELD + 0x40)
                && (r.0@, r.1@) == r.0@.begin(0),
    {
        let attempts = chain_attempts(states);
        let mut m = ChainSearch {
            text_section,
            aob_match_count,
            game_state_slot,
            game_state,
            attempts,
            health_offsets: vital_offsets(LIFE_HEALTH),
            mana_offsets: vital_offsets(LIFE_MANA),
            shield_offsets: vital_offsets(LIFE_ENERGY_SHIELD),
            index: 0,
            stage: ChainStage::Finished,
            area_instance: 0,
            local_player: 0,
            details: 0,
            name_len: 0,
            metadata: String::new(),
            life_component: 0,
            health_offset: 0,
            health: VitalPool { current: 0, total: 0, reserved_flat: 0, reserved_fraction: 0 },
            mana: None,
        };
        if states.len() == 0 {
            return (
                m,
                ChainStep::Done(
                    Err(
                        error(
                            ErrorKind::InvalidData,
                            "GameState was readable, but it did not expose any candidate game states",
                        ),
                    ),
                ),
            );
        }
        let step = m.begin(0);
        (m, step)
    }

    fn begin(&mut self, k: usize) -> (s: ChainStep)
        ensures
            (final(self)@, s@) == old(self)@.begin(k as int),
            final(self)@.wf(),
            final(self)@.fits(s@),
    {
        if k < self.attempts.len() {
            self.index = k;
            self.stage = ChainStage::AreaInstance;
            let a = self.attempts[k];
            ChainStep::ReadWord(address(a.in_game_state, a.area_offset))
        } else {
            self.stage = ChainStage::Finished;
            let mut m = string_from("GameState resolved at 0x");
            push_hex_padded(&mut m, self.game_state as u64, 16);
            push_str(&mut m, ", but no validated local player/Life chain was found");
            ChainStep::Done(Err(ProbeError { kind: ErrorKind::InvalidData, message: m }))
        }
    }

    fn next_attempt(&mut self) -> (s: ChainStep)
        requires
            old(self)@.index < old(self)@.attempts.len(),
        ensures
            (final(self)@, s@) == old(self)@.next_attempt(),
            final(self)@.wf(),
            final(self)@.fits(s@),
    {
        let n = self.attempts.len();
        assert(self.index < n);
        let k = self.index + 1;
        self.begin(k)
    }

    fn plausible(v: Option<usize>) -> (r: Option<usize>)
        ensures
            r == (match v {
                Some(x) => if plausible_address(x as int) {
                    Some(x)
                } else {
                    None
                },
                None => None,
            }),
    {
        match v {
            Some(x) => if plausible_ptr(x) {
                Some(x)
            } else {
                None
            },
            None => None,
        }
    }

    /// A pointer-sized read asked for gave `v`, `None` when it failed.
    pub fn word_read(&mut self, v: Option<usize>) -> (s: ChainStep)
        requires
            old(self)@.wf(),
            old(self)@.stage is AreaInstance || old(self)@.stage is LocalPlayer
                || old(self)@.stage is Details || old(self)@.stage is NameHeap,
        ensures
            (final(self)@, s@) == chain_word_step(old(self)@, v),
            final(self)@.wf(),
            final(self)@.fits(s@),
    {
        let p = Self::plausible(v);
        match self.stage {
            ChainStage::AreaInstance => match p {
                None => self.next_attempt(),
                Some(a) => {
                    self.stage = ChainStage::LocalPlayer;
                    self.area_instance = a;
                    let offset = self.attempts[self.index].player_offset;
                    ChainStep::ReadWord(address(a, offset))
                },
            },
            ChainStage::LocalPlayer => match p {
                None => self.next_attempt(),
                Some(pl) => {
                    self.stage = ChainStage::Details;
                    self.local_player = pl;
                    ChainStep::ReadWord(address(pl, ENTITY_DETAILS_PTR))
                },
            },
            ChainStage::Details => match p {
                None => self.next_attempt(),
                Some(d) => {
                    self.stage = ChainStage::NameLength;
                    self.details = d;
                    ChainStep::ReadInt(address(address(d, ENTITY_DETAILS_NAME), 0x10))
                },
            },
            ChainStage::NameHeap => match p {
                None => self.next_attempt(),
                Some(h) => {
                    self.stage = ChainStage::NameText;
                    ChainStep::ReadText(h, self.name_len)
                },
            },
            _ => ChainStep::Done(Err(error(ErrorKind::InvalidData, "unexpected read"))),
        }
    }

    /// The metadata length read asked for gave `v`, `None` when it failed.
    pub fn int_read(&mut self, v: Option<i32>) -> (s: ChainStep)
        requires
            old(self)@.wf(),
            old(self)@.stage is NameLength,
        ensures
            (final(self)@, s@) == chain_int_step(old(self)@, v),
            final(self)@.wf(),
            final(self)@.fits(s@),
    {
        match v {
            None => self.next_attempt(),
            Some(len) => match wstring_layout(len) {
                None => self.next_attempt(),
                Some(heap) => {
                    self.name_len = len as usize;
                    if heap {
                        self.stage = ChainStage::NameHeap;
                        ChainStep::ReadWord(address(self.details, ENTITY_DETAILS_NAME))
                    } else {
                        self.stage = ChainStage::NameText;
                        ChainStep::ReadText(address(self.details, ENTITY_DETAILS_NAME), len as usize)
                    }
                },
            },
        }
    }

    /// The metadata text read asked for gave `text`, `None` when it failed.
    pub fn text_read(&mut self, text: Option<String>) -> (s: ChainStep)
        requires
            old(self)@.wf(),
            old(self)@.stage is NameText,
        ensures
            (final(self)@, s@) == chain_text_step(old(self)@, text),
            final(self)@.wf(),
            final(self)@.fits(s@),
    {
        match text {
            None => self.next_attempt(),
            Some(t) => {
                if !is_character_metadata(t.as_str()) {
                    self.next_attempt()
                } else {
                    self.stage = ChainStage::Life;
                    self.metadata = t;
                    ChainStep::FindLife(self.local_player)
                }
            },
        }
    }

    /// The Life component lookup asked for gave `component`.
    pub fn life_found(&mut self, component: Option<usize>) -> (s: ChainStep)
        requires
            old(self)@.wf(),
            old(self)@.stage is Life,
            old(self)@.health_offsets.len() > 0,
        ensures
            (final(self)@, s@) == chain_life_step(old(self)@, component),
            final(self)@.wf(),
            final(self)@.fits(s@),
    {
        match component {
            None => self.next_attempt(),
            Some(c) => {
                self.stage = ChainStage::Health(0);
                self.life_component = c;
                ChainStep::ReadPool(address(c, self.health_offsets[0]))
            },
        }
    }

    fn to_mana(&mut self) -> (s: ChainStep)
        requires
            old(self)@.mana_offsets.len() > 0,
            old(self)@.index < old(self)@.attempts.len(),
            "Metadata/Characters/"@.is_prefix_of(old(self)@.metadata@),
            acceptable_pool(old(self)@.health, true),
        ensures
            (final(self)@, s@) == old(self)@.to_mana(),
            final(self)@.wf(),
            final(self)@.fits(s@),
    {
        self.stage = ChainStage::Mana(0);
        ChainStep::ReadPool(address(self.life_component, self.mana_offsets[0]))
    }

    fn to_shield(&mut self) -> (s: ChainStep)
        requires
            old(self)@.shield_offsets.len() > 0,
            old(self)@.index < old(self)@.attempts.len(),
            "Metadata/Characters/"@.is_prefix_of(old(self)@.metadata@),
            acceptable_pool(old(self)@.health, true),
            old(self)@.mana matches Some((_, p)) ==> acceptable_pool(p, false),
        ensures
            (final(self)@, s@) == old(self)@.to_shield(),
            final(self)@.wf(),
            final(self)@.fits(s@),
    {
        self.stage = ChainStage::EnergyShield(0);
        ChainStep::ReadPool(address(self.life_component, self.shield_offsets[0]))
    }

    fn finish_probe(&mut self, shield: Option<(usize, VitalPool)>) -> (s: ChainStep)
        requires
            old(self)@.index < old(self)@.attempts.len(),
        ensures
            final(self)@ == (ChainModel { stage: ChainStage::Finished, ..old(self)@ }),
            s@ == ChainStepModel::Done(Ok(old(self)@.probe(shield))),
    {
        let a = self.attempts[self.index];
        let probe = VitalsProbe {
            text_section: copy_section(&self.text_section),
            aob_match_count: self.aob_match_count,
            game_state_slot: self.game_state_slot,
            game_state: self.game_state,
            in_game_state: a.in_game_state,
            area_instance: self.area_instance,
            area_instance_offset: a.area_offset,
            local_player: self.local_player,
            local_player_offset: a.player_offset,
            metadata: self.metadata.clone(),
            life_component: self.life_component,
            health_offset: self.health_offset,
            mana_offset: match self.mana {
                Some((o, _)) => Some(o),
                None => None,
            },
            energy_shield_offset: match shield {
                Some((o, _)) => Some(o),
                None => None,
            },
            health: self.health,
            mana: match self.mana {
                Some((_, p)) => Some(p),
                None => None,
            },
            energy_shield: match shield {
                Some((_, p)) => Some(p),
                None => None,
            },
        };
        self.stage = ChainStage::Finished;
        ChainStep::Done(Ok(probe))
    }

    /// The pool read asked for gave `pool`, `None` when it failed.
    pub fn pool_read(&mut self, pool: Option<VitalPool>) -> (s: ChainStep)
        requires
            old(self)@.wf(),
            old(self)@.stage is Health || old(self)@.stage is Mana || old(self)@.stage is EnergyShield,
            old(self)@.mana_offsets.len() > 0,
            old(self)@.shield_offsets.len() > 0,
        ensures
            (final(self)@, s@) == chain_pool_step(old(self)@, pool),
            final(self)@.wf(),
            final(self)@.fits(s@),
            s@ matches ChainStepModel::Done(Ok(p)) ==> "Metadata/Characters/"@.is_prefix_of(p.metadata@)
                && p.current_pools_checked(),
    {
        match self.stage {
            ChainStage::Health(i) => {
                let found = match pool {
                    Some(p) => vital_acceptable(p, true),
                    None => false,
                };
                if found {
                    self.health_offset = self.health_offsets[i];
                    self.health = pool.unwrap();
                    self.to_mana()
                } else if i < self.health_offsets.len() - 1 {
                    self.stage = ChainStage::Health(i + 1);
                    ChainStep::ReadPool(address(self.life_component, self.health_offsets[i + 1]))
                } else {
                    self.next_attempt()
                }
            },
            ChainStage::Mana(i) => {
                let found = match pool {
                    Some(p) => vital_acceptable(p, false),
                    None => false,
                };
                if found {
                    self.mana = Some((self.mana_offsets[i], pool.unwrap()));
                    self.to_shield()
                } else if i < self.mana_offsets.len() - 1 {
                    self.stage = ChainStage::Mana(i + 1);
                    ChainStep::ReadPool(address(self.life_component, self.mana_offsets[i + 1]))
                } else {
                    self.mana = None;
                    self.to_shield()
                }
            },
            ChainStage::EnergyShield(i) => {
                let found = match pool {
                    Some(p) => p.looks_valid_or_zero(),
                    None => false,
                };
                if found {
                    let shield = Some((self.shield_offsets[i], pool.unwrap()));
                    self.finish_probe(shield)
                } else if i < self.shield_offsets.len() - 1 {
                    self.stage = ChainStage::EnergyShield(i + 1);
                    ChainStep::ReadPool(address(self.life_component, self.shield_offsets[i + 1]))
                } else {
                    self.finish_probe(None)
                }
            },
            _ => ChainStep::Done(Err(error(ErrorKind::InvalidData, "unexpected read"))),
        }
    }
}

} // verus!
