//! The automation engine's decisions: arming, pausing, reconnecting, and when to press a flask.
//!
//! Times are milliseconds of a monotonic clock. The caller reads the game, the keyboard and the
//! clock, and hands the results to these steps in the order of one tick.

use vstd::prelude::*;

use crate::area::{allows_automation, AreaInfo};
use crate::bindings::{BindingReload, GameBindings};
use crate::config::ConfigReload;
use crate::flask_inventory::FlaskChargeState;
use crate::input::KeyBinding;
use crate::poe2::{LiveVitals, VitalPool};
use crate::text::{push_signed_decimal, push_str, push_decimal, string_from};

verus! {

/// Flask slot of the Life flask.
pub const LIFE_FLASK_SLOT: usize = 0;

/// Flask slot of the Mana flask.
pub const MANA_FLASK_SLOT: usize = 1;

/// Time between two ticks.
pub const AUTO_POLL_INTERVAL_MS: u64 = 100;

/// Time between two checks of the settings file.
pub const CONFIG_RELOAD_INTERVAL_MS: u64 = 1000;

/// Time between two checks of the game's input config.
pub const BINDING_RELOAD_INTERVAL_MS: u64 = 2000;

/// Time after a flask press during which that flask is not pressed again.
pub const POST_SEND_SAFETY_GUARD_MS: u64 = 1000;

/// Time before a failed re-resolve is tried again.
pub const REFRESH_RETRY_MS: u64 = 250;

/// Time between two checks that the game still runs while nothing else reads it.
pub const IDLE_PROCESS_CHECK_INTERVAL_MS: u64 = 1000;

/// Failed samples in a row after which the game state is resolved again.
pub const BAD_SAMPLE_LIMIT: u32 = 3;

/// What the engine shows the user.
#[derive(Debug, Clone, Copy, PartialEq, Eq, Structural)]
pub enum EngineStatus {
    Disarmed,
    Armed,
    PausedTown,
    PausedHideout,
    PausedBackground,
    PausedDead,
    PausedGamepad,
    PausedBindings,
    PausedInputMode,
    Reconnecting,
}

pub open spec fn status_text(s: EngineStatus) -> Seq<char> {
    match s {
        EngineStatus::Disarmed => "DISARMED"@,
        EngineStatus::Armed => "ARMED"@,
        EngineStatus::PausedTown => "PAUSED (town)"@,
        EngineStatus::PausedHideout => "PAUSED (hideout)"@,
        EngineStatus::PausedBackground => "PAUSED (PoE2 not focused)"@,
        EngineStatus::PausedDead => "PAUSED (dead)"@,
        EngineStatus::PausedGamepad => "PAUSED (gamepad input not supported yet)"@,
        EngineStatus::PausedBindings => "PAUSED (PoE2 input bindings unavailable)"@,
        EngineStatus::PausedInputMode => "PAUSED (unsupported PoE2 input mode)"@,
        EngineStatus::Reconnecting => "WAITING FOR GAME STATE"@,
    }
}

impl EngineStatus {
    /// The status as shown.
    pub fn text(self) -> (s: &'static str)
        ensures
            s@ == status_text(self),
    {
        match self {
            EngineStatus::Disarmed => "DISARMED",
            EngineStatus::Armed => "ARMED",
            EngineStatus::PausedTown => "PAUSED (town)",
            EngineStatus::PausedHideout => "PAUSED (hideout)",
            EngineStatus::PausedBackground => "PAUSED (PoE2 not focused)",
            EngineStatus::PausedDead => "PAUSED (dead)",
            EngineStatus::PausedGamepad => "PAUSED (gamepad input not supported yet)",
            EngineStatus::PausedBindings => "PAUSED (PoE2 input bindings unavailable)",
            EngineStatus::PausedInputMode => "PAUSED (unsupported PoE2 input mode)",
            EngineStatus::Reconnecting => "WAITING FOR GAME STATE",
        }
    }
}

/// A dead character: no current Life left.
pub open spec fn is_dead(health: VitalPool) -> bool {
    health.current <= 0
}

/// Whether the player is dead, judged by current Life only.
pub fn player_is_dead(health: VitalPool) -> (b: bool)
    ensures
        b == is_dead(health),
{
    health.current <= 0
}

/// A character whose Life is fixed at one and who relies on Energy Shield.
pub open spec fn is_ci_like(health: VitalPool, energy_shield: Option<VitalPool>) -> bool {
    health.total == 1 && match energy_shield {
        Some(es) => es.total > 0,
        None => false,
    }
}

/// Whether Life is fixed at one with an Energy Shield pool behind it; the Life flask is then
/// never used.
pub fn ci_like_defense(health: VitalPool, energy_shield: Option<VitalPool>) -> (b: bool)
    ensures
        b == is_ci_like(health, energy_shield),
{
    health.total == 1 && match energy_shield {
        Some(es) => es.total > 0,
        None => false,
    }
}

/// The status an area calls for.
pub open spec fn area_status_of(is_town: bool, is_hideout: bool, enable_in_hideout: bool) -> EngineStatus {
    if is_town {
        EngineStatus::PausedTown
    } else if is_hideout && !enable_in_hideout {
        EngineStatus::PausedHideout
    } else {
        EngineStatus::Armed
    }
}

/// The status for the current area: paused in towns, and in hideouts unless allowed.
pub fn area_status(area: &AreaInfo, enable_in_hideout: bool) -> (s: EngineStatus)
    ensures
        s == area_status_of(area.is_town, area.is_hideout, enable_in_hideout),
{
    if area.is_town {
        EngineStatus::PausedTown
    } else if area.is_hideout && !enable_in_hideout {
        EngineStatus::PausedHideout
    } else {
        EngineStatus::Armed
    }
}

/// One flask's pacing: when it was last pressed and whether a block was already reported.
#[derive(Debug, Clone, Copy, PartialEq, Eq, Structural)]
pub struct FlaskState {
    pub last_fire: Option<u64>,
    pub charge_block_reported: bool,
}

/// Whether the safety guard since the last press has passed at `now`.
pub open spec fn guard_passed(s: FlaskState, now: u64) -> bool {
    match s.last_fire {
        None => true,
        Some(last) => (if now >= last {
            now - last
        } else {
            0
        }) >= POST_SEND_SAFETY_GUARD_MS,
    }
}

impl FlaskState {
    /// A flask never pressed.
    pub fn new() -> (s: Self)
        ensures
            s == (FlaskState { last_fire: None, charge_block_reported: false }),
    {
        FlaskState { last_fire: None, charge_block_reported: false }
    }

    /// Whether the flask may be pressed again at `now`.
    pub fn ready(&self, now: u64) -> (b: bool)
        ensures
            b == guard_passed(*self, now),
    {
        match self.last_fire {
            None => true,
            Some(last) => now.saturating_sub(last) >= POST_SEND_SAFETY_GUARD_MS,
        }
    }

    /// Records a press at `now`.
    pub fn mark_fired(&mut self, now: u64)
        ensures
            *final(self) == (FlaskState { last_fire: Some(now), charge_block_reported: false }),
    {
        self.last_fire = Some(now);
        self.charge_block_reported = false;
    }

    /// Forgets a reported block.
    pub fn clear_block_notice(&mut self)
        ensures
            *final(self) == (FlaskState { charge_block_reported: false, ..*old(self) }),
    {
        self.charge_block_reported = false;
    }
}

/// Why a flask that is due cannot be used, shown once until it changes.
#[derive(Debug, Clone, Copy, PartialEq, Eq, Structural)]
pub enum BlockNotice {
    NotEnoughCharges { current: i32, per_use: i32 },
    EmptySlot,
}

/// What to do with one flask this tick.
#[derive(Debug, Clone, Copy, PartialEq, Eq, Structural)]
pub enum FlaskDecision {
    /// Nothing.
    Skip,
    /// The flask is due but unusable; the notice is shown when it is new.
    Blocked(Option<BlockNotice>),
    /// Press the flask; it has these charges.
    Fire(FlaskChargeState),
}

/// The inputs of one flask decision.
#[derive(Debug, Clone, Copy, PartialEq, Eq, Structural)]
pub struct FlaskInput {
    /// Whether automation of this flask is enabled.
    pub enabled: bool,
    /// Whether the pool is above its threshold; `None` when it has no usable maximum.
    pub above_threshold: Option<bool>,
    /// Whether a flask effect of this slot is active.
    pub locked: bool,
    /// The flask's charges; `None` for an empty or unreadable slot.
    pub charges: Option<FlaskChargeState>,
}

/// The decision for one flask at `now`, and the flask's pacing afterwards.
pub open spec fn flask_step(s: FlaskState, input: FlaskInput, now: u64) -> (FlaskState, FlaskDecision) {
    if !input.enabled {
        (s, FlaskDecision::Skip)
    } else {
        match input.above_threshold {
            None => (s, FlaskDecision::Skip),
            Some(true) => (FlaskState { charge_block_reported: false, ..s }, FlaskDecision::Skip),
            Some(false) => if input.locked || !guard_passed(s, now) {
                (s, FlaskDecision::Skip)
            } else {
                match input.charges {
                    Some(c) => if c.current >= c.per_use {
                        (FlaskState { charge_block_reported: false, ..s }, FlaskDecision::Fire(c))
                    } else if s.charge_block_reported {
                        (s, FlaskDecision::Blocked(None))
                    } else {
                        (
                            FlaskState { charge_block_reported: true, ..s },
                            FlaskDecision::Blocked(
                                Some(BlockNotice::NotEnoughCharges { current: c.current, per_use: c.per_use }),
                            ),
                        )
                    },
                    None => if s.charge_block_reported {
                        (s, FlaskDecision::Blocked(None))
                    } else {
                        (
                            FlaskState { charge_block_reported: true, ..s },
                            FlaskDecision::Blocked(Some(BlockNotice::EmptySlot)),
                        )
                    },
                }
            },
        }
    }
}

/// Decides whether to press one flask: only when enabled, at or below its threshold, with no
/// active effect, past the safety guard, and with enough charges.
pub fn maybe_fire(state: &mut FlaskState, input: FlaskInput, now: u64) -> (d: FlaskDecision)
    ensures
        (*final(state), d) == flask_step(*old(state), input, now),
{
    if !input.enabled {
        return FlaskDecision::Skip;
    }
    let above = match input.above_threshold {
        None => {
            return FlaskDecision::Skip;
        },
        Some(a) => a,
    };
    if above {
        state.charge_block_reported = false;
        return FlaskDecision::Skip;
    }
    if input.locked || !state.ready(now) {
        return FlaskDecision::Skip;
    }
    flask_has_usable_charges(state, input.charges)
}

fn flask_has_usable_charges(state: &mut FlaskState, charges: Option<FlaskChargeState>) -> (d: FlaskDecision)
    ensures
        (*final(state), d) == (match charges {
            Some(c) => if c.current >= c.per_use {
                (FlaskState { charge_block_reported: false, ..*old(state) }, FlaskDecision::Fire(c))
            } else if old(state).charge_block_reported {
                (*old(state), FlaskDecision::Blocked(None))
            } else {
                (
                    FlaskState { charge_block_reported: true, ..*old(state) },
                    FlaskDecision::Blocked(
                        Some(BlockNotice::NotEnoughCharges { current: c.current, per_use: c.per_use }),
                    ),
                )
            },
            None => if old(state).charge_block_reported {
                (*old(state), FlaskDecision::Blocked(None))
            } else {
                (
                    FlaskState { charge_block_reported: true, ..*old(state) },
                    FlaskDecision::Blocked(Some(BlockNotice::EmptySlot)),
                )
            },
        }),
{
    match charges {
        Some(c) => {
            if c.usable() {
                state.charge_block_reported = false;
                FlaskDecision::Fire(c)
            } else if state.charge_block_reported {
                FlaskDecision::Blocked(None)
            } else {
                state.charge_block_reported = true;
                FlaskDecision::Blocked(Some(BlockNotice::NotEnoughCharges { current: c.current, per_use: c.per_use }))
            }
        },
        None => {
            if state.charge_block_reported {
                FlaskDecision::Blocked(None)
            } else {
                state.charge_block_reported = true;
                FlaskDecision::Blocked(Some(BlockNotice::EmptySlot))
            }
        },
    }
}

/// The line shown for a blocked flask.
pub open spec fn block_text(label: Seq<char>, slot: usize, notice: BlockNotice) -> Seq<char> {
    match notice {
        BlockNotice::NotEnoughCharges { current, per_use } => label + " flask blocked: "@
            + crate::text::signed_decimal(current as int) + " charges, "@ + crate::text::signed_decimal(
            per_use as int,
        ) + " needed"@,
        BlockNotice::EmptySlot => label + " flask blocked: slot "@ + crate::text::decimal((slot + 1) as nat)
            + " is empty/unreadable"@,
    }
}

/// Renders the line shown for a blocked flask.
pub fn block_message(label: &str, slot: usize, notice: BlockNotice) -> (s: String)
    requires
        slot < usize::MAX,
    ensures
        s@ == block_text(label@, slot, notice),
{
    let mut s = string_from(label);
    match notice {
        BlockNotice::NotEnoughCharges { current, per_use } => {
            push_str(&mut s, " flask blocked: ");
            push_signed_decimal(&mut s, current as i64);
            push_str(&mut s, " charges, ");
            push_signed_decimal(&mut s, per_use as i64);
            push_str(&mut s, " needed");
        },
        BlockNotice::EmptySlot => {
            push_str(&mut s, " flask blocked: slot ");
            push_decimal(&mut s, (slot + 1) as u64);
            push_str(&mut s, " is empty/unreadable");
        },
    }
    s
}

/// How far the current tick has come towards pressing a flask: each check passed in order
/// moves it on, and every tick starts over at the toggle key.
#[derive(Debug, Clone, Copy, PartialEq, Eq, Structural)]
pub enum TickStage {
    /// Nothing passed yet.
    Idle,
    /// Armed, with the game focused and keyboard bindings.
    Gated,
    /// And in an area that allows automation.
    InArea,
    /// And with a living character: flask decisions may be made.
    Alive,
}

/// The engine's state between ticks.
#[derive(Debug, Clone, Copy, PartialEq, Eq, Structural)]
pub struct Engine {
    pub armed: bool,
    /// The checks the current tick has passed.
    pub tick: TickStage,
    pub toggle_was_down: bool,
    pub shown_status: Option<EngineStatus>,
    pub needs_refresh: bool,
    pub next_refresh: u64,
    pub next_idle_check: u64,
    pub next_config_check: u64,
    pub next_binding_check: u64,
    pub bad_samples: u32,
    pub health: FlaskState,
    pub mana: FlaskState,
}

/// `a + b`, stopping at the largest value.
pub open spec fn sat_add(a: u64, b: u64) -> u64 {
    if a + b > u64::MAX {
        u64::MAX
    } else {
        (a + b) as u64
    }
}

/// Shows `next` unless it is already shown; `Some` when it must be printed.
pub open spec fn show_step(e: Engine, next: EngineStatus) -> (Engine, Option<EngineStatus>) {
    if e.shown_status == Some(next) {
        (e, None)
    } else {
        (Engine { shown_status: Some(next), ..e }, Some(next))
    }
}

/// A failed sample: the count grows, and at the limit, or when the game state moved on,
/// a re-resolve is due now.
pub open spec fn bad_sample_step(e: Engine, interrupted: bool, now: u64) -> (Engine, Option<EngineStatus>) {
    let count = if e.bad_samples == u32::MAX {
        u32::MAX
    } else {
        (e.bad_samples + 1) as u32
    };
    let e1 = Engine { bad_samples: count, ..e };
    if interrupted || count >= BAD_SAMPLE_LIMIT {
        show_step(Engine { needs_refresh: true, next_refresh: now, ..e1 }, EngineStatus::Reconnecting)
    } else {
        (e1, None)
    }
}

/// What the toggle key did this tick.
#[derive(Debug, Clone, Copy, PartialEq, Eq, Structural)]
pub enum Toggle {
    /// Nothing changed.
    Unchanged,
    /// Automation was armed; the game state must be resolved again.
    Armed,
    /// Automation was disarmed; the status to print, if any.
    Disarmed(Option<EngineStatus>),
}

/// What a tick may go on to do once arming, focus and bindings are known.
#[derive(Debug, Clone, Copy, PartialEq, Eq, Structural)]
pub enum Gate {
    /// Not armed: nothing to do.
    Idle,
    /// Paused; the status to print, if any.
    Paused(Option<EngineStatus>),
    /// Go on with the Life and Mana bindings.
    Proceed(KeyBinding, KeyBinding),
}

/// Whether a re-resolve is to happen.
#[derive(Debug, Clone, Copy, PartialEq, Eq, Structural)]
pub enum RefreshPlan {
    NotNeeded,
    Wait,
    Now,
}

/// Whether a tick continues: only when armed, with the game focused, and with keyboard
/// bindings.
pub open spec fn gate_step(e: Engine, foreground: bool, bindings: crate::bindings::BindingsModel) -> (Engine, Gate) {
    let e0 = Engine { tick: TickStage::Idle, ..e };
    if !e.armed {
        (e0, Gate::Idle)
    } else if !foreground {
        let (e1, shown) = show_step(Engine { needs_refresh: true, ..e0 }, EngineStatus::PausedBackground);
        (e1, Gate::Paused(shown))
    } else {
        match bindings {
            crate::bindings::BindingsModel::Keyboard { life, mana, .. } => (
                Engine { tick: TickStage::Gated, ..e },
                Gate::Proceed(life, mana),
            ),
            crate::bindings::BindingsModel::Gamepad => {
                let (e1, shown) = show_step(e0, EngineStatus::PausedGamepad);
                (e1, Gate::Paused(shown))
            },
            crate::bindings::BindingsModel::UnsupportedMode(_) => {
                let (e1, shown) = show_step(e0, EngineStatus::PausedInputMode);
                (e1, Gate::Paused(shown))
            },
            crate::bindings::BindingsModel::Unavailable(_) => {
                let (e1, shown) = show_step(e0, EngineStatus::PausedBindings);
                (e1, Gate::Paused(shown))
            },
        }
    }
}

/// What a call on the engine does to its arming and to the current tick's checks, as seen from
/// outside: the toggle key, the focus-and-bindings check, the area check, the life check, a
/// flask decision or press, or anything else.
pub enum TickEvent {
    Toggle { down: bool, focused: bool },
    Gate { focused: bool, keyboard: bool },
    Area { allowed: bool },
    Life { alive: bool },
    Press,
    Other,
}

/// How a call with `ev` takes the engine from `e1` to `e2`, as far as arming and the tick's
/// checks go. A decision or press (`Press`) needs an armed engine whose tick got through every
/// check.
pub open spec fn engine_moves(e1: Engine, ev: TickEvent, e2: Engine) -> bool {
    match ev {
        TickEvent::Toggle { down, focused } => e2.toggle_was_down == down && e2.tick
            == TickStage::Idle && e2.armed == (e1.armed != (down && !e1.toggle_was_down
            && focused)),
        TickEvent::Gate { focused, keyboard } => e2.armed == e1.armed && e2.toggle_was_down
            == e1.toggle_was_down && e2.tick == (if e1.armed && focused && keyboard {
            TickStage::Gated
        } else {
            TickStage::Idle
        }),
        TickEvent::Area { allowed } => e2.armed == e1.armed && e2.toggle_was_down
            == e1.toggle_was_down && e2.tick == (if allowed && e1.tick == TickStage::Gated {
            TickStage::InArea
        } else {
            TickStage::Idle
        }),
        TickEvent::Life { alive } => e2.armed == e1.armed && e2.toggle_was_down
            == e1.toggle_was_down && e2.tick == (if alive && e1.tick == TickStage::InArea {
            TickStage::Alive
        } else {
            TickStage::Idle
        }),
        TickEvent::Press => e1.armed && e1.tick == TickStage::Alive && e2.armed == e1.armed
            && e2.toggle_was_down == e1.toggle_was_down && e2.tick == e1.tick,
        TickEvent::Other => e2.armed == e1.armed && e2.toggle_was_down == e1.toggle_was_down
            && e2.tick == e1.tick,
    }
}

impl Engine {
    /// The engine at the start of a session: disarmed, with the first settings check one
    /// interval away and the first bindings check two.
    pub fn new(now: u64) -> (e: Self)
        ensures
            !e.armed,
            e == (Engine {
                armed: false,
                tick: TickStage::Idle,
                toggle_was_down: false,
                shown_status: None,
                needs_refresh: false,
                next_refresh: now,
                next_idle_check: now,
                next_config_check: sat_add(now, CONFIG_RELOAD_INTERVAL_MS),
                next_binding_check: sat_add(now, BINDING_RELOAD_INTERVAL_MS),
                bad_samples: 0,
                health: FlaskState { last_fire: None, charge_block_reported: false },
                mana: FlaskState { last_fire: None, charge_block_reported: false },
            }),
    {
        Engine {
            armed: false,
            tick: TickStage::Idle,
            toggle_was_down: false,
            shown_status: None,
            needs_refresh: false,
            next_refresh: now,
            next_idle_check: now,
            next_config_check: now.saturating_add(CONFIG_RELOAD_INTERVAL_MS),
            next_binding_check: now.saturating_add(BINDING_RELOAD_INTERVAL_MS),
            bad_samples: 0,
            health: FlaskState::new(),
            mana: FlaskState::new(),
        }
    }

    /// Shows `next` unless it is already shown; returns the status to print.
    pub fn show(&mut self, next: EngineStatus) -> (r: Option<EngineStatus>)
        ensures
            engine_moves(*old(self), TickEvent::Other, *final(self)),
            (*final(self), r) == show_step(*old(self), next),
    {
        match self.shown_status {
            Some(s) => if s == next {
                return None;
            },
            None => {},
        }
        self.shown_status = Some(next);
        Some(next)
    }

    /// Whether the settings file is due a check at `now`; if so the next one is an interval away.
    pub fn config_check_due(&mut self, now: u64) -> (due: bool)
        ensures
            engine_moves(*old(self), TickEvent::Other, *final(self)),
            due == (now >= old(self).next_config_check),
            *final(self) == (if due {
                Engine { next_config_check: sat_add(now, CONFIG_RELOAD_INTERVAL_MS), ..*old(self) }
            } else {
                *old(self)
            }),
    {
        if now < self.next_config_check {
            return false;
        }
        self.next_config_check = now.saturating_add(CONFIG_RELOAD_INTERVAL_MS);
        true
    }

    /// Whether the game's input config is due a check at `now`.
    pub fn binding_check_due(&mut self, now: u64) -> (due: bool)
        ensures
            engine_moves(*old(self), TickEvent::Other, *final(self)),
            due == (now >= old(self).next_binding_check),
            *final(self) == (if due {
                Engine { next_binding_check: sat_add(now, BINDING_RELOAD_INTERVAL_MS), ..*old(self) }
            } else {
                *old(self)
            }),
    {
        if now < self.next_binding_check {
            return false;
        }
        self.next_binding_check = now.saturating_add(BINDING_RELOAD_INTERVAL_MS);
        true
    }

    /// Whether the check that the game still runs is due at `now`, on idle and paused ticks.
    pub fn idle_check_due(&mut self, now: u64) -> (due: bool)
        ensures
            engine_moves(*old(self), TickEvent::Other, *final(self)),
            due == (now >= old(self).next_idle_check),
            *final(self) == (if due {
                Engine { next_idle_check: sat_add(now, IDLE_PROCESS_CHECK_INTERVAL_MS), ..*old(self) }
            } else {
                *old(self)
            }),
    {
        if now < self.next_idle_check {
            return false;
        }
        self.next_idle_check = now.saturating_add(IDLE_PROCESS_CHECK_INTERVAL_MS);
        true
    }

    /// The toggle key: a fresh press while the game is focused arms or disarms.
    pub fn toggle(&mut self, toggle_is_down: bool, foreground: bool) -> (t: Toggle)
        ensures
            engine_moves(*old(self), TickEvent::Toggle { down: toggle_is_down, focused: foreground }, *final(self)),
            final(self).toggle_was_down == toggle_is_down,
            final(self).tick == TickStage::Idle,
            final(self).armed == (old(self).armed != (toggle_is_down && !old(self).toggle_was_down
                && foreground)),
            !(toggle_is_down && !old(self).toggle_was_down && foreground) ==> t == Toggle::Unchanged
                && *final(self) == (Engine {
                toggle_was_down: toggle_is_down,
                tick: TickStage::Idle,
                ..*old(self)
            }),
            (toggle_is_down && !old(self).toggle_was_down && foreground && !old(self).armed) ==> t
                == Toggle::Armed && *final(self) == (Engine {
                armed: true,
                tick: TickStage::Idle,
                toggle_was_down: toggle_is_down,
                bad_samples: 0,
                ..*old(self)
            }),
            (toggle_is_down && !old(self).toggle_was_down && foreground && old(self).armed) ==> ({
                let (e1, shown) = show_step(
                    Engine { armed: false, bad_samples: 0, needs_refresh: false, ..*old(self) },
                    EngineStatus::Disarmed,
                );
                t == Toggle::Disarmed(shown) && *final(self) == (Engine {
                    toggle_was_down: toggle_is_down,
                    tick: TickStage::Idle,
                    ..e1
                })
            }),
    {
        let rising = toggle_is_down && !self.toggle_was_down;
        let mut result = Toggle::Unchanged;
        if rising && foreground {
            self.armed = !self.armed;
            self.bad_samples = 0;
            if self.armed {
                result = Toggle::Armed;
            } else {
                self.needs_refresh = false;
                let shown = self.show(EngineStatus::Disarmed);
                result = Toggle::Disarmed(shown);
            }
        }
        self.toggle_was_down = toggle_is_down;
        self.tick = TickStage::Idle;
        result
    }

    /// After arming: the re-resolve gave the area's status, or failed (`None`) and is retried
    /// at once.
    pub fn armed_refresh(&mut self, area: Option<EngineStatus>, now: u64) -> (shown: Option<EngineStatus>)
        ensures
            engine_moves(*old(self), TickEvent::Other, *final(self)),
            match area {
                Some(st) => (*final(self), shown) == show_step(
                    Engine { needs_refresh: false, ..*old(self) },
                    st,
                ),
                None => (*final(self), shown) == show_step(
                    Engine { needs_refresh: true, next_refresh: now, ..*old(self) },
                    EngineStatus::Reconnecting,
                ),
            },
    {
        match area {
            Some(st) => {
                self.needs_refresh = false;
                self.show(st)
            },
            None => {
                self.needs_refresh = true;
                self.next_refresh = now;
                self.show(EngineStatus::Reconnecting)
            },
        }
    }

    /// Whether this tick continues, from whether the game is focused (read only when armed)
    /// and the bindings in use.
    pub fn gate(&mut self, foreground: bool, bindings: &GameBindings) -> (g: Gate)
        ensures
            engine_moves(*old(self), TickEvent::Gate { focused: foreground, keyboard: bindings@ is Keyboard }, *final(self)),
            (*final(self), g) == gate_step(*old(self), foreground, bindings@),
    {
        self.tick = TickStage::Idle;
        if !self.armed {
            return Gate::Idle;
        }
        if !foreground {
            self.needs_refresh = true;
            let shown = self.show(EngineStatus::PausedBackground);
            return Gate::Paused(shown);
        }
        match bindings {
            GameBindings::Keyboard { life, mana, .. } => {
                self.tick = TickStage::Gated;
                Gate::Proceed(*life, *mana)
            },
            GameBindings::Gamepad => Gate::Paused(self.show(EngineStatus::PausedGamepad)),
            GameBindings::UnsupportedMode(_) => Gate::Paused(self.show(EngineStatus::PausedInputMode)),
            GameBindings::Unavailable(_) => Gate::Paused(self.show(EngineStatus::PausedBindings)),
        }
    }

    /// Whether a re-resolve is to happen at `now`.
    pub fn refresh_plan(&self, now: u64) -> (p: RefreshPlan)
        ensures
            p == (if !self.needs_refresh {
                RefreshPlan::NotNeeded
            } else if now < self.next_refresh {
                RefreshPlan::Wait
            } else {
                RefreshPlan::Now
            }),
    {
        if !self.needs_refresh {
            RefreshPlan::NotNeeded
        } else if now < self.next_refresh {
            RefreshPlan::Wait
        } else {
            RefreshPlan::Now
        }
    }

    /// A re-resolve gave the area's status, or failed (`None`) and is retried a little later.
    pub fn refresh_result(&mut self, area: Option<EngineStatus>, now: u64) -> (shown: Option<EngineStatus>)
        ensures
            engine_moves(*old(self), TickEvent::Other, *final(self)),
            match area {
                Some(st) => (*final(self), shown) == show_step(
                    Engine { needs_refresh: false, bad_samples: 0, ..*old(self) },
                    st,
                ),
                None => (*final(self), shown) == show_step(
                    Engine { next_refresh: sat_add(now, REFRESH_RETRY_MS), ..*old(self) },
                    EngineStatus::Reconnecting,
                ),
            },
    {
        match area {
            Some(st) => {
                self.needs_refresh = false;
                self.bad_samples = 0;
                self.show(st)
            },
            None => {
                self.next_refresh = now.saturating_add(REFRESH_RETRY_MS);
                self.show(EngineStatus::Reconnecting)
            },
        }
    }

    /// While paused in a town or hideout: whether the area instance is still the resolved one
    /// (`None` when it could not be read). A different or unreadable one calls for a re-resolve.
    pub fn area_instance_checked(&mut self, current: Option<bool>, now: u64)
        ensures
            engine_moves(*old(self), TickEvent::Other, *final(self)),
            *final(self) == (if current == Some(true) {
                *old(self)
            } else {
                Engine { needs_refresh: true, next_refresh: now, ..*old(self) }
            }),
    {
        if current == Some(true) {
            return ;
        }
        self.needs_refresh = true;
        self.next_refresh = now;
    }

    /// A sample succeeded.
    pub fn sample_ok(&mut self)
        ensures
            engine_moves(*old(self), TickEvent::Other, *final(self)),
            *final(self) == (Engine { bad_samples: 0, ..*old(self) }),
    {
        self.bad_samples = 0;
    }

    /// A sample failed; `interrupted` when the game state moved on.
    pub fn bad_sample(&mut self, interrupted: bool, now: u64) -> (shown: Option<EngineStatus>)
        ensures
            engine_moves(*old(self), TickEvent::Other, *final(self)),
            (*final(self), shown) == bad_sample_step(*old(self), interrupted, now),
    {
        self.bad_samples = self.bad_samples.saturating_add(1);
        if interrupted || self.bad_samples >= BAD_SAMPLE_LIMIT {
            self.needs_refresh = true;
            self.next_refresh = now;
            return self.show(EngineStatus::Reconnecting);
        }
        None
    }

    /// Whether the area allows automation; a tick that was let through goes on only then.
    pub fn area_gate(&mut self, area: &AreaInfo, enable_in_hideout: bool) -> (ok: bool)
        ensures
            engine_moves(*old(self), TickEvent::Area { allowed: ok }, *final(self)),
            ok == allows_automation(area.is_town, area.is_hideout, enable_in_hideout),
            *final(self) == (Engine {
                tick: if ok && old(self).tick == TickStage::Gated {
                    TickStage::InArea
                } else {
                    TickStage::Idle
                },
                ..*old(self)
            }),
    {
        let ok = area.allows_auto_flask(enable_in_hideout);
        self.tick = if ok && self.tick == TickStage::Gated {
            TickStage::InArea
        } else {
            TickStage::Idle
        };
        ok
    }

    /// Whether this tick may decide on and press flasks: the engine is armed and the tick has
    /// been let through for focus and bindings, the area check and the life check, in order.
    pub fn cleared(&self) -> (b: bool)
        ensures
            b == (self.armed && self.tick == TickStage::Alive),
    {
        self.armed && self.tick == TickStage::Alive
    }

    /// After a good sample: a dead character pauses automation and both block notices are
    /// forgotten; otherwise the engine shows that it is armed. Returns whether to go on, and
    /// the status to print.
    pub fn life_check(&mut self, health: VitalPool) -> (r: (bool, Option<EngineStatus>))
        ensures
            engine_moves(*old(self), TickEvent::Life { alive: r.0 }, *final(self)),
            r.0 == !is_dead(health),
            is_dead(health) ==> (*final(self), r.1) == show_step(
                Engine {
                    tick: TickStage::Idle,
                    health: FlaskState { charge_block_reported: false, ..old(self).health },
                    mana: FlaskState { charge_block_reported: false, ..old(self).mana },
                    ..*old(self)
                },
                EngineStatus::PausedDead,
            ),
            !is_dead(health) ==> (*final(self), r.1) == show_step(
                Engine {
                    tick: if old(self).tick == TickStage::InArea {
                        TickStage::Alive
                    } else {
                        TickStage::Idle
                    },
                    ..*old(self)
                },
                EngineStatus::Armed,
            ),
    {
        if player_is_dead(health) {
            self.tick = TickStage::Idle;
            self.health.clear_block_notice();
            self.mana.clear_block_notice();
            let shown = self.show(EngineStatus::PausedDead);
            return (false, shown);
        }
        self.tick = match self.tick {
            TickStage::InArea => TickStage::Alive,
            _ => TickStage::Idle,
        };
        let shown = self.show(EngineStatus::Armed);
        (true, shown)
    }

    /// The Life flask's decision. A character whose Life is fixed at one is never given a Life
    /// flask; its block notice is forgotten instead.
    pub fn decide_life(&mut self, vitals: &LiveVitals, input: FlaskInput, now: u64) -> (d: FlaskDecision)
        requires
            old(self).armed,
            old(self).tick == TickStage::Alive,
        ensures
            engine_moves(*old(self), TickEvent::Press, *final(self)),
            is_ci_like(vitals.health, vitals.energy_shield) ==> d == FlaskDecision::Skip
                && *final(self) == (Engine {
                health: FlaskState { charge_block_reported: false, ..old(self).health },
                ..*old(self)
            }),
            !is_ci_like(vitals.health, vitals.energy_shield) ==> (final(self).health, d) == flask_step(
                old(self).health,
                input,
                now,
            ) && *final(self) == (Engine { health: final(self).health, ..*old(self) }),
    {
        if !ci_like_defense(vitals.health, vitals.energy_shield) {
            maybe_fire(&mut self.health, input, now)
        } else {
            self.health.clear_block_notice();
            FlaskDecision::Skip
        }
    }

    /// The Mana flask's decision; nothing when the character has no Mana pool.
    pub fn decide_mana(&mut self, vitals: &LiveVitals, input: FlaskInput, now: u64) -> (d: FlaskDecision)
        requires
            old(self).armed,
            old(self).tick == TickStage::Alive,
        ensures
            engine_moves(*old(self), TickEvent::Press, *final(self)),
            vitals.mana is None ==> d == FlaskDecision::Skip && *final(self) == *old(self),
            vitals.mana is Some ==> (final(self).mana, d) == flask_step(old(self).mana, input, now)
                && *final(self) == (Engine { mana: final(self).mana, ..*old(self) }),
    {
        match vitals.mana {
            Some(_) => maybe_fire(&mut self.mana, input, now),
            None => FlaskDecision::Skip,
        }
    }

    /// Records a press of the flask in `slot` at `now`.
    pub fn fired(&mut self, slot: usize, now: u64)
        requires
            old(self).armed,
            old(self).tick == TickStage::Alive,
            slot == LIFE_FLASK_SLOT || slot == MANA_FLASK_SLOT,
        ensures
            engine_moves(*old(self), TickEvent::Press, *final(self)),
            slot == LIFE_FLASK_SLOT ==> *final(self) == (Engine {
                health: FlaskState { last_fire: Some(now), charge_block_reported: false },
                ..*old(self)
            }),
            slot == MANA_FLASK_SLOT ==> *final(self) == (Engine {
                mana: FlaskState { last_fire: Some(now), charge_block_reported: false },
                ..*old(self)
            }),
    {
        if slot == LIFE_FLASK_SLOT {
            self.health.mark_fired(now);
        } else {
            self.mana.mark_fired(now);
        }
    }
}

/// The lines shown for a settings reload; `summary` describes the new settings.
pub open spec fn config_reload_lines(r: crate::config::ConfigReloadModel, summary: Seq<char>) -> Seq<Seq<char>> {
    match r {
        crate::config::ConfigReloadModel::Unchanged => Seq::empty(),
        crate::config::ConfigReloadModel::Reloaded => seq!["Config reloaded: "@ + summary],
        crate::config::ConfigReloadModel::Removed => seq!["Config: config.toml removed; keeping previous settings."@],
        crate::config::ConfigReloadModel::Invalid(e) => seq!["Config reload failed: "@ + e, "Keeping previous settings."@],
        crate::config::ConfigReloadModel::ReadError(e) => seq!["Config reload read failed: "@ + e, "Keeping previous settings."@],
    }
}

fn line(prefix: &str, rest: &str) -> (s: String)
    ensures
        s@ == prefix@ + rest@,
{
    let mut s = string_from(prefix);
    push_str(&mut s, rest);
    s
}

/// Renders the lines shown for a settings reload.
pub fn config_reload_messages(r: &ConfigReload, summary: &str) -> (lines: Vec<String>)
    ensures
        lines@.len() == config_reload_lines(r@, summary@).len(),
        forall|i: int| 0 <= i < lines@.len() ==> #[trigger] lines@[i]@ == config_reload_lines(r@, summary@)[i],
{
    let mut lines: Vec<String> = Vec::new();
    match r {
        ConfigReload::Unchanged => {},
        ConfigReload::Reloaded => {
            lines.push(line("Config reloaded: ", summary));
        },
        ConfigReload::Removed => {
            lines.push(string_from("Config: config.toml removed; keeping previous settings."));
        },
        ConfigReload::Invalid(e) => {
            lines.push(line("Config reload failed: ", e.as_str()));
            lines.push(string_from("Keeping previous settings."));
        },
        ConfigReload::ReadError(e) => {
            lines.push(line("Config reload read failed: ", e.as_str()));
            lines.push(string_from("Keeping previous settings."));
        },
    }
    lines
}

/// The lines shown for a bindings reload; `summary` describes the new bindings.
pub open spec fn binding_reload_lines(r: crate::bindings::ReloadModel, summary: Seq<char>) -> Seq<Seq<char>> {
    match r {
        crate::bindings::ReloadModel::Unchanged => Seq::empty(),
        crate::bindings::ReloadModel::Reloaded => seq!["Bindings reloaded: "@ + summary],
        crate::bindings::ReloadModel::Removed => seq!["PoE2 input config removed; auto input paused until it returns."@],
        crate::bindings::ReloadModel::Invalid(e) => seq!["PoE2 binding reload failed: "@ + e, "Auto input paused until valid bindings can be read."@],
        crate::bindings::ReloadModel::ReadError(e) => seq!["PoE2 binding check failed: "@ + e, "Auto input paused until bindings can be read again."@],
    }
}

/// Renders the lines shown for a bindings reload.
pub fn binding_reload_messages(r: &BindingReload, summary: &str) -> (lines: Vec<String>)
    ensures
        lines@.len() == binding_reload_lines(r@, summary@).len(),
        forall|i: int| 0 <= i < lines@.len() ==> #[trigger] lines@[i]@ == binding_reload_lines(r@, summary@)[i],
{
    let mut lines: Vec<String> = Vec::new();
    match r {
        BindingReload::Unchanged => {},
        BindingReload::Reloaded => {
            lines.push(line("Bindings reloaded: ", summary));
        },
        BindingReload::Removed => {
            lines.push(string_from("PoE2 input config removed; auto input paused until it returns."));
        },
        BindingReload::Invalid(e) => {
            lines.push(line("PoE2 binding reload failed: ", e.as_str()));
            lines.push(string_from("Auto input paused until valid bindings can be read."));
        },
        BindingReload::ReadError(e) => {
            lines.push(line("PoE2 binding check failed: ", e.as_str()));
            lines.push(string_from("Auto input paused until bindings can be read again."));
        },
    }
    lines
}

} // verus!
