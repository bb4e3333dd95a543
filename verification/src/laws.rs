//! Properties of the library as a whole, each proved from the contracts' spec functions.

use vstd::prelude::*;

use crate::area::{allows_automation, is_town_area, plausible_address};
use crate::automation::{
    bad_sample_step, engine_moves, is_ci_like, is_dead, flask_step, gate_step, guard_passed, show_step, Engine,
    EngineStatus, FlaskDecision, FlaskInput, FlaskState, Gate, TickEvent, TickStage,
    BAD_SAMPLE_LIMIT, POST_SEND_SAFETY_GUARD_MS,
};
use crate::bindings::{
    file_bindings, input_mode_of, line_scan, load_model, mode_label, no_stale_bindings,
    parse_model, reload_step, scan_line, scan_lines, scan_text, BindingManagerModel, BindingsModel,
    ScanState, Section,
    FileReadModel, InputModeModel, KeyboardMode, ReloadModel,
};
use crate::charge_sample::{
    probe_bytes_step, probe_int_step, probe_word_step, read_state, sample_bytes_step,
    sample_int_step, sample_word_step, snapshot_fits, value_failure, ProbeResolveModel,
    ProbeStepModel, SampleModel, SampleStepModel,
};
use crate::cli::{attach_step, reattaches, AttachFailure, AttachStep};
use crate::config::{config_reload_step, ConfigManagerModel, ConfigReadModel, ConfigReloadModel};
use crate::error::{ErrorKind, ProbeErrorModel};
use crate::file_watch::FileStamp;
use crate::flask_inventory::{plausible_charges, CachedChargeComponent, FlaskChargeState};
use crate::buffs::is_flask_lock_name_text;
use crate::input::{
    is_mouse_button_code, modifier_key, poe_binding, press_events, BindingError, KeyBinding,
    KeyEvent, KeyModifier,
};
use crate::offsets::{is_search_order, offset_candidate};
use crate::poe2::{
    fraction_reserve, plausible_pool, usable_max_of, vitals_sample_result, VitalPool, VitalsProbe,
    VitalsReads,
};
use crate::process::{match_addresses, match_positions, start_count};
use crate::text::{first_from, is_white_space, trim, trim_end, trim_start};

verus! {

/// Towns never allow automation, whatever the hideout setting.
pub proof fn lemma_towns_always_blocked(is_hideout: bool, enable_in_hideout: bool)
    ensures
        !allows_automation(true, is_hideout, enable_in_hideout),
{
}

/// Hideouts allow automation only when the user enables it.
pub proof fn lemma_hideouts_need_opt_in(is_town: bool)
    ensures
        !allows_automation(is_town, true, false),
{
}

/// A tick goes on to the flasks only when armed, with the game focused and keyboard bindings;
/// only then is it let through, and any other outcome starts the tick's checks over.
pub proof fn lemma_gate_requires_armed_focus_keyboard(e: Engine, foreground: bool, b: BindingsModel)
    ensures
        gate_step(e, foreground, b).1 is Proceed ==> e.armed && foreground && b is Keyboard,
        !e.armed ==> gate_step(e, foreground, b) == (Engine { tick: TickStage::Idle, ..e }, Gate::Idle),
        gate_step(e, foreground, b).0.tick == TickStage::Gated <==> gate_step(e, foreground, b).1 is Proceed,
        !(gate_step(e, foreground, b).1 is Proceed) ==> gate_step(e, foreground, b).0.tick == TickStage::Idle,
{
}

/// Only a press moves a flask's last press time: deciding, gating, showing a status and
/// counting a failed sample leave both flasks' last presses as they were, so the safety guard
/// always measures from the flask's last press.
pub proof fn lemma_only_presses_move_last_fire(
    s: FlaskState,
    input: FlaskInput,
    now: u64,
    e: Engine,
    foreground: bool,
    b: BindingsModel,
    status: EngineStatus,
    interrupted: bool,
)
    ensures
        flask_step(s, input, now).0.last_fire == s.last_fire,
        gate_step(e, foreground, b).0.health == e.health,
        gate_step(e, foreground, b).0.mana == e.mana,
        show_step(e, status).0.health == e.health,
        show_step(e, status).0.mana == e.mana,
        bad_sample_step(e, interrupted, now).0.health == e.health,
        bad_sample_step(e, interrupted, now).0.mana == e.mana,
{
}

/// A flask is pressed only when enabled, at or below its threshold, with no active effect of
/// its slot, past the safety guard, and with at least one use worth of charges.
pub proof fn lemma_fire_requires_every_condition(s: FlaskState, input: FlaskInput, now: u64)
    ensures
        flask_step(s, input, now).1 matches FlaskDecision::Fire(c) ==> {
            &&& input.enabled
            &&& input.above_threshold == Some(false)
            &&& !input.locked
            &&& guard_passed(s, now)
            &&& input.charges == Some(c)
            &&& c.current >= c.per_use
        },
{
}

/// After a press at `fired_at`, the same flask is not pressed again within the safety guard.
pub proof fn lemma_no_press_within_guard(input: FlaskInput, fired_at: u64, now: u64)
    requires
        fired_at <= now,
        now - fired_at < POST_SEND_SAFETY_GUARD_MS,
    ensures
        !(flask_step(
            FlaskState { last_fire: Some(fired_at), charge_block_reported: false },
            input,
            now,
        ).1 is Fire),
{
}

/// A block notice is shown once: a second tick in the same situation shows nothing new.
pub proof fn lemma_block_notice_once(s: FlaskState, input: FlaskInput, now: u64)
    ensures
        flask_step(s, input, now).1 matches FlaskDecision::Blocked(Some(_)) ==> flask_step(
            flask_step(s, input, now).0,
            input,
            now,
        ).1 == FlaskDecision::Blocked(None),
{
}

/// A status is printed once: showing it again prints nothing.
pub proof fn lemma_status_shown_once(e: Engine, s: crate::automation::EngineStatus)
    ensures
        show_step(show_step(e, s).0, s).1 is None,
        show_step(e, s).0.shown_status == Some(s),
{
}

/// A sample that finds the game state moved on calls for a re-resolve at once; otherwise
/// `BAD_SAMPLE_LIMIT` failed samples in a row do.
pub proof fn lemma_bad_samples_force_refresh(e: Engine, now: u64)
    requires
        e.bad_samples == 0,
    ensures
        bad_sample_step(e, true, now).0.needs_refresh,
        ({
            let e1 = bad_sample_step(e, false, now).0;
            let e2 = bad_sample_step(e1, false, now).0;
            let e3 = bad_sample_step(e2, false, now).0;
            !e1.needs_refresh ==> !e2.needs_refresh ==> e3.needs_refresh && e3.next_refresh == now
        }),
{
    assert(BAD_SAMPLE_LIMIT == 3);
}

/// Mouse buttons are never accepted as flask keys.
pub proof fn lemma_mouse_buttons_refused(vk: u16, modifier: u8)
    requires
        is_mouse_button_code(vk),
    ensures
        poe_binding(vk, modifier) is Err,
{
}

/// A changed input config with valid, different bindings is adopted and reported.
pub proof fn lemma_binding_change_adopted(
    m: BindingManagerModel,
    stamp: FileStamp,
    file: FileReadModel,
    b: BindingsModel,
)
    requires
        m.observed != Some(stamp),
        file_bindings(m.path, file) == Ok::<BindingsModel, Seq<char>>(b),
        b != m.current,
    ensures
        reload_step(m, Ok(Some(stamp)), Some(file)).1 == ReloadModel::Reloaded,
        reload_step(m, Ok(Some(stamp)), Some(file)).0.current == b,
        reload_step(m, Ok(Some(stamp)), Some(file)).0.observed == Some(stamp),
{
}

/// An unchanged stamp leaves everything as it is.
pub proof fn lemma_binding_unchanged_stamp(m: BindingManagerModel, file: Option<FileReadModel>)
    ensures
        reload_step(m, Ok(m.observed), file) == (m, ReloadModel::Unchanged),
{
}

/// When the bindings cannot be read, are invalid or are removed, none are used: the engine
/// pauses instead of pressing keys.
pub proof fn lemma_binding_failure_pauses(
    m: BindingManagerModel,
    stamp: Result<Option<FileStamp>, Seq<char>>,
    file: Option<FileReadModel>,
    e: Engine,
    foreground: bool,
)
    ensures
        ({
            let (m1, r) = reload_step(m, stamp, file);
            (r is Invalid || r is ReadError || r is Removed) ==> m1.current is Unavailable
                && !(gate_step(e, foreground, m1.current).1 is Proceed)
        }),
{
}

/// The same failure to check the input config is reported once.
pub proof fn lemma_binding_error_reported_once(m: BindingManagerModel, error: Seq<char>)
    ensures
        reload_step(reload_step(m, Err(error), None).0, Err(error), None).1 == ReloadModel::Unchanged,
{
}

/// Settings stay as they are unless a reload adopts new ones.
pub proof fn lemma_config_kept_unless_reloaded<C>(
    m: ConfigManagerModel<C>,
    stamp: Result<Option<FileStamp>, Seq<char>>,
    file: Option<ConfigReadModel<C>>,
)
    ensures
        !(config_reload_step(m, stamp, file).1 is Reloaded) ==> config_reload_step(
            m,
            stamp,
            file,
        ).0.current == m.current,
{
}

/// A changed settings file with valid settings is adopted and reported.
pub proof fn lemma_config_change_adopted<C>(m: ConfigManagerModel<C>, stamp: FileStamp, c: C)
    requires
        m.observed != Some(stamp),
    ensures
        config_reload_step(m, Ok(Some(stamp)), Some(ConfigReadModel::Parsed(c))).1
            == ConfigReloadModel::Reloaded,
        config_reload_step(m, Ok(Some(stamp)), Some(ConfigReadModel::Parsed(c))).0.current == c,
{
}

/// The same failure to read the settings is reported once.
pub proof fn lemma_config_error_reported_once<C>(m: ConfigManagerModel<C>, error: Seq<char>)
    ensures
        config_reload_step(config_reload_step(m, Err(error), None).0, Err(error), None).1
            == ConfigReloadModel::Unchanged,
{
}

/// A reservation in basis points takes the rounded-up share of the total.
pub proof fn lemma_reservation_rounds_up(total: int, fraction: int)
    requires
        0 <= total,
        0 <= fraction,
    ensures
        fraction_reserve(total, fraction) * 10_000 >= total * fraction,
        (fraction_reserve(total, fraction) - 1) * 10_000 < total * fraction,
{
    let n = total * fraction + 9_999;
    assert(total * fraction >= 0) by (nonlinear_arith)
        requires
            0 <= total,
            0 <= fraction,
    ;
    assert(fraction_reserve(total, fraction) == n / 10_000);
    assert((n / 10_000) * 10_000 <= n < (n / 10_000) * 10_000 + 10_000) by (nonlinear_arith)
        requires
            n >= 0,
    ;
}

/// A plausible pool's usable maximum lies between zero and its total.
pub proof fn lemma_usable_max_bounds(p: VitalPool)
    requires
        plausible_pool(p),
    ensures
        0 <= usable_max_of(p) <= p.total,
{
    lemma_reservation_rounds_up(p.total as int, p.reserved_fraction as int);
    let t = p.total as int;
    let f = p.reserved_fraction as int;
    assert(t * f >= 0) by (nonlinear_arith)
        requires
            t > 0,
            f >= 0,
    ;
    let r = fraction_reserve(t, f);
    assert(r >= 0) by (nonlinear_arith)
        requires
            r * 10_000 >= t * f,
            t * f >= 0,
    ;
}

/// The offset search tries `center` first when it is in range.
pub proof fn lemma_search_starts_at_center(r: Seq<usize>, center: usize, step: usize, start: usize, end: usize)
    requires
        step > 0,
        is_search_order(r, center as int, step as int, start as int, end as int),
        start <= center <= end,
    ensures
        r.len() > 0,
        r[0] == center,
{
    assert(offset_candidate(center as int, center as int, step as int, start as int, end as int)) by {
        assert(((center - center) as int) % (step as int) == 0);
    }
    assert(r.contains(center));
    let k = choose|k: int| 0 <= k < r.len() && r[k] == center;
    if k != 0 {
        assert(crate::offsets::tried_before(r[0] as int, r[k] as int, center as int));
    }
}

proof fn lemma_positions_increasing(data: Seq<u8>, pattern: Seq<Option<u8>>, n: int)
    ensures
        forall|i: int, j: int|
            0 <= i < j < match_positions(data, pattern, n).len() ==> match_positions(
                data,
                pattern,
                n,
            )[i] < match_positions(data, pattern, n)[j],
        forall|i: int|
            0 <= i < match_positions(data, pattern, n).len() ==> 0 <= #[trigger] match_positions(
                data,
                pattern,
                n,
            )[i] < n,
    decreases n,
{
    if n > 0 {
        lemma_positions_increasing(data, pattern, n - 1);
        let prev = match_positions(data, pattern, n - 1);
        if crate::process::matches_at(data, pattern, n - 1) {
            let cur = prev.push(n - 1);
            assert(match_positions(data, pattern, n) == cur);
            assert forall|i: int, j: int| 0 <= i < j < cur.len() implies cur[i] < cur[j] by {
                if j == cur.len() - 1 {
                    assert(0 <= prev[i] < n - 1);
                } else {
                    assert(prev[i] < prev[j]);
                }
            }
            assert forall|i: int| 0 <= i < cur.len() implies 0 <= #[trigger] cur[i] < n by {
                if i < prev.len() {
                    assert(0 <= prev[i] < n - 1);
                }
            }
        }
    }
}

/// The chunked signature scan reports each match once, in increasing address order.
pub proof fn lemma_scan_addresses_increasing(data: Seq<u8>, pattern: Seq<Option<u8>>, base: int)
    requires
        0 <= base,
        base + data.len() <= usize::MAX,
    ensures
        forall|i: int, j: int|
            0 <= i < j < match_addresses(data, pattern, base).len() ==> match_addresses(
                data,
                pattern,
                base,
            )[i] < match_addresses(data, pattern, base)[j],
{
    let n = start_count(data.len() as int, pattern.len() as int);
    lemma_positions_increasing(data, pattern, n);
}

/// A Charges component taken from the cache whose values cannot be read is dropped from the
/// cache and looked up again; a component that was looked up and whose values cannot be read
/// fails the sample, with the check's error or the failed read's own.
pub proof fn lemma_charge_lookup_retried_once(m: SampleModel, e: Option<ProbeErrorModel>)
    requires
        m.wf(),
        m.expects_values(),
    ensures
        m.from_cache ==> ({
            let (m1, s1) = value_failure(m, e);
            &&& m1.stage is Entity
            &&& !m1.from_cache
            &&& m1.entries[m.slot as int] is None
            &&& s1 == SampleStepModel::ReadWord(m.pointers[m.slot as int])
        }),
        !m.from_cache ==> value_failure(m, e).1 == match e {
            Some(e) => SampleStepModel::Done(Err(e)),
            None => SampleStepModel::ReadError,
        },
{
}

/// Charge values are never cached: a flask's reported charges are the ones just read, and the
/// cache keeps only the flask's component.
pub proof fn lemma_charge_values_live(m: SampleModel, per_use: i32)
    requires
        m.wf(),
        m.stage is PerUse,
        plausible_charges(m.current, per_use),
    ensures
        ({
            let (m1, s1) = sample_int_step(m, per_use);
            &&& m1.slots[m.slot as int] == Some(read_state(m, per_use))
            &&& m1.entries[m.slot as int] == m.entries[m.slot as int]
            &&& m1.entries[m.slot as int] == Some(
                CachedChargeComponent {
                    inventory_item: m.pointers[m.slot as int],
                    item_entity: m.entity,
                    charges_component: m.component,
                },
            )
        }),
{
}

/// A flask inventory is reported usable only when a full charge sample of that inventory has
/// just succeeded: every filled slot's item exposed a Charges component with plausible values,
/// and empty slots were reported empty.
pub proof fn lemma_probe_needs_valid_sample(m: ProbeResolveModel, v: usize, n: i32, b: Seq<u8>)
    requires
        m.wf(),
    ensures
        m.expects_word() ==> (probe_word_step(m, v).1 matches ProbeStepModel::Done(Ok(p)) ==> (
        m.sample matches Some(s) && !s.fast && p == s.probe && (sample_word_step(s, v).1 matches SampleStepModel::Done(
            Ok(slots),
        ) && snapshot_fits(sample_word_step(s, v).0, slots)))),
        m.expects_int() ==> (probe_int_step(m, n).1 matches ProbeStepModel::Done(Ok(p)) ==> (
        m.sample matches Some(s) && !s.fast && p == s.probe && (sample_int_step(s, n).1 matches SampleStepModel::Done(
            Ok(slots),
        ) && snapshot_fits(sample_int_step(s, n).0, slots)))),
        m.bytes_wanted() == Some(b.len()) ==> (probe_bytes_step(m, b).1 matches ProbeStepModel::Done(
            Ok(p),
        ) ==> (m.sample matches Some(s) && p == s.probe && (sample_bytes_step(s, b).1 matches SampleStepModel::Done(
            Ok(slots),
        ) && snapshot_fits(sample_bytes_step(s, b).0, slots)))),
{
}

/// A sample succeeds only while the area instance and the local player are the resolved ones and
/// Life passes its checks; a different area instance is reported as an interruption.
pub proof fn lemma_sample_fails_closed(probe: VitalsProbe, reads: VitalsReads)
    ensures
        vitals_sample_result(probe, reads) is Ok ==> reads.area_instance == Some(probe.area_instance)
            && reads.local_player == Some(probe.local_player) && (reads.health matches Some(h)
            && plausible_pool(h)),
        (reads.area_instance matches Some(a) && a != probe.area_instance) ==> (vitals_sample_result(
            probe,
            reads,
        ) matches Err(e) && e.kind == ErrorKind::Interrupted),
{
}

/// Under Proton/Wine the helper never outlives the game: it stops when the game is not running
/// and does not attach again after the game exits. On Windows it waits for the game instead.
pub proof fn lemma_wine_helper_exits_with_game(notice_shown: bool)
    ensures
        attach_step(AttachFailure::NotFound, true, notice_shown) == AttachStep::Stop,
        !reattaches(true),
        attach_step(AttachFailure::NotFound, false, notice_shown) is Retry,
        reattaches(false),
{
}


/// The mode parser reads each keyboard mode's label back as that mode and "gamepad" as the
/// gamepad mode; any other value is kept as an unsupported mode.
pub proof fn lemma_mode_labels_round_trip(m: KeyboardMode, value: Seq<char>)
    ensures
        input_mode_of(mode_label(m)) == match m {
            KeyboardMode::MouseAndKeyboard => InputModeModel::MouseAndKeyboard,
            KeyboardMode::Wasd => InputModeModel::Wasd,
        },
        input_mode_of("gamepad"@) == InputModeModel::Gamepad,
        value != "mouse_and_keyboard"@ && value != "wasd"@ && value != "gamepad"@ ==> input_mode_of(
            value,
        ) == InputModeModel::Unsupported(value),
{
    reveal_strlit("mouse_and_keyboard");
    reveal_strlit("wasd");
    reveal_strlit("gamepad");
    assert("mouse_and_keyboard"@.len() == 18);
    assert("wasd"@.len() == 4);
    assert("gamepad"@.len() == 7);
    assert("wasd"@ != "mouse_and_keyboard"@);
    assert("gamepad"@ != "mouse_and_keyboard"@);
    assert("gamepad"@ != "wasd"@);
}


/// Automation never runs on stale bindings: the manager starts and stays with unavailable
/// bindings whenever it holds no accepted stamp of the file, so a missing, unreadable or invalid
/// file leaves the bindings unavailable; and a reported removal, invalid file or read failure
/// leaves them unavailable.
pub proof fn lemma_bindings_never_stale(
    path: Seq<char>,
    stamp: Option<FileStamp>,
    file: Option<FileReadModel>,
    m: BindingManagerModel,
    next: Result<Option<FileStamp>, Seq<char>>,
    read: Option<FileReadModel>,
)
    ensures
        no_stale_bindings(load_model(path, stamp, file)),
        no_stale_bindings(m) ==> no_stale_bindings(reload_step(m, next, read).0),
        no_stale_bindings(m) && (next matches Ok(None)) ==> reload_step(
            m,
            next,
            read,
        ).0.current is Unavailable,
        (reload_step(m, next, read).1 is Removed || reload_step(m, next, read).1 is Invalid
            || reload_step(m, next, read).1 is ReadError) ==> reload_step(
            m,
            next,
            read,
        ).0.current is Unavailable,
{
}


/// Whether a config line is skipped by the scan: blank, or a comment starting with `#` or `;`
/// once trimmed.
pub open spec fn skipped_line(l: Seq<char>) -> bool {
    let t = trim(l);
    t.len() == 0 || t[0] == '#' || t[0] == ';'
}

/// Whether every character of `s` is white space.
pub open spec fn all_white(s: Seq<char>) -> bool {
    forall|i: int| 0 <= i < s.len() ==> is_white_space(#[trigger] s[i])
}

proof fn lemma_trim_start_white_prefix(w: Seq<char>, s: Seq<char>)
    requires
        all_white(w),
    ensures
        trim_start(w + s) == trim_start(s),
    decreases w.len(),
{
    if w.len() > 0 {
        assert((w + s).drop_first() =~= w.drop_first() + s);
        assert((w + s)[0] == w[0]);
        lemma_trim_start_white_prefix(w.drop_first(), s);
    } else {
        assert(w + s =~= s);
    }
}

proof fn lemma_trim_end_white_suffix(s: Seq<char>, w: Seq<char>)
    requires
        all_white(w),
    ensures
        trim_end(s + w) == trim_end(s),
    decreases w.len(),
{
    if w.len() > 0 {
        assert((s + w).drop_last() =~= s + w.drop_last());
        assert((s + w).last() == w.last());
        lemma_trim_end_white_suffix(s, w.drop_last());
    } else {
        assert(s + w =~= s);
    }
}

/// Trimming the start of `s + w` keeps white space `w` at its end, unless nothing else is left.
proof fn lemma_trim_start_append_white(s: Seq<char>, w: Seq<char>)
    requires
        all_white(w),
    ensures
        trim_start(s + w) == trim_start(s) + w || (trim_start(s).len() == 0 && all_white(
            trim_start(s + w),
        )),
    decreases s.len(),
{
    if s.len() == 0 {
        assert(s + w =~= w);
        assert(trim_start(s) =~= s);
        lemma_trim_start_all_white(w);
    } else if is_white_space(s[0]) {
        assert((s + w).drop_first() =~= s.drop_first() + w);
        lemma_trim_start_append_white(s.drop_first(), w);
    } else {
        assert((s + w)[0] == s[0]);
    }
}

proof fn lemma_trim_start_all_white(w: Seq<char>)
    requires
        all_white(w),
    ensures
        all_white(trim_start(w)),
        trim_start(w).len() == 0,
    decreases w.len(),
{
    if w.len() > 0 {
        lemma_trim_start_all_white(w.drop_first());
    }
}

proof fn lemma_trim_end_all_white(w: Seq<char>)
    requires
        all_white(w),
    ensures
        trim_end(w).len() == 0,
    decreases w.len(),
{
    if w.len() > 0 {
        lemma_trim_end_all_white(w.drop_last());
    }
}

/// White space around a line does not change it once trimmed.
pub proof fn lemma_trim_ignores_surrounding_white(a: Seq<char>, l: Seq<char>, b: Seq<char>)
    requires
        all_white(a),
        all_white(b),
    ensures
        trim(a + l + b) == trim(l),
{
    assert(a + l + b =~= a + (l + b));
    lemma_trim_start_white_prefix(a, l + b);
    lemma_trim_start_append_white(l, b);
    if trim_start(l + b) == trim_start(l) + b {
        lemma_trim_end_white_suffix(trim_start(l), b);
    } else {
        lemma_trim_end_all_white(trim_start(l + b));
        lemma_trim_end_all_white(trim_start(l));
        assert(trim_start(l) =~= Seq::<char>::empty());
    }
}

/// Lines of the game's input config that are blank or comments, anywhere, change nothing the
/// parser reads; neither does white space before or after any line. So two configs whose lines
/// differ only by such lines and such white space parse to the same bindings or the same error.
pub proof fn lemma_parse_ignores_comments_and_white(
    before: Seq<Seq<char>>,
    after: Seq<Seq<char>>,
    line: Seq<char>,
    skipped: Seq<char>,
    lead: Seq<char>,
    tail: Seq<char>,
)
    requires
        skipped_line(skipped),
        all_white(lead),
        all_white(tail),
    ensures
        scan_lines(before + seq![skipped] + after) == scan_lines(before + after),
        scan_lines(before + seq![lead + line + tail] + after) == scan_lines(
            before + seq![line] + after,
        ),
    decreases after.len(),
{
    lemma_trim_ignores_surrounding_white(lead, line, tail);
    if after.len() == 0 {
        assert(before + seq![skipped] + after =~= before.push(skipped));
        assert(before.push(skipped).drop_last() =~= before);
        assert(before + after =~= before);
        assert(before + seq![lead + line + tail] + after =~= before.push(lead + line + tail));
        assert(before + seq![line] + after =~= before.push(line));
        assert(before.push(line).drop_last() =~= before);
        assert(before.push(lead + line + tail).drop_last() =~= before);
    } else {
        lemma_parse_ignores_comments_and_white(before, after.drop_last(), line, skipped, lead, tail);
        assert((before + seq![skipped] + after).drop_last() =~= before + seq![skipped]
            + after.drop_last());
        assert((before + after).drop_last() =~= before + after.drop_last());
        assert((before + seq![lead + line + tail] + after).drop_last() =~= before + seq![
            lead + line + tail,
        ] + after.drop_last());
        assert((before + seq![line] + after).drop_last() =~= before + seq![line]
            + after.drop_last());
    }
}

/// The parse reads a config only through the scan of its lines.
pub proof fn lemma_parse_reads_lines(t: Seq<char>)
    ensures
        scan_text(t) == scan_lines(line_scan(t).0.push(line_scan(t).1)),
{
    let (done, cur) = line_scan(t);
    assert(done.push(cur).drop_last() =~= done);
}


/// Whether `t` is a run of whole lines: empty, or ending with a line break.
pub open spec fn whole_lines(t: Seq<char>) -> bool {
    t.len() == 0 || t.last() == '\n'
}

/// Whether `l` holds no line break.
pub open spec fn one_line(l: Seq<char>) -> bool {
    forall|i: int| 0 <= i < l.len() ==> l[i] != '\n'
}

proof fn lemma_line_scan_concat(p: Seq<char>, q: Seq<char>)
    requires
        whole_lines(p),
    ensures
        line_scan(p + q) == (line_scan(p).0 + line_scan(q).0, line_scan(q).1),
    decreases q.len(),
{
    if q.len() == 0 {
        assert(p + q =~= p);
        assert(line_scan(p).0 + line_scan(q).0 =~= line_scan(p).0);
        if p.len() > 0 {
            let (d, c) = line_scan(p.drop_last());
            assert(line_scan(p) == (d.push(c), Seq::<char>::empty()));
        }
    } else {
        assert((p + q).drop_last() =~= p + q.drop_last());
        assert((p + q).last() == q.last());
        lemma_line_scan_concat(p, q.drop_last());
        let (dq, cq) = line_scan(q.drop_last());
        assert(line_scan(p).0 + dq.push(cq) =~= (line_scan(p).0 + dq).push(cq));
    }
}

proof fn lemma_line_scan_one_line(l: Seq<char>)
    requires
        one_line(l),
    ensures
        line_scan(l) == (Seq::<Seq<char>>::empty(), l),
        line_scan(l.push('\n')) == (seq![l], Seq::<char>::empty()),
    decreases l.len(),
{
    if l.len() > 0 {
        lemma_line_scan_one_line(l.drop_last());
        assert(l.drop_last().push(l.last()) =~= l);
    } else {
        assert(line_scan(l) == (Seq::<Seq<char>>::empty(), Seq::<char>::empty()));
    }
    assert(l.push('\n').drop_last() =~= l);
    assert(Seq::<Seq<char>>::empty().push(l) =~= seq![l]);
}

/// The lines of `p + l + "\n" + q`, for whole lines `p` and a single line `l`.
proof fn lemma_lines_around(p: Seq<char>, l: Seq<char>, q: Seq<char>)
    requires
        whole_lines(p),
        one_line(l),
    ensures
        line_scan(p + l.push('\n') + q) == (line_scan(p).0 + seq![l] + line_scan(q).0, line_scan(q).1),
        line_scan(p + q) == (line_scan(p).0 + line_scan(q).0, line_scan(q).1),
{
    lemma_line_scan_one_line(l);
    lemma_line_scan_concat(p, q);
    lemma_line_scan_concat(p, l.push('\n'));
    assert(whole_lines(p + l.push('\n')));
    lemma_line_scan_concat(p + l.push('\n'), q);
}

/// The game's input config parses the same, to the same bindings or the same error, with a blank
/// or comment line inserted between two of its lines, or with white space added before or after
/// any of its lines.
pub proof fn lemma_config_parse_ignores_comments_and_white(
    p: Seq<char>,
    q: Seq<char>,
    skipped: Seq<char>,
    line: Seq<char>,
    lead: Seq<char>,
    tail: Seq<char>,
    path: Seq<char>,
)
    requires
        whole_lines(p),
        one_line(skipped),
        skipped_line(skipped),
        one_line(lead + line + tail),
        all_white(lead),
        all_white(tail),
    ensures
        parse_model(p + skipped.push('\n') + q, path) == parse_model(p + q, path),
        parse_model(p + (lead + line + tail).push('\n') + q, path) == parse_model(
            p + line.push('\n') + q,
            path,
        ),
{
    let (dq, cq) = line_scan(q);
    let dp = line_scan(p).0;
    let after = dq.push(cq);
    lemma_lines_around(p, skipped, q);
    assert(one_line(line)) by {
        assert forall|i: int| 0 <= i < line.len() implies line[i] != '\n' by {
            assert((lead + line + tail)[lead.len() + i] == line[i]);
        }
    }
    lemma_lines_around(p, lead + line + tail, q);
    lemma_lines_around(p, line, q);
    lemma_parse_ignores_comments_and_white(dp, after, line, skipped, lead, tail);
    lemma_parse_reads_lines(p + skipped.push('\n') + q);
    lemma_parse_reads_lines(p + q);
    lemma_parse_reads_lines(p + (lead + line + tail).push('\n') + q);
    lemma_parse_reads_lines(p + line.push('\n') + q);
    assert((dp + seq![skipped] + dq).push(cq) =~= dp + seq![skipped] + after);
    assert((dp + dq).push(cq) =~= dp + after);
    assert((dp + seq![lead + line + tail] + dq).push(cq) =~= dp + seq![lead + line + tail] + after);
    assert((dp + seq![line] + dq).push(cq) =~= dp + seq![line] + after);
}


/// A flask's pacing after deciding on each of `ticks` in turn (its inputs and times), with no
/// press in between.
pub open spec fn decide_all(s: FlaskState, ticks: Seq<(FlaskInput, u64)>) -> FlaskState
    decreases ticks.len(),
{
    if ticks.len() == 0 {
        s
    } else {
        flask_step(decide_all(s, ticks.drop_last()), ticks.last().0, ticks.last().1).0
    }
}

/// Over any run of ticks after a press at `pressed_at`, the flask is not pressed again before
/// the safety guard has passed: each decision to press comes at least
/// `POST_SEND_SAFETY_GUARD_MS` after the last press, and never at an earlier time.
pub proof fn lemma_presses_spaced_over_a_run(
    pressed_at: u64,
    ticks: Seq<(FlaskInput, u64)>,
    k: int,
)
    requires
        0 <= k < ticks.len(),
    ensures
        ({
            let s = FlaskState { last_fire: Some(pressed_at), charge_block_reported: false };
            flask_step(decide_all(s, ticks.take(k)), ticks[k].0, ticks[k].1).1 is Fire
                ==> ticks[k].1 >= pressed_at + POST_SEND_SAFETY_GUARD_MS
        }),
{
    let s = FlaskState { last_fire: Some(pressed_at), charge_block_reported: false };
    lemma_decide_all_keeps_last_press(s, ticks.take(k));
}

proof fn lemma_decide_all_keeps_last_press(s: FlaskState, ticks: Seq<(FlaskInput, u64)>)
    ensures
        decide_all(s, ticks).last_fire == s.last_fire,
    decreases ticks.len(),
{
    if ticks.len() > 0 {
        lemma_decide_all_keeps_last_press(s, ticks.drop_last());
    }
}


/// The toggle key's state at the last toggle event of `h`, released before any.
pub open spec fn last_down(h: Seq<TickEvent>) -> bool
    decreases h.len(),
{
    if h.len() == 0 {
        false
    } else {
        match h.last() {
            TickEvent::Toggle { down, .. } => down,
            _ => last_down(h.drop_last()),
        }
    }
}

/// Whether the engine is armed after the events `h`: it starts disarmed, and only a press of the
/// toggle key (down now, up at the toggle event before) while the game is focused flips it.
pub open spec fn armed_after(h: Seq<TickEvent>) -> bool
    decreases h.len(),
{
    if h.len() == 0 {
        false
    } else {
        match h.last() {
            TickEvent::Toggle { down, focused } => armed_after(h.drop_last()) != (down && !last_down(
                h.drop_last(),
            ) && focused),
            _ => armed_after(h.drop_last()),
        }
    }
}

/// How far the current tick has come after the events `h`: each toggle event starts a tick;
/// the focus-and-bindings check gets through only on an armed engine with the game focused
/// and keyboard bindings, the area check only after it and in an area that allows automation,
/// and the life check only after both and with a living character; any failed check ends the
/// tick's progress.
pub open spec fn tick_after(h: Seq<TickEvent>) -> TickStage
    decreases h.len(),
{
    if h.len() == 0 {
        TickStage::Idle
    } else {
        let before = h.drop_last();
        match h.last() {
            TickEvent::Toggle { .. } => TickStage::Idle,
            TickEvent::Gate { focused, keyboard } => if armed_after(before) && focused && keyboard {
                TickStage::Gated
            } else {
                TickStage::Idle
            },
            TickEvent::Area { allowed } => if allowed && tick_after(before) == TickStage::Gated {
                TickStage::InArea
            } else {
                TickStage::Idle
            },
            TickEvent::Life { alive } => if alive && tick_after(before) == TickStage::InArea {
                TickStage::Alive
            } else {
                TickStage::Idle
            },
            _ => tick_after(before),
        }
    }
}

proof fn lemma_engine_follows_events(states: Seq<Engine>, events: Seq<TickEvent>, n: int)
    requires
        states.len() == events.len() + 1,
        !states[0].armed,
        !states[0].toggle_was_down,
        states[0].tick == TickStage::Idle,
        forall|i: int|
            0 <= i < events.len() ==> #[trigger] engine_moves(states[i], events[i], states[i + 1]),
        0 <= n <= events.len(),
    ensures
        states[n].armed == armed_after(events.take(n)),
        states[n].toggle_was_down == last_down(events.take(n)),
        states[n].tick == tick_after(events.take(n)),
    decreases n,
{
    if n == 0 {
        assert(events.take(0).len() == 0);
    } else {
        lemma_engine_follows_events(states, events, n - 1);
        assert(events.take(n).drop_last() =~= events.take(n - 1));
        assert(events.take(n).last() == events[n - 1]);
        let i = n - 1;
        assert(engine_moves(states[i], events[i], states[i + 1]));
        assert(i + 1 == n);
    }
}

/// Over a whole session, from the disarmed engine `Engine::new` gives, through any sequence of
/// calls (each taking the engine as `engine_moves` says): the engine is armed exactly when
/// `armed_after` the events so far says, so only a press of the toggle key while the game is
/// focused arms or disarms it; and a flask is decided on or pressed only while the engine is
/// armed and the current tick got through, in order, the focus-and-bindings check, the area
/// check and the life check.
pub proof fn lemma_presses_need_arming_and_every_check(states: Seq<Engine>, events: Seq<TickEvent>)
    requires
        states.len() == events.len() + 1,
        !states[0].armed,
        !states[0].toggle_was_down,
        states[0].tick == TickStage::Idle,
        forall|i: int|
            0 <= i < events.len() ==> #[trigger] engine_moves(states[i], events[i], states[i + 1]),
    ensures
        forall|n: int| 0 <= n <= events.len() ==> #[trigger] states[n].armed == armed_after(events.take(n)),
        forall|k: int|
            0 <= k < events.len() && #[trigger] events[k] is Press ==> armed_after(events.take(k))
                && tick_after(events.take(k)) == TickStage::Alive,
{
    assert forall|n: int| 0 <= n <= events.len() implies #[trigger] states[n].armed == armed_after(
        events.take(n),
    ) by {
        lemma_engine_follows_events(states, events, n);
    }
    assert forall|k: int| 0 <= k < events.len() && #[trigger] events[k] is Press implies armed_after(
        events.take(k),
    ) && tick_after(events.take(k)) == TickStage::Alive by {
        lemma_engine_follows_events(states, events, k);
        assert(engine_moves(states[k], events[k], states[k + 1]));
    }
}


proof fn lemma_trim_start_concat(a: Seq<char>, b: Seq<char>)
    ensures
        trim_start(a + b) == (if trim_start(a).len() > 0 {
            trim_start(a) + b
        } else {
            trim_start(b)
        }),
    decreases a.len(),
{
    if a.len() == 0 {
        assert(a + b =~= b);
    } else {
        assert((a + b)[0] == a[0]);
        if is_white_space(a[0]) {
            assert((a + b).drop_first() =~= a.drop_first() + b);
            lemma_trim_start_concat(a.drop_first(), b);
        }
    }
}

proof fn lemma_trim_end_concat(a: Seq<char>, b: Seq<char>)
    ensures
        trim_end(a + b) == (if trim_end(b).len() > 0 {
            a + trim_end(b)
        } else {
            trim_end(a)
        }),
    decreases b.len(),
{
    if b.len() == 0 {
        assert(a + b =~= a);
    } else {
        assert((a + b).last() == b.last());
        if is_white_space(b.last()) {
            assert((a + b).drop_last() =~= a + b.drop_last());
            lemma_trim_end_concat(a, b.drop_last());
        }
    }
}

/// What `trim_start` leaves is a suffix of `s`, starting with a character that is not white space.
proof fn lemma_trim_start_suffix(s: Seq<char>)
    ensures
        trim_start(s) =~= s.subrange(s.len() - trim_start(s).len(), s.len() as int),
        trim_start(s).len() <= s.len(),
        trim_start(s).len() > 0 ==> !is_white_space(trim_start(s)[0]),
        trim_start(trim_start(s)) == trim_start(s),
    decreases s.len(),
{
    if s.len() > 0 && is_white_space(s[0]) {
        lemma_trim_start_suffix(s.drop_first());
    }
}

proof fn lemma_first_from_at(s: Seq<char>, c: char, i: int, j: int)
    requires
        0 <= i <= j < s.len(),
        s[j] == c,
        forall|m: int| i <= m < j ==> s[m] != c,
    ensures
        first_from(s, c, i) == j,
    decreases j - i,
{
    if i < j {
        lemma_first_from_at(s, c, i + 1, j);
    }
}

/// The scan of one line gives the same entry with white space added on either side of its
/// first `=`: `key + w1 + "=" + w2 + value` reads as `key + "=" + value`.
pub proof fn lemma_scan_line_ignores_white_around_equals(
    st: ScanState,
    k: Seq<char>,
    w1: Seq<char>,
    w2: Seq<char>,
    v: Seq<char>,
)
    requires
        forall|i: int| 0 <= i < k.len() ==> k[i] != '=',
        all_white(w1),
        all_white(w2),
    ensures
        scan_line(st, k + w1 + seq!['='] + w2 + v) == scan_line(st, k + seq!['='] + v),
{
    let eq = seq!['='];
    assert(!is_white_space('='));
    let kk = trim_start(k);
    lemma_trim_start_suffix(k);
    assert(forall|i: int| 0 <= i < kk.len() ==> kk[i] != '=') by {
        assert forall|i: int| 0 <= i < kk.len() implies kk[i] != '=' by {
            assert(kk[i] == k[k.len() - kk.len() + i]);
        }
    }
    // The line without the added white space, trimmed.
    let raw = k + eq + v;
    assert(raw =~= k + (eq + v));
    lemma_trim_start_concat(k, eq + v);
    lemma_trim_start_concat(eq, v);
    assert(trim_start(eq) == eq) by {
        assert(eq.len() > 0 && !is_white_space(eq[0]));
    }
    let vv = trim_end(v);
    let left = if kk.len() > 0 { kk } else { Seq::<char>::empty() };
    assert(trim_start(raw) =~= left + eq + v);
    lemma_trim_end_concat(left + eq, v);
    lemma_trim_end_concat(left, eq);
    assert(trim_end(eq) == eq) by {
        assert(eq.last() == '=');
    }
    let line = if vv.len() > 0 { left + eq + vv } else { trim_end(left + eq) };
    assert(trim_end(left + eq) =~= left + eq);
    assert(trim(raw) == line);
    // The line with it, trimmed.
    let raw2 = k + w1 + eq + w2 + v;
    assert(raw2 =~= (k + w1) + (eq + (w2 + v)));
    lemma_trim_start_concat(k + w1, eq + (w2 + v));
    lemma_trim_start_concat(k, w1);
    lemma_trim_start_all_white(w1);
    lemma_trim_start_concat(eq, w2 + v);
    let left2 = if kk.len() > 0 { kk + w1 } else { Seq::<char>::empty() };
    assert(trim_start(raw2) =~= left2 + eq + (w2 + v));
    lemma_trim_end_concat(left2 + eq, w2 + v);
    lemma_trim_end_concat(w2, v);
    lemma_trim_end_all_white(w2);
    lemma_trim_end_concat(left2, eq);
    assert(trim_end(left2 + eq) =~= left2 + eq);
    let line2 = if vv.len() > 0 { left2 + eq + (w2 + vv) } else { left2 + eq };
    assert(trim(raw2) == line2);
    // Both lines start and end alike, and hold their first `=` after the key.
    assert(forall|i: int| 0 <= i < w1.len() ==> w1[i] != '=') by {
        assert forall|i: int| 0 <= i < w1.len() implies w1[i] != '=' by {
            assert(is_white_space(w1[i]));
        }
    }
    assert(line == left + eq + vv);
    assert(line[left.len() as int] == '=');
    lemma_first_from_at(line, '=', 0, left.len() as int);
    assert(line2[left2.len() as int] == '=');
    assert forall|m: int| 0 <= m < left2.len() implies line2[m] != '=' by {
        if m < kk.len() {
            assert(line2[m] == kk[m]);
        } else {
            assert(line2[m] == w1[m - kk.len()]);
        }
    }
    lemma_first_from_at(line2, '=', 0, left2.len() as int);
    assert(line.take(left.len() as int) =~= left);
    assert(line2.take(left2.len() as int) =~= left2);
    assert(line.skip(left.len() as int + 1) =~= vv);
    assert(line2.skip(left2.len() as int + 1) =~= (if vv.len() > 0 { w2 + vv } else { Seq::empty() }));
    // The key and the value, trimmed.
    lemma_trim_start_concat(kk, w1);
    lemma_trim_end_concat(kk, w1);
    lemma_trim_end_all_white(w1);
    lemma_trim_start_white_prefix(w2, vv);
    assert(trim(left2) == trim(left));
    assert(trim(if vv.len() > 0 { w2 + vv } else { Seq::<char>::empty() }) == trim(vv));
    // No section header holds an `=`.
    reveal_strlit("[ACTION_KEYS]");
    reveal_strlit("[WASD_ACTION_KEYS]");
    assert(line != "[ACTION_KEYS]"@ && line2 != "[ACTION_KEYS]"@) by {
        if line == "[ACTION_KEYS]"@ {
            assert("[ACTION_KEYS]"@[left.len() as int] == '=');
        }
        if line2 == "[ACTION_KEYS]"@ {
            assert("[ACTION_KEYS]"@[left2.len() as int] == '=');
        }
    }
    assert(line != "[WASD_ACTION_KEYS]"@ && line2 != "[WASD_ACTION_KEYS]"@) by {
        if line == "[WASD_ACTION_KEYS]"@ {
            assert("[WASD_ACTION_KEYS]"@[left.len() as int] == '=');
        }
        if line2 == "[WASD_ACTION_KEYS]"@ {
            assert("[WASD_ACTION_KEYS]"@[left2.len() as int] == '=');
        }
    }
}


/// Two lines that every scan reads alike can replace each other anywhere in a config.
proof fn lemma_scan_lines_same_line(
    before: Seq<Seq<char>>,
    after: Seq<Seq<char>>,
    l1: Seq<char>,
    l2: Seq<char>,
)
    requires
        forall|st: ScanState| #[trigger] scan_line(st, l1) == scan_line(st, l2),
    ensures
        scan_lines(before + seq![l1] + after) == scan_lines(before + seq![l2] + after),
    decreases after.len(),
{
    if after.len() == 0 {
        assert(before + seq![l1] + after =~= before.push(l1));
        assert(before + seq![l2] + after =~= before.push(l2));
        assert(before.push(l1).drop_last() =~= before);
        assert(before.push(l2).drop_last() =~= before);
        assert(scan_line(scan_lines(before), l1) == scan_line(scan_lines(before), l2));
    } else {
        lemma_scan_lines_same_line(before, after.drop_last(), l1, l2);
        assert((before + seq![l1] + after).drop_last() =~= before + seq![l1] + after.drop_last());
        assert((before + seq![l2] + after).drop_last() =~= before + seq![l2] + after.drop_last());
    }
}

/// The game's input config parses the same, to the same bindings or the same error, with white
/// space added on either side of the first `=` of one of its lines.
pub proof fn lemma_config_parse_ignores_white_around_equals(
    p: Seq<char>,
    q: Seq<char>,
    k: Seq<char>,
    w1: Seq<char>,
    w2: Seq<char>,
    v: Seq<char>,
    path: Seq<char>,
)
    requires
        whole_lines(p),
        forall|i: int| 0 <= i < k.len() ==> k[i] != '=',
        all_white(w1),
        all_white(w2),
        one_line(k + w1 + seq!['='] + w2 + v),
    ensures
        parse_model(p + (k + w1 + seq!['='] + w2 + v).push('\n') + q, path) == parse_model(
            p + (k + seq!['='] + v).push('\n') + q,
            path,
        ),
{
    let l1 = k + w1 + seq!['='] + w2 + v;
    let l2 = k + seq!['='] + v;
    assert(one_line(l2)) by {
        assert forall|i: int| 0 <= i < l2.len() implies l2[i] != '\n' by {
            if i < k.len() {
                assert(l1[i] == l2[i]);
            } else if i == k.len() {
            } else {
                assert(l2[i] == l1[i + w1.len() + w2.len()]);
            }
        }
    }
    assert forall|st: ScanState| #[trigger] scan_line(st, l1) == scan_line(st, l2) by {
        lemma_scan_line_ignores_white_around_equals(st, k, w1, w2, v);
    }
    let (dq, cq) = line_scan(q);
    let dp = line_scan(p).0;
    lemma_lines_around(p, l1, q);
    lemma_lines_around(p, l2, q);
    lemma_scan_lines_same_line(dp, dq.push(cq), l1, l2);
    lemma_parse_reads_lines(p + l1.push('\n') + q);
    lemma_parse_reads_lines(p + l2.push('\n') + q);
    assert((dp + seq![l1] + dq).push(cq) =~= dp + seq![l1] + dq.push(cq));
    assert((dp + seq![l2] + dq).push(cq) =~= dp + seq![l2] + dq.push(cq));
}


/// A section header other than `[ACTION_KEYS]` and `[WASD_ACTION_KEYS]` closes the section the
/// scan was in: the entries after it, up to the next known header, bind no flask. The two known
/// headers open their sections. A header changes nothing else the scan collected.
pub proof fn lemma_section_headers(st: ScanState, raw: Seq<char>)
    requires
        trim(raw).len() > 0,
        trim(raw)[0] == '[',
        trim(raw)[trim(raw).len() - 1] == ']',
    ensures
        trim(raw) == "[ACTION_KEYS]"@ ==> scan_line(st, raw).section == Section::Action,
        trim(raw) == "[WASD_ACTION_KEYS]"@ ==> scan_line(st, raw).section == Section::Wasd,
        trim(raw) != "[ACTION_KEYS]"@ && trim(raw) != "[WASD_ACTION_KEYS]"@ ==> scan_line(
            st,
            raw,
        ).section == Section::Other,
        scan_line(st, raw).mode == st.mode,
        scan_line(st, raw).action_life == st.action_life,
        scan_line(st, raw).action_mana == st.action_mana,
        scan_line(st, raw).wasd_life == st.wasd_life,
        scan_line(st, raw).wasd_mana == st.wasd_mana,
{
    reveal_strlit("[ACTION_KEYS]");
    reveal_strlit("[WASD_ACTION_KEYS]");
    assert(trim(raw)[0] != '#' && trim(raw)[0] != ';');
}

/// Outside the two flask sections, no line changes a flask key the scan collected.
pub proof fn lemma_other_section_binds_no_flask(st: ScanState, raw: Seq<char>)
    requires
        st.section == Section::Other,
    ensures
        scan_line(st, raw).action_life == st.action_life,
        scan_line(st, raw).action_mana == st.action_mana,
        scan_line(st, raw).wasd_life == st.wasd_life,
        scan_line(st, raw).wasd_mana == st.wasd_mana,
{
}

/// A due flask with at least one use worth of charges is pressed: when it is enabled, at or
/// below its threshold, without an active effect, at least 1000 ms after its last press (or
/// never pressed), and its charges hold `current >= per_use`, the decision is to press it.
pub proof fn lemma_due_flask_with_charges_fires(
    s: FlaskState,
    input: FlaskInput,
    now: u64,
    c: FlaskChargeState,
)
    requires
        input.enabled,
        input.above_threshold == Some(false),
        !input.locked,
        input.charges == Some(c),
        c.current >= c.per_use,
        match s.last_fire {
            None => true,
            Some(t) => now >= t && now - t >= 1000,
        },
    ensures
        flask_step(s, input, now).1 == FlaskDecision::Fire(c),
{
}

/// The buff names taken for flask effects are exactly the Life and Mana flask effects (with
/// their variants not removed when full), the instant Mana recovery at the end of an effect, and
/// the visual display buff some instant-recovery modifiers use.
pub proof fn lemma_flask_effect_names(name: Seq<char>)
    ensures
        is_flask_lock_name_text(name) <==> (name == "flask_effect_life"@ || name
            == "flask_effect_life_not_removed_when_full"@ || name == "flask_effect_mana"@ || name
            == "flask_effect_mana_not_removed_when_full"@ || name
            == "flask_instant_mana_recovery_at_end_of_effect"@ || name == "visual_display_buff"@),
{
}

/// A pool's usable maximum is its total less the percent reservation rounded up (`r`, the
/// least whole amount with `r * 10000 >= total * fraction`) and less the flat reservation,
/// kept within `0..=i32::MAX`; without a percent reservation it is the total less the flat one.
pub proof fn lemma_usable_max_formula(p: VitalPool, r: int)
    requires
        p.total >= 0,
        p.reserved_fraction >= 0,
        r * 10_000 >= p.total * p.reserved_fraction,
        (r - 1) * 10_000 < p.total * p.reserved_fraction,
    ensures
        usable_max_of(p) == (if p.total - r - p.reserved_flat < 0 {
            0
        } else if p.total - r - p.reserved_flat > 0x7FFF_FFFF {
            0x7FFF_FFFF
        } else {
            p.total - r - p.reserved_flat
        }),
{
    lemma_reservation_rounds_up(p.total as int, p.reserved_fraction as int);
    let q = fraction_reserve(p.total as int, p.reserved_fraction as int);
    assert(q == r);
}

/// Without a percent reservation, a pool's usable maximum is its total less the flat
/// reservation, kept within `0..=i32::MAX`.
pub proof fn lemma_usable_max_without_percent(p: VitalPool)
    requires
        p.total >= 0,
        p.reserved_fraction == 0,
    ensures
        usable_max_of(p) == (if p.total - p.reserved_flat < 0 {
            0
        } else if p.total - p.reserved_flat > 0x7FFF_FFFF {
            0x7FFF_FFFF
        } else {
            p.total - p.reserved_flat
        }),
{
    assert(p.total * p.reserved_fraction == 0) by (nonlinear_arith)
        requires
            p.reserved_fraction == 0,
    ;
    lemma_usable_max_formula(p, 0);
}

/// The modifier held around a flask key is Shift (0x10), Control (0x11) or Alt (0x12) as bound,
/// and none without a modifier; a press holds it down before the key and releases it after.
pub proof fn lemma_modifier_keys(vk: u16, modifier: KeyModifier)
    ensures
        modifier_key(KeyModifier::NoModifier) == None::<u16>,
        modifier_key(KeyModifier::Shift) == Some(0x10u16),
        modifier_key(KeyModifier::Control) == Some(0x11u16),
        modifier_key(KeyModifier::Alt) == Some(0x12u16),
        modifier == KeyModifier::Alt ==> press_events(KeyBinding { vk, modifier }) == seq![
            KeyEvent { vk: 0x12, key_up: false },
            KeyEvent { vk, key_up: false },
            KeyEvent { vk, key_up: true },
            KeyEvent { vk: 0x12, key_up: true },
        ],
        modifier == KeyModifier::NoModifier ==> press_events(KeyBinding { vk, modifier }) == seq![
            KeyEvent { vk, key_up: false },
            KeyEvent { vk, key_up: true },
        ],
{
}


/// A flask is pressed only at least 1000 ms after its last press: never before, and never at a
/// time earlier than that press.
pub proof fn lemma_press_waits_a_second(s: FlaskState, input: FlaskInput, now: u64)
    ensures
        flask_step(s, input, now).1 is Fire ==> match s.last_fire {
            None => true,
            Some(t) => now >= t && now - t >= 1000,
        },
        flask_step(s, input, now).1 is Fire ==> input.enabled && input.above_threshold == Some(
            false,
        ) && !input.locked && (input.charges matches Some(c) && c.current >= c.per_use),
{
}

/// PoE2's modifier values 0 to 3 are no modifier, Shift, Control and Alt; any other value is
/// refused, as are key codes 0 and above 0xFF and the mouse buttons 0x01, 0x02, 0x04, 0x05 and
/// 0x06.
pub proof fn lemma_poe_binding_values(vk: u16, modifier: u8)
    ensures
        (vk == 0 || vk > 0xFF) ==> poe_binding(vk, modifier) == Err::<KeyBinding, BindingError>(
            BindingError::KeyOutOfRange(vk),
        ),
        (vk == 0x01 || vk == 0x02 || vk == 0x04 || vk == 0x05 || vk == 0x06) ==> poe_binding(
            vk,
            modifier,
        ) == Err::<KeyBinding, BindingError>(BindingError::MouseButton),
        (1 <= vk <= 0xFF && vk != 0x01 && vk != 0x02 && vk != 0x04 && vk != 0x05 && vk != 0x06)
            ==> poe_binding(vk, modifier) == (if modifier == 0 {
            Ok(KeyBinding { vk, modifier: KeyModifier::NoModifier })
        } else if modifier == 1 {
            Ok(KeyBinding { vk, modifier: KeyModifier::Shift })
        } else if modifier == 2 {
            Ok(KeyBinding { vk, modifier: KeyModifier::Control })
        } else if modifier == 3 {
            Ok(KeyBinding { vk, modifier: KeyModifier::Alt })
        } else {
            Err(BindingError::UnknownModifier(modifier))
        }),
{
}

/// A character is dead exactly when its current Life is zero or below; it counts as relying on
/// Energy Shield exactly when its total Life is one and it has an Energy Shield pool with a
/// positive total.
pub proof fn lemma_death_and_energy_shield(health: VitalPool, energy_shield: Option<VitalPool>)
    ensures
        is_dead(health) <==> health.current <= 0,
        is_ci_like(health, energy_shield) <==> (health.total == 1 && (energy_shield matches Some(
            es,
        ) && es.total > 0)),
{
}

/// Automation runs in an area exactly when it is no town, and either no hideout or hideouts are
/// enabled; the hub towns `HeistHub` and `KalguuranSettlersLeague` count as towns whatever the
/// area row says.
pub proof fn lemma_area_rules(is_town: bool, is_hideout: bool, enabled: bool, raw_town: u8)
    ensures
        allows_automation(is_town, is_hideout, enabled) <==> (!is_town && (!is_hideout || enabled)),
        is_town_area("HeistHub"@, raw_town),
        is_town_area("KalguuranSettlersLeague"@, raw_town),
        raw_town != 0 ==> forall|id: Seq<char>| #[trigger] is_town_area(id, raw_town),
{
}

/// An address read from the game is taken for a pointer exactly when it is at least 0x10000; a
/// flask's charges are plausible exactly when 0 to 100000 are held and 1 to 100000 are spent per
/// use.
pub proof fn lemma_plausibility_bounds(v: int, current: i32, per_use: i32)
    ensures
        plausible_address(v) <==> v >= 0x10000,
        plausible_charges(current, per_use) <==> (0 <= current <= 100_000 && 1 <= per_use
            <= 100_000),
{
}

/// The input modes are read from their names in the game's config.
pub proof fn lemma_input_mode_names(m: KeyboardMode)
    ensures
        input_mode_of("mouse_and_keyboard"@) == InputModeModel::MouseAndKeyboard,
        input_mode_of("wasd"@) == InputModeModel::Wasd,
        input_mode_of("gamepad"@) == InputModeModel::Gamepad,
        mode_label(KeyboardMode::MouseAndKeyboard) == "mouse_and_keyboard"@,
        mode_label(KeyboardMode::Wasd) == "wasd"@,
{
    reveal_strlit("mouse_and_keyboard");
    reveal_strlit("wasd");
    reveal_strlit("gamepad");
    assert("wasd"@ != "mouse_and_keyboard"@) by {
        assert("wasd"@.len() != "mouse_and_keyboard"@.len());
    }
    assert("gamepad"@ != "mouse_and_keyboard"@) by {
        assert("gamepad"@.len() != "mouse_and_keyboard"@.len());
    }
    assert("gamepad"@ != "wasd"@) by {
        assert("gamepad"@.len() != "wasd"@.len());
    }
}

/// Three failed samples in a row, or one that found the game state moved on, call for a
/// re-resolve at once; fewer plain failures do not.
pub proof fn lemma_three_bad_samples_reconnect(e: Engine, interrupted: bool, now: u64)
    ensures
        (interrupted || e.bad_samples >= 2) ==> bad_sample_step(e, interrupted, now).0.needs_refresh
            && bad_sample_step(e, interrupted, now).0.next_refresh == now,
        (!interrupted && e.bad_samples < 2) ==> bad_sample_step(e, interrupted, now).1 is None
            && bad_sample_step(e, interrupted, now).0.bad_samples == e.bad_samples + 1,
{
}

} // verus!
