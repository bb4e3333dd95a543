//! PoE2's flask key bindings: reading them from the game's input config and noticing changes.

use vstd::prelude::*;

use crate::file_watch::{same_stamp, FileStamp};
use crate::input::{poe_binding, KeyBinding};
use crate::text::{
    chars_eq, chars_of, debug_quoted, debug_str, find_char, first_from,
    push_str, split_words, string_from, string_of, trim, trim_bounds, words,
};

verus! {

/// Which key section of the game's config applies.
#[derive(Debug, Clone, Copy, PartialEq, Eq, Structural)]
pub enum KeyboardMode {
    MouseAndKeyboard,
    Wasd,
}

/// The flask bindings the game uses, or why none can be used.
#[derive(Debug, Clone, PartialEq, Eq)]
pub enum GameBindings {
    Keyboard { mode: KeyboardMode, life: KeyBinding, mana: KeyBinding },
    Gamepad,
    UnsupportedMode(String),
    Unavailable(String),
}

/// `GameBindings` with its texts as character sequences.
pub enum BindingsModel {
    Keyboard { mode: KeyboardMode, life: KeyBinding, mana: KeyBinding },
    Gamepad,
    UnsupportedMode(Seq<char>),
    Unavailable(Seq<char>),
}

impl View for GameBindings {
    type V = BindingsModel;

    open spec fn view(&self) -> BindingsModel {
        match self {
            GameBindings::Keyboard { mode, life, mana } => BindingsModel::Keyboard {
                mode: *mode,
                life: *life,
                mana: *mana,
            },
            GameBindings::Gamepad => BindingsModel::Gamepad,
            GameBindings::UnsupportedMode(m) => BindingsModel::UnsupportedMode(m@),
            GameBindings::Unavailable(e) => BindingsModel::Unavailable(e@),
        }
    }
}

/// The value of `user_input_mode`.
pub enum InputModeModel {
    MouseAndKeyboard,
    Wasd,
    Gamepad,
    Unsupported(Seq<char>),
}

/// The config section the scanner is in.
#[derive(Debug, Clone, Copy, PartialEq, Eq, Structural)]
pub enum Section {
    Other,
    Action,
    Wasd,
}

/// What the scan of the config has collected so far.
pub struct ScanState {
    pub mode: Option<InputModeModel>,
    pub section: Section,
    pub action_life: Option<Seq<char>>,
    pub action_mana: Option<Seq<char>>,
    pub wasd_life: Option<Seq<char>>,
    pub wasd_mana: Option<Seq<char>>,
}

pub open spec fn initial_scan() -> ScanState {
    ScanState {
        mode: None,
        section: Section::Other,
        action_life: None,
        action_mana: None,
        wasd_life: None,
        wasd_mana: None,
    }
}

pub open spec fn input_mode_of(value: Seq<char>) -> InputModeModel {
    if value == "mouse_and_keyboard"@ {
        InputModeModel::MouseAndKeyboard
    } else if value == "wasd"@ {
        InputModeModel::Wasd
    } else if value == "gamepad"@ {
        InputModeModel::Gamepad
    } else {
        InputModeModel::Unsupported(value)
    }
}

pub open spec fn section_of(header: Seq<char>) -> Section {
    if header == "[ACTION_KEYS]"@ {
        Section::Action
    } else if header == "[WASD_ACTION_KEYS]"@ {
        Section::Wasd
    } else {
        Section::Other
    }
}

/// The effect of one `key = value` entry.
pub open spec fn scan_entry(st: ScanState, key: Seq<char>, value: Seq<char>) -> ScanState {
    if key == "user_input_mode"@ {
        ScanState { mode: Some(input_mode_of(value)), ..st }
    } else if st.section == Section::Action && key == "use_flask_in_slot1"@ {
        ScanState { action_life: Some(value), ..st }
    } else if st.section == Section::Action && key == "use_flask_in_slot2"@ {
        ScanState { action_mana: Some(value), ..st }
    } else if st.section == Section::Wasd && key == "use_flask_in_slot1"@ {
        ScanState { wasd_life: Some(value), ..st }
    } else if st.section == Section::Wasd && key == "use_flask_in_slot2"@ {
        ScanState { wasd_mana: Some(value), ..st }
    } else {
        st
    }
}

/// The effect of one line: blank and comment lines are skipped, `[..]` opens a section, and
/// a line with `=` is an entry with both sides trimmed.
pub open spec fn scan_line(st: ScanState, raw: Seq<char>) -> ScanState {
    let line = trim(raw);
    if line.len() == 0 || line[0] == '#' || line[0] == ';' {
        st
    } else if line[0] == '[' && line.last() == ']' {
        ScanState { section: section_of(line), ..st }
    } else {
        let e = first_from(line, '=', 0);
        if e >= line.len() {
            st
        } else {
            scan_entry(st, trim(line.take(e)), trim(line.skip(e + 1)))
        }
    }
}

/// The finished lines of `t` and the line still open at its end.
pub open spec fn line_scan(t: Seq<char>) -> (Seq<Seq<char>>, Seq<char>)
    decreases t.len(),
{
    if t.len() == 0 {
        (Seq::empty(), Seq::empty())
    } else {
        let (done, cur) = line_scan(t.drop_last());
        if t.last() == '\n' {
            (done.push(cur), Seq::empty())
        } else {
            (done, cur.push(t.last()))
        }
    }
}

/// The scan over a sequence of lines, first to last.
pub open spec fn scan_lines(lines: Seq<Seq<char>>) -> ScanState
    decreases lines.len(),
{
    if lines.len() == 0 {
        initial_scan()
    } else {
        scan_line(scan_lines(lines.drop_last()), lines.last())
    }
}

/// The scan over every line of a config text.
pub open spec fn scan_text(t: Seq<char>) -> ScanState {
    let (done, cur) = line_scan(t);
    scan_line(scan_lines(done), cur)
}

/// The error text for a config file: the path, a colon, then the message.
pub open spec fn invalid_text(path: Seq<char>, message: Seq<char>) -> Seq<char> {
    path + ": "@ + message
}

pub open spec fn is_ascii_digit(c: char) -> bool {
    '0' <= c <= '9'
}

/// The value of a string of decimal digits.
pub open spec fn digits_value(d: Seq<char>) -> nat
    decreases d.len(),
{
    if d.len() == 0 {
        0
    } else {
        (digits_value(d.drop_last()) * 10 + ((d.last() as u32) - 48)) as nat
    }
}

/// The digits of an unsigned number: the text after an optional leading `+`.
pub open spec fn unsigned_digits(s: Seq<char>) -> Seq<char> {
    if s.len() > 0 && s[0] == '+' {
        s.drop_first()
    } else {
        s
    }
}

pub open spec fn all_ascii_digits(d: Seq<char>) -> bool {
    forall|i: int| 0 <= i < d.len() ==> is_ascii_digit(#[trigger] d[i])
}

/// `str::parse` for an unsigned integer type whose largest value is `max`: an optional `+`,
/// then one or more ASCII digits whose value does not exceed `max`.
pub open spec fn parse_unsigned(s: Seq<char>, max: nat) -> Option<nat> {
    let d = unsigned_digits(s);
    if d.len() > 0 && all_ascii_digits(d) && digits_value(d) <= max {
        Some(digits_value(d))
    } else {
        None
    }
}

/// A binding value: a key code, an optional modifier, nothing more, and a usable pair.
pub open spec fn binding_model(path: Seq<char>, name: Seq<char>, value: Seq<char>) -> Result<
    KeyBinding,
    Seq<char>,
> {
    let ws = words(value);
    if ws.len() == 0 {
        Err(invalid_text(path, name + " is empty"@))
    } else {
        match parse_unsigned(ws[0], 0xFFFF) {
            None => Err(invalid_text(path, name + " has invalid key code "@ + debug_quoted(value))),
            Some(vk) => {
                let modifier = if ws.len() < 2 {
                    Some(0nat)
                } else {
                    parse_unsigned(ws[1], 0xFF)
                };
                match modifier {
                    None => Err(
                        invalid_text(path, name + " has invalid modifier "@ + debug_quoted(ws[1])),
                    ),
                    Some(m) => if ws.len() > 2 {
                        Err(invalid_text(path, name + " has unexpected data "@ + debug_quoted(value)))
                    } else {
                        match poe_binding(vk as u16, m as u8) {
                            Ok(b) => Ok(b),
                            Err(e) => Err(
                                invalid_text(
                                    path,
                                    name + " binding "@ + debug_quoted(value) + " is unsupported: "@
                                        + e.text(),
                                ),
                            ),
                        }
                    },
                }
            },
        }
    }
}

/// Keyboard bindings from the two flask values of the section that applies.
pub open spec fn keyboard_model(
    path: Seq<char>,
    mode: KeyboardMode,
    life: Option<Seq<char>>,
    mana: Option<Seq<char>>,
) -> Result<BindingsModel, Seq<char>> {
    match life {
        None => Err(invalid_text(path, "use_flask_in_slot1 is missing"@)),
        Some(l) => match mana {
            None => Err(invalid_text(path, "use_flask_in_slot2 is missing"@)),
            Some(m) => match binding_model(path, "use_flask_in_slot1"@, l) {
                Err(e) => Err(e),
                Ok(lb) => match binding_model(path, "use_flask_in_slot2"@, m) {
                    Err(e) => Err(e),
                    Ok(mb) => Ok(BindingsModel::Keyboard { mode, life: lb, mana: mb }),
                },
            },
        },
    }
}

/// What the game's input config `t`, read from `path`, says of the flask bindings.
pub open spec fn parse_model(t: Seq<char>, path: Seq<char>) -> Result<BindingsModel, Seq<char>> {
    let st = scan_text(t);
    match st.mode {
        None => Err(invalid_text(path, "user_input_mode is missing"@)),
        Some(InputModeModel::MouseAndKeyboard) => keyboard_model(
            path,
            KeyboardMode::MouseAndKeyboard,
            st.action_life,
            st.action_mana,
        ),
        Some(InputModeModel::Wasd) => keyboard_model(
            path,
            KeyboardMode::Wasd,
            st.wasd_life,
            st.wasd_mana,
        ),
        Some(InputModeModel::Gamepad) => Ok(BindingsModel::Gamepad),
        Some(InputModeModel::Unsupported(m)) => Ok(BindingsModel::UnsupportedMode(m)),
    }
}

/// A parse result with its texts as character sequences.
pub open spec fn parsed_view(r: Result<GameBindings, String>) -> Result<BindingsModel, Seq<char>> {
    match r {
        Ok(b) => Ok(b@),
        Err(e) => Err(e@),
    }
}

enum ModeSlot {
    MouseAndKeyboard,
    Wasd,
    Gamepad,
    Unsupported(usize, usize),
}

struct Scanner {
    mode: Option<ModeSlot>,
    section: Section,
    action_life: Option<(usize, usize)>,
    action_mana: Option<(usize, usize)>,
    wasd_life: Option<(usize, usize)>,
    wasd_mana: Option<(usize, usize)>,
}

spec fn range_ok(r: Option<(usize, usize)>, n: nat) -> bool {
    match r {
        Some((a, b)) => a <= b <= n,
        None => true,
    }
}

spec fn range_text(r: Option<(usize, usize)>, v: Seq<char>) -> Option<Seq<char>> {
    match r {
        Some((a, b)) => Some(v.subrange(a as int, b as int)),
        None => None,
    }
}

impl Scanner {
    spec fn wf(&self, n: nat) -> bool {
        &&& match self.mode {
            Some(ModeSlot::Unsupported(a, b)) => a <= b <= n,
            _ => true,
        }
        &&& range_ok(self.action_life, n)
        &&& range_ok(self.action_mana, n)
        &&& range_ok(self.wasd_life, n)
        &&& range_ok(self.wasd_mana, n)
    }

    spec fn model(&self, v: Seq<char>) -> ScanState {
        ScanState {
            mode: match self.mode {
                None => None,
                Some(ModeSlot::MouseAndKeyboard) => Some(InputModeModel::MouseAndKeyboard),
                Some(ModeSlot::Wasd) => Some(InputModeModel::Wasd),
                Some(ModeSlot::Gamepad) => Some(InputModeModel::Gamepad),
                Some(ModeSlot::Unsupported(a, b)) => Some(
                    InputModeModel::Unsupported(v.subrange(a as int, b as int)),
                ),
            },
            section: self.section,
            action_life: range_text(self.action_life, v),
            action_mana: range_text(self.action_mana, v),
            wasd_life: range_text(self.wasd_life, v),
            wasd_mana: range_text(self.wasd_mana, v),
        }
    }
}

fn mode_slot(v: &[char], a: usize, b: usize) -> (m: ModeSlot)
    requires
        a <= b <= v@.len(),
    ensures
        (Scanner {
            mode: Some(m),
            section: Section::Other,
            action_life: None,
            action_mana: None,
            wasd_life: None,
            wasd_mana: None,
        }).model(v@).mode == Some(input_mode_of(v@.subrange(a as int, b as int))),
        match m {
            ModeSlot::Unsupported(x, y) => x <= y <= v@.len(),
            _ => true,
        },
{
    if chars_eq(v, a, b, "mouse_and_keyboard") {
        ModeSlot::MouseAndKeyboard
    } else if chars_eq(v, a, b, "wasd") {
        ModeSlot::Wasd
    } else if chars_eq(v, a, b, "gamepad") {
        ModeSlot::Gamepad
    } else {
        ModeSlot::Unsupported(a, b)
    }
}

fn scan_one_line(v: &[char], st: Scanner, a: usize, b: usize) -> (out: Scanner)
    requires
        a <= b <= v@.len(),
        st.wf(v@.len()),
    ensures
        out.wf(v@.len()),
        out.model(v@) == scan_line(st.model(v@), v@.subrange(a as int, b as int)),
{
    let ghost line = trim(v@.subrange(a as int, b as int));
    let (x, y) = trim_bounds(v, a, b);
    assert(line == v@.subrange(x as int, y as int));
    if x == y || v[x] == '#' || v[x] == ';' {
        return st;
    }
    assert(line.last() == v@[y - 1]);
    if v[x] == '[' && v[y - 1] == ']' {
        let section = if chars_eq(v, x, y, "[ACTION_KEYS]") {
            Section::Action
        } else if chars_eq(v, x, y, "[WASD_ACTION_KEYS]") {
            Section::Wasd
        } else {
            Section::Other
        };
        return Scanner { section, ..st };
    }
    let e = find_char(v, x, y, '=');
    if e == y {
        return st;
    }
    let ghost el = (e - x) as int;
    assert(v@.subrange(x as int, e as int) =~= line.take(el));
    assert(v@.subrange(e + 1, y as int) =~= line.skip(el + 1));
    let (k0, k1) = trim_bounds(v, x, e);
    let (v0, v1) = trim_bounds(v, e + 1, y);
    if chars_eq(v, k0, k1, "user_input_mode") {
        let m = mode_slot(v, v0, v1);
        return Scanner { mode: Some(m), ..st };
    }
    let slot1 = chars_eq(v, k0, k1, "use_flask_in_slot1");
    let slot2 = chars_eq(v, k0, k1, "use_flask_in_slot2");
    match st.section {
        Section::Action => {
            if slot1 {
                Scanner { action_life: Some((v0, v1)), ..st }
            } else if slot2 {
                Scanner { action_mana: Some((v0, v1)), ..st }
            } else {
                st
            }
        },
        Section::Wasd => {
            if slot1 {
                Scanner { wasd_life: Some((v0, v1)), ..st }
            } else if slot2 {
                Scanner { wasd_mana: Some((v0, v1)), ..st }
            } else {
                st
            }
        },
        Section::Other => st,
    }
}

fn scan_config(v: &[char]) -> (out: Scanner)
    ensures
        out.wf(v@.len()),
        out.model(v@) == scan_text(v@),
{
    let mut st = Scanner {
        mode: None,
        section: Section::Other,
        action_life: None,
        action_mana: None,
        wasd_life: None,
        wasd_mana: None,
    };
    let mut start: usize = 0;
    let mut i: usize = 0;
    assert(v@.take(0) =~= Seq::<char>::empty());
    assert(st.model(v@) == initial_scan());
    while i < v.len()
        invariant
            start <= i <= v@.len(),
            st.wf(v@.len()),
            line_scan(v@.take(i as int)).1 == v@.subrange(start as int, i as int),
            st.model(v@) == scan_lines(line_scan(v@.take(i as int)).0),
        decreases v@.len() - i,
    {
        let ghost prev = v@.take(i as int);
        let ghost next = v@.take(i + 1);
        assert(next.drop_last() =~= prev);
        assert(next.last() == v@[i as int]);
        if v[i] == '\n' {
            st = scan_one_line(v, st, start, i);
            start = i + 1;
            assert(line_scan(next).0.drop_last() =~= line_scan(prev).0);
            assert(v@.subrange(start as int, (i + 1) as int) =~= Seq::<char>::empty());
        } else {
            assert(v@.subrange(start as int, i + 1) =~= v@.subrange(start as int, i as int).push(
                v@[i as int],
            ));
        }
        i += 1;
    }
    assert(v@.take(v@.len() as int) =~= v@);
    scan_one_line(v, st, start, v.len())
}

/// Decides whether `v[lo..hi]` is a string of one or more ASCII digits.
fn all_digits(v: &[char], lo: usize, hi: usize) -> (b: bool)
    requires
        lo <= hi <= v@.len(),
    ensures
        b == (forall|i: int|
            0 <= i < hi - lo ==> is_ascii_digit(#[trigger] v@.subrange(lo as int, hi as int)[i])),
{
    let mut i = lo;
    while i < hi
        invariant
            lo <= i <= hi <= v@.len(),
            forall|j: int| lo <= j < i ==> is_ascii_digit(#[trigger] v@[j]),
        decreases hi - i,
    {
        if !('0' <= v[i] && v[i] <= '9') {
            assert(!is_ascii_digit(v@.subrange(lo as int, hi as int)[i - lo]));
            return false;
        }
        i += 1;
    }
    assert forall|j: int| 0 <= j < hi - lo implies is_ascii_digit(
        #[trigger] v@.subrange(lo as int, hi as int)[j],
    ) by {
        assert(v@.subrange(lo as int, hi as int)[j] == v@[lo + j]);
    }
    true
}

proof fn lemma_digits_value_grows(d: Seq<char>, k: int)
    requires
        0 <= k <= d.len(),
        forall|i: int| 0 <= i < d.len() ==> is_ascii_digit(#[trigger] d[i]),
    ensures
        digits_value(d.take(k)) <= digits_value(d),
    decreases d.len() - k,
{
    if k < d.len() {
        let t = d.take(k + 1);
        assert(t.drop_last() =~= d.take(k));
        assert(is_ascii_digit(t.last()));
        lemma_digits_value_grows(d, k + 1);
    } else {
        assert(d.take(k) =~= d);
    }
}

/// `str::parse` of `v[lo..hi]` into an unsigned integer type whose largest value is `max`.
fn parse_unsigned_range(v: &[char], lo: usize, hi: usize, max: u32) -> (r: Option<u32>)
    requires
        lo <= hi <= v@.len(),
        max <= 0xFFFF,
    ensures
        match parse_unsigned(v@.subrange(lo as int, hi as int), max as nat) {
            Some(n) => r == Some(n as u32),
            None => r is None,
        },
{
    let ghost s = v@.subrange(lo as int, hi as int);
    let mut a = lo;
    if lo < hi && v[lo] == '+' {
        a = lo + 1;
        assert(s.drop_first() =~= v@.subrange(a as int, hi as int));
    } else {
        assert(s =~= v@.subrange(a as int, hi as int));
    }
    let ghost d = v@.subrange(a as int, hi as int);
    assert(lo < hi ==> s[0] == v@[lo as int]);
    assert(d == unsigned_digits(s));
    if a == hi {
        assert(parse_unsigned(s, max as nat) is None);
        return None;
    }
    if !all_digits(v, a, hi) {
        assert(parse_unsigned(s, max as nat) is None);
        return None;
    }
    let mut acc: u32 = 0;
    let mut i = a;
    while i < hi
        invariant
            a <= i <= hi <= v@.len(),
            d == v@.subrange(a as int, hi as int),
            d == unsigned_digits(v@.subrange(lo as int, hi as int)),
            forall|j: int| 0 <= j < d.len() ==> is_ascii_digit(#[trigger] d[j]),
            acc <= max,
            acc == digits_value(d.take(i - a)),
            max <= 0xFFFF,
        decreases hi - i,
    {
        let ghost t = d.take(i + 1 - a);
        assert(t.drop_last() =~= d.take(i - a));
        assert(t.last() == v@[i as int]);
        assert(is_ascii_digit(d[i - a]));
        let digit = (v[i] as u32) - 48;
        let next = acc * 10 + digit;
        if next > max {
            proof {
                lemma_digits_value_grows(d, i + 1 - a);
                assert(digits_value(t) == next);
            }
            return None;
        }
        acc = next;
        i += 1;
    }
    assert(d.take(hi - a) =~= d);
    Some(acc)
}

/// The error text for a config file.
fn invalid(path: &str, message: String) -> (out: String)
    ensures
        out@ == invalid_text(path@, message@),
{
    let mut s = string_from(path);
    push_str(&mut s, ": ");
    push_str(&mut s, message.as_str());
    s
}

fn named(name: &str, rest: &str) -> (out: String)
    ensures
        out@ == name@ + rest@,
{
    let mut s = string_from(name);
    push_str(&mut s, rest);
    s
}

/// Decodes one flask binding value such as `81 1` (key code, then an optional modifier).
pub fn parse_binding(path: &str, name: &str, value: &str) -> (r: Result<KeyBinding, String>)
    ensures
        match r {
            Ok(b) => binding_model(path@, name@, value@) == Ok::<KeyBinding, Seq<char>>(b),
            Err(e) => binding_model(path@, name@, value@) == Err::<KeyBinding, Seq<char>>(e@),
        },
{
    let v = chars_of(value);
    let ws = split_words(&v, 0, v.len());
    assert(v@.subrange(0, v@.len() as int) =~= value@);
    if ws.len() == 0 {
        return Err(invalid(path, named(name, " is empty")));
    }
    let (w0a, w0b) = ws[0];
    let vk = match parse_unsigned_range(&v, w0a, w0b, 0xFFFF) {
        Some(vk) => vk as u16,
        None => {
            let mut m = named(name, " has invalid key code ");
            let q = debug_str(value);
            push_str(&mut m, q.as_str());
            return Err(invalid(path, m));
        },
    };
    let modifier: u8 = if ws.len() < 2 {
        0
    } else {
        let (w1a, w1b) = ws[1];
        match parse_unsigned_range(&v, w1a, w1b, 0xFF) {
            Some(m) => m as u8,
            None => {
                let word = string_of(&v, w1a, w1b);
                let mut m = named(name, " has invalid modifier ");
                let q = debug_str(word.as_str());
                push_str(&mut m, q.as_str());
                return Err(invalid(path, m));
            },
        }
    };
    if ws.len() > 2 {
        let mut m = named(name, " has unexpected data ");
        let q = debug_str(value);
        push_str(&mut m, q.as_str());
        return Err(invalid(path, m));
    }
    match KeyBinding::from_poe(vk, modifier) {
        Ok(b) => Ok(b),
        Err(e) => {
            let mut m = named(name, " binding ");
            let q = debug_str(value);
            push_str(&mut m, q.as_str());
            push_str(&mut m, " is unsupported: ");
            let reason = e.message();
            push_str(&mut m, reason.as_str());
            Err(invalid(path, m))
        },
    }
}

fn keyboard_bindings(
    path: &str,
    v: &[char],
    mode: KeyboardMode,
    life: Option<(usize, usize)>,
    mana: Option<(usize, usize)>,
) -> (r: Result<GameBindings, String>)
    requires
        range_ok(life, v@.len()),
        range_ok(mana, v@.len()),
    ensures
        parsed_view(r) == keyboard_model(path@, mode, range_text(life, v@), range_text(mana, v@)),
{
    let (la, lb) = match life {
        None => {
            return Err(invalid(path, string_from("use_flask_in_slot1 is missing")));
        },
        Some(r) => r,
    };
    let (ma, mb) = match mana {
        None => {
            return Err(invalid(path, string_from("use_flask_in_slot2 is missing")));
        },
        Some(r) => r,
    };
    let life_text = string_of(v, la, lb);
    let mana_text = string_of(v, ma, mb);
    let life_binding = match parse_binding(path, "use_flask_in_slot1", life_text.as_str()) {
        Ok(b) => b,
        Err(e) => {
            return Err(e);
        },
    };
    let mana_binding = match parse_binding(path, "use_flask_in_slot2", mana_text.as_str()) {
        Ok(b) => b,
        Err(e) => {
            return Err(e);
        },
    };
    Ok(GameBindings::Keyboard { mode, life: life_binding, mana: mana_binding })
}

/// Reads the flask bindings from the text of the game's input config, read from `path`.
///
/// `user_input_mode` chooses the section: `[ACTION_KEYS]` for mouse and keyboard,
/// `[WASD_ACTION_KEYS]` for WASD; `use_flask_in_slot1` and `use_flask_in_slot2` are the Life and
/// Mana flasks. A gamepad or an unknown mode yields no keyboard bindings.
pub fn parse_reader(text: &str, path: &str) -> (r: Result<GameBindings, String>)
    ensures
        parsed_view(r) == parse_model(text@, path@),
{
    let v = chars_of(text);
    let st = scan_config(&v);
    match st.mode {
        None => Err(invalid(path, string_from("user_input_mode is missing"))),
        Some(ModeSlot::MouseAndKeyboard) => keyboard_bindings(
            path,
            &v,
            KeyboardMode::MouseAndKeyboard,
            st.action_life,
            st.action_mana,
        ),
        Some(ModeSlot::Wasd) => keyboard_bindings(
            path,
            &v,
            KeyboardMode::Wasd,
            st.wasd_life,
            st.wasd_mana,
        ),
        Some(ModeSlot::Gamepad) => Ok(GameBindings::Gamepad),
        Some(ModeSlot::Unsupported(a, b)) => Ok(GameBindings::UnsupportedMode(string_of(&v, a, b))),
    }
}

/// How reading the game's input config went.
pub enum FileRead {
    /// The file's text.
    Contents(String),
    /// Opening the file failed, with the system's message.
    OpenFailed(String),
    /// Reading the file failed, with the system's message.
    ReadFailed(String),
}

pub enum FileReadModel {
    Contents(Seq<char>),
    OpenFailed(Seq<char>),
    ReadFailed(Seq<char>),
}

impl View for FileRead {
    type V = FileReadModel;

    open spec fn view(&self) -> FileReadModel {
        match self {
            FileRead::Contents(t) => FileReadModel::Contents(t@),
            FileRead::OpenFailed(e) => FileReadModel::OpenFailed(e@),
            FileRead::ReadFailed(e) => FileReadModel::ReadFailed(e@),
        }
    }
}

/// The bindings a read of the config file at `path` gives, or the error text.
pub open spec fn file_bindings(path: Seq<char>, f: FileReadModel) -> Result<BindingsModel, Seq<char>> {
    match f {
        FileReadModel::Contents(t) => parse_model(t, path),
        FileReadModel::OpenFailed(e) => Err("failed to open "@ + path + ": "@ + e),
        FileReadModel::ReadFailed(e) => Err("failed to read "@ + path + ": "@ + e),
    }
}

/// Parses what was read of the config file at `path`.
pub fn parse_file(path: &str, file: FileRead) -> (r: Result<GameBindings, String>)
    ensures
        parsed_view(r) == file_bindings(path@, file@),
{
    match file {
        FileRead::Contents(t) => parse_reader(t.as_str(), path),
        FileRead::OpenFailed(e) => {
            let mut s = string_from("failed to open ");
            push_str(&mut s, path);
            push_str(&mut s, ": ");
            push_str(&mut s, e.as_str());
            Err(s)
        },
        FileRead::ReadFailed(e) => {
            let mut s = string_from("failed to read ");
            push_str(&mut s, path);
            push_str(&mut s, ": ");
            push_str(&mut s, e.as_str());
            Err(s)
        },
    }
}

/// What a reload check found.
#[derive(Debug, Clone, PartialEq, Eq)]
pub enum BindingReload {
    Unchanged,
    Reloaded,
    Removed,
    Invalid(String),
    ReadError(String),
}

pub enum ReloadModel {
    Unchanged,
    Reloaded,
    Removed,
    Invalid(Seq<char>),
    ReadError(Seq<char>),
}

impl View for BindingReload {
    type V = ReloadModel;

    open spec fn view(&self) -> ReloadModel {
        match self {
            BindingReload::Unchanged => ReloadModel::Unchanged,
            BindingReload::Reloaded => ReloadModel::Reloaded,
            BindingReload::Removed => ReloadModel::Removed,
            BindingReload::Invalid(e) => ReloadModel::Invalid(e@),
            BindingReload::ReadError(e) => ReloadModel::ReadError(e@),
        }
    }
}

/// Keeps the game's flask bindings current while the config file changes.
pub struct BindingManager {
    current: GameBindings,
    path: String,
    observed_stamp: Option<FileStamp>,
    file_present: bool,
    last_error: Option<String>,
}

pub struct BindingManagerModel {
    pub current: BindingsModel,
    pub path: Seq<char>,
    pub observed: Option<FileStamp>,
    pub file_present: bool,
    pub last_error: Option<Seq<char>>,
}

pub open spec fn opt_text(s: Option<String>) -> Option<Seq<char>> {
    match s {
        Some(t) => Some(t@),
        None => None,
    }
}

impl BindingManager {
    /// The manager never holds bindings it has not accepted from the file: with no accepted
    /// stamp, its bindings are unavailable.
    #[verifier::type_invariant]
    spec fn no_stale(self) -> bool {
        self.observed_stamp is None ==> self.current is Unavailable
    }
}

/// Whether the manager holds no bindings it has not accepted from the file: with no accepted
/// stamp, its bindings are unavailable.
pub open spec fn no_stale_bindings(m: BindingManagerModel) -> bool {
    m.observed is None ==> m.current is Unavailable
}

impl View for BindingManager {
    type V = BindingManagerModel;

    closed spec fn view(&self) -> BindingManagerModel {
        BindingManagerModel {
            current: self.current@,
            path: self.path@,
            observed: self.observed_stamp,
            file_present: self.file_present,
            last_error: opt_text(self.last_error),
        }
    }
}

/// What a stamp check reports: the file's stamp, `None` when it is missing, or the system's
/// message when it could not be checked.
pub open spec fn stamp_view(stamp: Result<Option<FileStamp>, String>) -> Result<
    Option<FileStamp>,
    Seq<char>,
> {
    match stamp {
        Ok(s) => Ok(s),
        Err(e) => Err(e@),
    }
}

/// The bindings text when the config file is missing.
pub open spec fn not_found_text(path: Seq<char>) -> Seq<char> {
    path + " not found"@
}

/// The manager right after startup.
pub open spec fn load_model(path: Seq<char>, stamp: Option<FileStamp>, file: Option<FileReadModel>) -> BindingManagerModel {
    BindingManagerModel {
        current: match stamp {
            Some(_) => match file {
                Some(f) => match file_bindings(path, f) {
                    Ok(b) => b,
                    Err(e) => BindingsModel::Unavailable(e),
                },
                None => BindingsModel::Unavailable(not_found_text(path)),
            },
            None => BindingsModel::Unavailable(not_found_text(path)),
        },
        path,
        observed: stamp,
        file_present: stamp is Some,
        last_error: None,
    }
}

/// Whether a check with this stamp reads the file: only when the file is there and its stamp
/// differs from the one last accepted.
pub open spec fn reads_file(m: BindingManagerModel, stamp: Result<Option<FileStamp>, Seq<char>>) -> bool {
    match stamp {
        Ok(Some(s)) => m.observed != Some(s),
        _ => false,
    }
}

/// A failure is shown once: the bindings become unavailable, and the failure is reported only
/// when its text differs from the last one reported.
pub open spec fn read_error_step(m: BindingManagerModel, message: Seq<char>) -> (BindingManagerModel, ReloadModel) {
    let m1 = BindingManagerModel { current: BindingsModel::Unavailable(message), ..m };
    if m.last_error == Some(message) {
        (m1, ReloadModel::Unchanged)
    } else {
        (BindingManagerModel { last_error: Some(message), ..m1 }, ReloadModel::ReadError(message))
    }
}

/// One reload check, from the stamp found and, when it was read, the file.
pub open spec fn reload_step(
    m: BindingManagerModel,
    stamp: Result<Option<FileStamp>, Seq<char>>,
    file: Option<FileReadModel>,
) -> (BindingManagerModel, ReloadModel) {
    match stamp {
        Err(e) => read_error_step(
            BindingManagerModel { observed: None, ..m },
            "failed to check "@ + m.path + ": "@ + e,
        ),
        Ok(s) => if s == m.observed {
            (m, ReloadModel::Unchanged)
        } else {
            match s {
                None => {
                    let m1 = BindingManagerModel {
                        observed: None,
                        last_error: None,
                        current: BindingsModel::Unavailable(not_found_text(m.path)),
                        ..m
                    };
                    if m.file_present {
                        (BindingManagerModel { file_present: false, ..m1 }, ReloadModel::Removed)
                    } else {
                        (m1, ReloadModel::Unchanged)
                    }
                },
                Some(st) => match file {
                    None => (m, ReloadModel::Unchanged),
                    Some(f) => match file_bindings(m.path, f) {
                        Ok(b) => {
                            let m1 = BindingManagerModel {
                                file_present: true,
                                observed: Some(st),
                                last_error: None,
                                ..m
                            };
                            if b == m.current {
                                (m1, ReloadModel::Unchanged)
                            } else {
                                (BindingManagerModel { current: b, ..m1 }, ReloadModel::Reloaded)
                            }
                        },
                        Err(e) => {
                            let m1 = BindingManagerModel {
                                file_present: true,
                                observed: None,
                                current: BindingsModel::Unavailable(e),
                                ..m
                            };
                            if m.last_error == Some(e) {
                                (m1, ReloadModel::Unchanged)
                            } else {
                                (
                                    BindingManagerModel { last_error: Some(e), ..m1 },
                                    ReloadModel::Invalid(e),
                                )
                            }
                        },
                    },
                },
            }
        },
    }
}

/// Whether two optional texts are the same.
fn same_text(a: &Option<String>, b: &String) -> (r: bool)
    ensures
        r == (opt_text(*a) == Some(b@)),
{
    match a {
        Some(x) => crate::text::str_eq(x.as_str(), b.as_str()),
        None => false,
    }
}

/// Whether two bindings are the same.
pub fn same_bindings(a: &GameBindings, b: &GameBindings) -> (r: bool)
    ensures
        r == (a@ == b@),
{
    match (a, b) {
        (
            GameBindings::Keyboard { mode: m1, life: l1, mana: n1 },
            GameBindings::Keyboard { mode: m2, life: l2, mana: n2 },
        ) => *m1 == *m2 && *l1 == *l2 && *n1 == *n2,
        (GameBindings::Gamepad, GameBindings::Gamepad) => true,
        (GameBindings::UnsupportedMode(x), GameBindings::UnsupportedMode(y)) => crate::text::str_eq(
            x.as_str(),
            y.as_str(),
        ),
        (GameBindings::Unavailable(x), GameBindings::Unavailable(y)) => crate::text::str_eq(
            x.as_str(),
            y.as_str(),
        ),
        _ => false,
    }
}

impl KeyboardMode {
    /// The mode's name in the game's config.
    pub fn label(self) -> (s: &'static str)
        ensures
            s@ == mode_label(self),
    {
        match self {
            KeyboardMode::MouseAndKeyboard => "mouse_and_keyboard",
            KeyboardMode::Wasd => "wasd",
        }
    }
}

pub open spec fn mode_label(m: KeyboardMode) -> Seq<char> {
    match m {
        KeyboardMode::MouseAndKeyboard => "mouse_and_keyboard"@,
        KeyboardMode::Wasd => "wasd"@,
    }
}

/// The one-line description of the bindings in use.
pub open spec fn summary_text(b: BindingsModel) -> Seq<char> {
    match b {
        BindingsModel::Keyboard { mode, life, mana } => "PoE2 input: "@ + mode_label(mode)
            + " | Life "@ + life.text() + " | Mana "@ + mana.text(),
        BindingsModel::Gamepad => "PoE2 input: gamepad (auto-flask input not supported yet)"@,
        BindingsModel::UnsupportedMode(m) => "PoE2 input: "@ + m + " (unsupported input mode)"@,
        BindingsModel::Unavailable(e) => "PoE2 input bindings unavailable: "@ + e,
    }
}

impl GameBindings {
    /// Describes the bindings in one line.
    pub fn summary(&self) -> (out: String)
        ensures
            out@ == summary_text(self@),
    {
        match self {
            GameBindings::Keyboard { mode, life, mana } => {
                let mut s = string_from("PoE2 input: ");
                push_str(&mut s, mode.label());
                push_str(&mut s, " | Life ");
                let l = life.label();
                push_str(&mut s, l.as_str());
                push_str(&mut s, " | Mana ");
                let m = mana.label();
                push_str(&mut s, m.as_str());
                s
            },
            GameBindings::Gamepad => string_from(
                "PoE2 input: gamepad (auto-flask input not supported yet)",
            ),
            GameBindings::UnsupportedMode(m) => {
                let mut s = string_from("PoE2 input: ");
                push_str(&mut s, m.as_str());
                push_str(&mut s, " (unsupported input mode)");
                s
            },
            GameBindings::Unavailable(e) => {
                let mut s = string_from("PoE2 input bindings unavailable: ");
                push_str(&mut s, e.as_str());
                s
            },
        }
    }
}

impl BindingManager {
    /// The manager at startup, from the config's path, its stamp (`None` when the file is
    /// missing) and, when it is there, what reading it gave.
    pub fn load(path: String, stamp: Option<FileStamp>, file: Option<FileRead>) -> (m: Self)
        requires
            stamp is Some <==> file is Some,
        ensures
            m@ == load_model(
                path@,
                stamp,
                match file {
                    Some(f) => Some(f@),
                    None => None,
                },
            ),
            no_stale_bindings(m@),
    {
        let current = match file {
            Some(f) => match parse_file(path.as_str(), f) {
                Ok(b) => b,
                Err(e) => GameBindings::Unavailable(e),
            },
            None => GameBindings::Unavailable(Self::not_found(&path)),
        };
        BindingManager { current, path, observed_stamp: stamp, file_present: stamp.is_some(), last_error: None }
    }

    fn not_found(path: &String) -> (s: String)
        ensures
            s@ == not_found_text(path@),
    {
        let mut s = path.clone();
        push_str(&mut s, " not found");
        s
    }

    /// The bindings in use.
    pub fn current(&self) -> (b: &GameBindings)
        ensures
            b@ == self@.current,
    {
        &self.current
    }

    /// Whether a check with this stamp needs the file's contents.
    pub fn needs_file(&self, stamp: &Result<Option<FileStamp>, String>) -> (r: bool)
        ensures
            r == reads_file(self@, stamp_view(*stamp)),
    {
        match stamp {
            Ok(Some(s)) => !same_stamp(Some(*s), self.observed_stamp),
            _ => false,
        }
    }

    /// One reload check: `stamp` is what checking the file gave, and `file` what reading it gave,
    /// present exactly when `needs_file` asks for it.
    pub fn check_for_reload(
        &mut self,
        stamp: Result<Option<FileStamp>, String>,
        file: Option<FileRead>,
    ) -> (r: BindingReload)
        requires
            file is Some <==> reads_file(old(self)@, stamp_view(stamp)),
        ensures
            (final(self)@, r@) == reload_step(
                old(self)@,
                stamp_view(stamp),
                match file {
                    Some(f) => Some(f@),
                    None => None,
                },
            ),
            no_stale_bindings(final(self)@),
    {
        let r = self.reload(stamp, file);
        proof {
            use_type_invariant(&*self);
        }
        r
    }

    fn reload(
        &mut self,
        stamp: Result<Option<FileStamp>, String>,
        file: Option<FileRead>,
    ) -> (r: BindingReload)
        requires
            file is Some <==> reads_file(old(self)@, stamp_view(stamp)),
        ensures
            (final(self)@, r@) == reload_step(
                old(self)@,
                stamp_view(stamp),
                match file {
                    Some(f) => Some(f@),
                    None => None,
                },
            ),
    {
        proof {
            use_type_invariant(&*self);
        }
        let stamp = match stamp {
            Ok(s) => s,
            Err(e) => {
                let mut message = string_from("failed to check ");
                push_str(&mut message, self.path.as_str());
                push_str(&mut message, ": ");
                push_str(&mut message, e.as_str());
                let r = self.read_error(message);
                self.observed_stamp = None;
                return r;
            },
        };
        if same_stamp(stamp, self.observed_stamp) {
            return BindingReload::Unchanged;
        }
        let s = match stamp {
            None => {
                self.current = GameBindings::Unavailable(Self::not_found(&self.path));
                self.observed_stamp = None;
                self.last_error = None;
                if self.file_present {
                    self.file_present = false;
                    return BindingReload::Removed;
                }
                return BindingReload::Unchanged;
            },
            Some(s) => s,
        };
        let f = match file {
            Some(f) => f,
            None => {
                return BindingReload::Unchanged;
            },
        };
        self.file_present = true;
        match parse_file(self.path.as_str(), f) {
            Ok(bindings) => {
                self.observed_stamp = Some(s);
                self.last_error = None;
                if same_bindings(&bindings, &self.current) {
                    BindingReload::Unchanged
                } else {
                    self.current = bindings;
                    BindingReload::Reloaded
                }
            },
            Err(message) => {
                self.current = GameBindings::Unavailable(message.clone());
                self.observed_stamp = None;
                if same_text(&self.last_error, &message) {
                    BindingReload::Unchanged
                } else {
                    self.last_error = Some(message.clone());
                    BindingReload::Invalid(message)
                }
            },
        }
    }

    fn read_error(&mut self, message: String) -> (r: BindingReload)
        ensures
            (final(self)@, r@) == read_error_step(old(self)@, message@),
    {
        self.current = GameBindings::Unavailable(message.clone());
        if same_text(&self.last_error, &message) {
            BindingReload::Unchanged
        } else {
            self.last_error = Some(message.clone());
            BindingReload::ReadError(message)
        }
    }
}

} // verus!
