//! The Linux launcher's decisions: its command line, and finding the game's Steam Proton
//! environment from a process's command line and environment.

use vstd::prelude::*;

use crate::text::chars_of;

verus! {

/// The bytes of an ASCII text.
pub open spec fn ascii_bytes(s: Seq<char>) -> Seq<u8> {
    s.map_values(|c: char| (c as u32) as u8)
}

/// Converts an ASCII text to its bytes.
pub fn bytes_of(s: &str) -> (b: Vec<u8>)
    ensures
        b@ == ascii_bytes(s@),
{
    let v = chars_of(s);
    let mut b: Vec<u8> = Vec::new();
    let mut i: usize = 0;
    while i < v.len()
        invariant
            v@ == s@,
            i <= v@.len(),
            b@ =~= ascii_bytes(s@).take(i as int),
        decreases v@.len() - i,
    {
        b.push((v[i] as u32) as u8);
        i += 1;
    }
    assert(ascii_bytes(s@).take(v@.len() as int) =~= ascii_bytes(s@));
    b
}

/// The game's Steam application id.
pub open spec fn app_id() -> Seq<u8> {
    ascii_bytes("2694490"@)
}

/// The executable name looked for in a process's command line.
pub open spec fn game_exe() -> Seq<u8> {
    ascii_bytes("PathOfExileSteam.exe"@)
}

/// Whether `needle` occurs in `haystack` at `i`.
pub open spec fn bytes_at(haystack: Seq<u8>, needle: Seq<u8>, i: int) -> bool {
    0 <= i && i + needle.len() <= haystack.len() && haystack.subrange(i, i + needle.len()) == needle
}

/// Whether a non-empty `needle` occurs in `haystack`.
pub open spec fn contains_seq(haystack: Seq<u8>, needle: Seq<u8>) -> bool {
    needle.len() > 0 && exists|i: int| bytes_at(haystack, needle, i)
}

/// Whether `needle` is non-empty and occurs in `haystack`.
pub fn contains_bytes(haystack: &[u8], needle: &[u8]) -> (b: bool)
    ensures
        b == contains_seq(haystack@, needle@),
{
    let hlen = haystack.len();
    let nlen = needle.len();
    if nlen == 0 {
        return false;
    }
    if nlen > hlen {
        assert forall|i: int| !bytes_at(haystack@, needle@, i) by {}
        return false;
    }
    let last = hlen - nlen;
    let mut i: usize = 0;
    while i <= last
        invariant
            hlen == haystack@.len(),
            nlen == needle@.len(),
            nlen > 0,
            last == hlen - nlen,
            i <= last + 1,
            forall|j: int| 0 <= j < i ==> !bytes_at(haystack@, needle@, j),
        decreases last + 1 - i,
    {
        let mut k: usize = 0;
        let mut same = true;
        while k < nlen
            invariant
                hlen == haystack@.len(),
                nlen == needle@.len(),
                i <= last,
                last == hlen - nlen,
                k <= nlen,
                same == (forall|m: int| 0 <= m < k ==> haystack@[i + m] == needle@[m]),
            decreases nlen - k,
        {
            if haystack[i + k] != needle[k] {
                same = false;
            }
            k += 1;
        }
        if same {
            assert(haystack@.subrange(i as int, i + nlen) =~= needle@);
            assert(bytes_at(haystack@, needle@, i as int));
            return true;
        }
        assert(!bytes_at(haystack@, needle@, i as int)) by {
            let m = choose|m: int| 0 <= m < nlen && haystack@[i + m] != needle@[m];
            if haystack@.subrange(i as int, i + nlen) == needle@ {
                assert(haystack@.subrange(i as int, i + nlen)[m] == haystack@[i + m]);
            }
        }
        i += 1;
    }
    assert forall|j: int| !bytes_at(haystack@, needle@, j) by {
        if 0 <= j < i {
        }
    }
    false
}

/// Index of the first zero byte at or after `i`, or the length.
pub open spec fn next_zero(e: Seq<u8>, i: int) -> int
    decreases e.len() - i,
{
    if i < 0 || i >= e.len() {
        e.len() as int
    } else if e[i] == 0 {
        i
    } else {
        next_zero(e, i + 1)
    }
}

/// Index of the first `=` in `entry`, or its length.
pub open spec fn first_equals(entry: Seq<u8>, i: int) -> int
    decreases entry.len() - i,
{
    if i < 0 || i >= entry.len() {
        entry.len() as int
    } else if entry[i] == 61 {
        i
    } else {
        first_equals(entry, i + 1)
    }
}

/// The value of `key` in one `KEY=value` entry.
pub open spec fn entry_value(entry: Seq<u8>, key: Seq<u8>) -> Option<Seq<u8>> {
    let p = first_equals(entry, 0);
    if p >= entry.len() {
        None
    } else if entry.take(p) == key {
        Some(entry.skip(p + 1))
    } else {
        None
    }
}

/// The value of `key` in the zero-separated entries of `e` from `start` on: the first entry
/// that gives one.
pub open spec fn env_lookup(e: Seq<u8>, key: Seq<u8>, start: int) -> Option<Seq<u8>>
    decreases e.len() - start,
{
    if start < 0 || start > e.len() {
        None
    } else {
        let z = next_zero(e, start);
        match entry_value(e.subrange(start, z), key) {
            Some(v) => Some(v),
            None => if z >= e.len() {
                None
            } else {
                proof {
                    lemma_next_zero_bounds(e, start);
                }
                env_lookup(e, key, z + 1)
            },
        }
    }
}

/// The next separator is at or after `i` and within the entries.
pub proof fn lemma_next_zero_bounds(e: Seq<u8>, i: int)
    requires
        0 <= i <= e.len(),
    ensures
        i <= next_zero(e, i) <= e.len(),
    decreases e.len() - i,
{
    if i < e.len() && e[i] != 0 {
        lemma_next_zero_bounds(e, i + 1);
    }
}

/// The value of `key` in a process environment (`KEY=value` entries separated by zero bytes).
pub fn env_value(environ: &[u8], key: &[u8]) -> (r: Option<Vec<u8>>)
    ensures
        match r {
            Some(v) => env_lookup(environ@, key@, 0) == Some(v@),
            None => env_lookup(environ@, key@, 0) is None,
        },
{
    let n = environ.len();
    let mut start: usize = 0;
    loop
        invariant
            n == environ@.len(),
            start <= n,
            env_lookup(environ@, key@, 0) == env_lookup(environ@, key@, start as int),
        decreases n - start,
    {
        let mut z = start;
        while z < n && environ[z] != 0
            invariant
                n == environ@.len(),
                start <= z <= n,
                next_zero(environ@, start as int) == next_zero(environ@, z as int),
            decreases n - z,
        {
            z += 1;
        }
        let mut p = start;
        while p < z && environ[p] != 61
            invariant
                start <= p <= z <= n,
                n == environ@.len(),
                first_equals(environ@.subrange(start as int, z as int), 0) == first_equals(
                    environ@.subrange(start as int, z as int),
                    p - start,
                ),
            decreases z - p,
        {
            p += 1;
        }
        let ghost entry = environ@.subrange(start as int, z as int);
        if p < z {
            let klen = key.len();
            let mut same = p - start == klen;
            let mut k: usize = 0;
            if same {
                while k < klen
                    invariant
                        start + klen == p,
                        p < z <= n,
                        n == environ@.len(),
                        klen == key@.len(),
                        k <= klen,
                        same == (forall|m: int| 0 <= m < k ==> environ@[start + m] == key@[m]),
                    decreases klen - k,
                {
                    if environ[start + k] != key[k] {
                        same = false;
                    }
                    k += 1;
                }
            }
            proof {
                if same {
                    assert(entry.take(p - start) =~= key@);
                } else if p - start == key@.len() {
                    let m = choose|m: int| 0 <= m < key@.len() && environ@[start + m] != key@[m];
                    assert(entry.take(p - start)[m] != key@[m]);
                }
            }
            if same {
                let mut v: Vec<u8> = Vec::new();
                let mut q = p + 1;
                while q < z
                    invariant
                        p + 1 <= q <= z <= n,
                        n == environ@.len(),
                        v@ == environ@.subrange(p + 1, q as int),
                    decreases z - q,
                {
                    v.push(environ[q]);
                    q += 1;
                    assert(v@ =~= environ@.subrange(p + 1, q as int));
                }
                assert(entry.skip(p - start + 1) =~= v@);
                return Some(v);
            }
        }
        if z >= n {
            return None;
        }
        start = z + 1;
    }
}

/// Whether a process environment belongs to the game: its Steam application id, under either
/// key Steam uses, is the game's.
pub open spec fn is_game_environment(e: Seq<u8>) -> bool {
    env_lookup(e, ascii_bytes("STEAM_COMPAT_APP_ID"@), 0) == Some(app_id()) || env_lookup(
        e,
        ascii_bytes("SteamAppId"@),
        0,
    ) == Some(app_id())
}

fn same_bytes(a: &Vec<u8>, b: &Vec<u8>) -> (r: bool)
    ensures
        r == (a@ == b@),
{
    if a.len() != b.len() {
        return false;
    }
    let mut i: usize = 0;
    while i < a.len()
        invariant
            a@.len() == b@.len(),
            i <= a@.len(),
            forall|j: int| 0 <= j < i ==> a@[j] == b@[j],
        decreases a@.len() - i,
    {
        if a[i] != b[i] {
            return false;
        }
        i += 1;
    }
    assert(a@ =~= b@);
    true
}

/// Whether a process environment belongs to the game.
pub fn environment_matches_app(environ: &[u8]) -> (b: bool)
    ensures
        b == is_game_environment(environ@),
{
    let app = bytes_of("2694490");
    let k1 = bytes_of("STEAM_COMPAT_APP_ID");
    let k2 = bytes_of("SteamAppId");
    let first = match env_value(environ, k1.as_slice()) {
        Some(v) => same_bytes(&v, &app),
        None => false,
    };
    if first {
        return true;
    }
    match env_value(environ, k2.as_slice()) {
        Some(v) => same_bytes(&v, &app),
        None => false,
    }
}

/// Whether a process command line names the game's executable.
pub fn names_game_exe(cmdline: &[u8]) -> (b: bool)
    ensures
        b == contains_seq(cmdline@, game_exe()),
{
    let exe = bytes_of("PathOfExileSteam.exe");
    contains_bytes(cmdline, exe.as_slice())
}

/// What the launcher's command line asks for.
#[derive(Debug, Clone, PartialEq, Eq)]
pub enum LauncherArgs {
    /// Show the help text.
    Help,
    /// A usage error, with its message.
    Invalid(String),
    /// Start the helper: the helper path given with `--helper`, if any, and the arguments to
    /// hand on to it.
    Run { helper: Option<Vec<u8>>, helper_args: Vec<Vec<u8>> },
}

pub enum LauncherArgsModel {
    Help,
    Invalid(Seq<char>),
    Run { helper: Option<Seq<u8>>, helper_args: Seq<Seq<u8>> },
}

/// The arguments as byte strings.
pub open spec fn arg_bytes(args: Seq<Vec<u8>>) -> Seq<Seq<u8>> {
    args.map_values(|a: Vec<u8>| a@)
}

impl View for LauncherArgs {
    type V = LauncherArgsModel;

    open spec fn view(&self) -> LauncherArgsModel {
        match self {
            LauncherArgs::Help => LauncherArgsModel::Help,
            LauncherArgs::Invalid(m) => LauncherArgsModel::Invalid(m@),
            LauncherArgs::Run { helper, helper_args } => LauncherArgsModel::Run {
                helper: match helper {
                    Some(h) => Some(h@),
                    None => None,
                },
                helper_args: arg_bytes(helper_args@),
            },
        }
    }
}

/// The meaning of the launcher's arguments from `i` on, with the helper path and the helper
/// arguments found before `i`: `--help` or `-h` shows help; `--helper` takes the next argument
/// as the helper's path; `--auto` and `--debug` are handed on; `--` hands on everything after
/// it; anything else is an error.
pub open spec fn launcher_parse(args: Seq<Seq<u8>>, i: int, helper: Option<Seq<u8>>, passed: Seq<Seq<u8>>) -> LauncherArgsModel
    decreases args.len() - i,
{
    if i < 0 || i >= args.len() {
        LauncherArgsModel::Run { helper, helper_args: passed }
    } else if args[i] == ascii_bytes("--help"@) || args[i] == ascii_bytes("-h"@) {
        LauncherArgsModel::Help
    } else if args[i] == ascii_bytes("--helper"@) {
        if i + 1 < args.len() {
            launcher_parse(args, i + 2, Some(args[i + 1]), passed)
        } else {
            LauncherArgsModel::Invalid("--helper requires a path"@)
        }
    } else if args[i] == ascii_bytes("--auto"@) || args[i] == ascii_bytes("--debug"@) {
        launcher_parse(args, i + 1, helper, passed.push(args[i]))
    } else if args[i] == ascii_bytes("--"@) {
        LauncherArgsModel::Run { helper, helper_args: passed + args.subrange(i + 1, args.len() as int) }
    } else {
        LauncherArgsModel::Invalid("unknown argument: "@ + crate::text::utf8_lossy_text(args[i]))
    }
}

fn bytes_equal(a: &[u8], b: &[u8]) -> (r: bool)
    ensures
        r == (a@ == b@),
{
    if a.len() != b.len() {
        return false;
    }
    let mut i: usize = 0;
    while i < a.len()
        invariant
            a@.len() == b@.len(),
            i <= a@.len(),
            forall|j: int| 0 <= j < i ==> a@[j] == b@[j],
        decreases a@.len() - i,
    {
        if a[i] != b[i] {
            return false;
        }
        i += 1;
    }
    assert(a@ =~= b@);
    true
}

fn is_arg(arg: &Vec<u8>, name: &str) -> (r: bool)
    ensures
        r == (arg@ == ascii_bytes(name@)),
{
    let b = bytes_of(name);
    bytes_equal(arg.as_slice(), b.as_slice())
}

fn copy_bytes(a: &Vec<u8>) -> (c: Vec<u8>)
    ensures
        c@ == a@,
{
    let mut c: Vec<u8> = Vec::new();
    let mut i: usize = 0;
    while i < a.len()
        invariant
            i <= a@.len(),
            c@ == a@.take(i as int),
        decreases a@.len() - i,
    {
        c.push(a[i]);
        assert(a@.take(i + 1) =~= a@.take(i as int).push(a@[i as int]));
        i += 1;
    }
    assert(a@.take(a@.len() as int) =~= a@);
    c
}

/// Reads the launcher's arguments (those after the program name).
pub fn parse_launcher_args(args: &Vec<Vec<u8>>) -> (r: LauncherArgs)
    ensures
        r@ == launcher_parse(arg_bytes(args@), 0, None, Seq::empty()),
{
    let ghost a = arg_bytes(args@);
    let mut helper: Option<Vec<u8>> = None;
    let mut passed: Vec<Vec<u8>> = Vec::new();
    assert(arg_bytes(passed@) =~= Seq::<Seq<u8>>::empty());
    let mut i: usize = 0;
    while i < args.len()
        invariant
            a == arg_bytes(args@),
            i <= args@.len(),
            launcher_parse(a, 0, None, Seq::empty()) == launcher_parse(
                a,
                i as int,
                match helper {
                    Some(h) => Some(h@),
                    None => None,
                },
                arg_bytes(passed@),
            ),
        decreases args@.len() - i,
    {
        let arg = &args[i];
        assert(a[i as int] == arg@);
        if is_arg(arg, "--help") || is_arg(arg, "-h") {
            return LauncherArgs::Help;
        }
        if is_arg(arg, "--helper") {
            if i + 1 < args.len() {
                assert(a[i + 1] == args@[i + 1]@);
                helper = Some(copy_bytes(&args[i + 1]));
                i += 2;
                continue;
            }
            return LauncherArgs::Invalid(crate::text::string_from("--helper requires a path"));
        }
        if is_arg(arg, "--auto") || is_arg(arg, "--debug") {
            let ghost before = passed@;
            passed.push(copy_bytes(arg));
            assert(arg_bytes(passed@) =~= arg_bytes(before).push(a[i as int]));
            i += 1;
            continue;
        }
        if is_arg(arg, "--") {
            let ghost before = passed@;
            let mut j: usize = i + 1;
            while j < args.len()
                invariant
                    a == arg_bytes(args@),
                    i < j <= args@.len(),
                    arg_bytes(passed@) =~= arg_bytes(before) + a.subrange(i + 1, j as int),
                decreases args@.len() - j,
            {
                let ghost mid = passed@;
                passed.push(copy_bytes(&args[j]));
                assert(arg_bytes(passed@) =~= arg_bytes(mid).push(a[j as int]));
                assert(a.subrange(i + 1, j + 1) =~= a.subrange(i + 1, j as int).push(a[j as int]));
                j += 1;
            }
            return LauncherArgs::Run { helper, helper_args: passed };
        }
        let mut m = crate::text::string_from("unknown argument: ");
        let shown = crate::text::utf8_lossy(arg.as_slice());
        crate::text::push_str(&mut m, shown.as_str());
        return LauncherArgs::Invalid(m);
    }
    LauncherArgs::Run { helper, helper_args: passed }
}

/// What a game process's environment says about its Proton setup.
#[derive(Debug, Clone, PartialEq, Eq)]
pub struct ProtonEnvironment {
    /// `STEAM_COMPAT_CLIENT_INSTALL_PATH`: the Steam client.
    pub steam_client: Vec<u8>,
    /// `STEAM_COMPAT_DATA_PATH`: the game's compatibility data, holding its prefix.
    pub compat_data: Vec<u8>,
    /// `STEAM_COMPAT_TOOL_PATHS`: the compatibility tools, one of which is Proton.
    pub tool_paths: Vec<u8>,
}

/// The Proton setup of a process, when its command line names the game's executable, its
/// environment carries the game's application id, and all three Proton variables are set.
pub open spec fn proton_setup(cmdline: Seq<u8>, environ: Seq<u8>) -> Option<(Seq<u8>, Seq<u8>, Seq<u8>)> {
    if !contains_seq(cmdline, game_exe()) || !is_game_environment(environ) {
        None
    } else {
        match (
            env_lookup(environ, ascii_bytes("STEAM_COMPAT_CLIENT_INSTALL_PATH"@), 0),
            env_lookup(environ, ascii_bytes("STEAM_COMPAT_DATA_PATH"@), 0),
            env_lookup(environ, ascii_bytes("STEAM_COMPAT_TOOL_PATHS"@), 0),
        ) {
            (Some(client), Some(data), Some(tools)) => Some((client, data, tools)),
            _ => None,
        }
    }
}

/// Reads the Proton setup of a process from its command line and environment.
pub fn proton_environment(cmdline: &[u8], environ: &[u8]) -> (r: Option<ProtonEnvironment>)
    ensures
        match r {
            Some(e) => proton_setup(cmdline@, environ@) == Some((e.steam_client@, e.compat_data@, e.tool_paths@)),
            None => proton_setup(cmdline@, environ@) is None,
        },
{
    if !names_game_exe(cmdline) || !environment_matches_app(environ) {
        return None;
    }
    let client_key = bytes_of("STEAM_COMPAT_CLIENT_INSTALL_PATH");
    let data_key = bytes_of("STEAM_COMPAT_DATA_PATH");
    let tools_key = bytes_of("STEAM_COMPAT_TOOL_PATHS");
    let steam_client = match env_value(environ, client_key.as_slice()) {
        Some(v) => v,
        None => {
            return None;
        },
    };
    let compat_data = match env_value(environ, data_key.as_slice()) {
        Some(v) => v,
        None => {
            return None;
        },
    };
    let tool_paths = match env_value(environ, tools_key.as_slice()) {
        Some(v) => v,
        None => {
            return None;
        },
    };
    Some(ProtonEnvironment { steam_client, compat_data, tool_paths })
}

} // verus!
