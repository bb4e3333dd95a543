//! The game's executable image: PE headers, section lookup and the chunked signature scan.

use vstd::prelude::*;

use crate::entity::{address, wrap_add};
use crate::error::{error, probe_error, result_view, ErrorKind, ProbeError, ProbeErrorModel};
use crate::le::{field, le_nat, le_signed, read_i32_from, read_u16_from, read_u32_from};
use crate::text::{
    debug_quoted, debug_str, decimal, eq_ignore_ascii_case, hex_lower, push_decimal,
    push_hex_lower, push_str, str_eq, str_eq_ignore_ascii_case, string_from, utf16_lossy,
    utf16_lossy_text, utf8_lossy, utf8_lossy_text,
};

verus! {

/// Bytes read per step of a signature scan.
pub const SCAN_CHUNK_SIZE: usize = 1024 * 1024;

/// The module that holds the game's code.
#[derive(Debug, Clone)]
pub struct ModuleInfo {
    pub name: String,
    pub base_address: usize,
    pub size: u32,
}

/// A section of the game's executable image, by address.
#[derive(Debug, Clone)]
pub struct PeSection {
    pub name: String,
    pub address: usize,
    pub size: usize,
}

pub struct PeSectionModel {
    pub name: Seq<char>,
    pub address: usize,
    pub size: usize,
}

impl View for PeSection {
    type V = PeSectionModel;

    open spec fn view(&self) -> PeSectionModel {
        PeSectionModel { name: self.name@, address: self.address, size: self.size }
    }
}

/// The executable names of the game.
pub open spec fn is_game_executable(name: Seq<char>) -> bool {
    eq_ignore_ascii_case(name, "PathOfExileSteam.exe"@) || eq_ignore_ascii_case(
        name,
        "PathOfExile.exe"@,
    )
}

/// Whether a process or module name is one of the game's executables, ignoring ASCII case.
pub fn is_target_name(name: &str) -> (b: bool)
    ensures
        b == is_game_executable(name@),
{
    str_eq_ignore_ascii_case(name, "PathOfExileSteam.exe") || str_eq_ignore_ascii_case(
        name,
        "PathOfExile.exe",
    )
}

/// The game's process among `(name, pid)` entries: the first whose name is a game executable.
pub fn select_process(entries: &Vec<(String, u32)>) -> (r: Result<u32, ProbeError>)
    ensures
        match r {
            Ok(pid) => exists|i: int|
                0 <= i < entries@.len() && is_game_executable(#[trigger] entries@[i].0@)
                    && entries@[i].1 == pid && forall|j: int|
                    0 <= j < i ==> !is_game_executable(#[trigger] entries@[j].0@),
            Err(e) => e@ == probe_error(ErrorKind::NotFound, "Path of Exile 2 process was not found"@)
                && forall|j: int| 0 <= j < entries@.len() ==> !is_game_executable(#[trigger] entries@[j].0@),
        },
{
    let mut i: usize = 0;
    while i < entries.len()
        invariant
            i <= entries@.len(),
            forall|j: int| 0 <= j < i ==> !is_game_executable(#[trigger] entries@[j].0@),
        decreases entries@.len() - i,
    {
        if is_target_name(entries[i].0.as_str()) {
            return Ok(entries[i].1);
        }
        i += 1;
    }
    Err(error(ErrorKind::NotFound, "Path of Exile 2 process was not found"))
}

/// The game's main module: the first module named like a game executable, else the first
/// module of all.
pub fn select_main_module(modules: &Vec<ModuleInfo>) -> (r: Result<ModuleInfo, ProbeError>)
    ensures
        match r {
            Ok(m) => (exists|i: int|
                0 <= i < modules@.len() && is_game_executable(#[trigger] modules@[i].name@)
                    && modules@[i] == m && forall|j: int|
                    0 <= j < i ==> !is_game_executable(#[trigger] modules@[j].name@)) || (
            modules@.len() > 0 && modules@[0] == m && forall|j: int|
                0 <= j < modules@.len() ==> !is_game_executable(#[trigger] modules@[j].name@)),
            Err(e) => modules@.len() == 0 && e@ == probe_error(
                ErrorKind::NotFound,
                "no modules were returned for the PoE2 process"@,
            ),
        },
{
    let mut i: usize = 0;
    while i < modules.len()
        invariant
            i <= modules@.len(),
            forall|j: int| 0 <= j < i ==> !is_game_executable(#[trigger] modules@[j].name@),
        decreases modules@.len() - i,
    {
        if is_target_name(modules[i].name.as_str()) {
            return Ok(copy_module(&modules[i]));
        }
        i += 1;
    }
    if modules.len() == 0 {
        return Err(error(ErrorKind::NotFound, "no modules were returned for the PoE2 process"));
    }
    Ok(copy_module(&modules[0]))
}

fn copy_module(m: &ModuleInfo) -> (c: ModuleInfo)
    ensures
        c == *m,
{
    ModuleInfo { name: m.name.clone(), base_address: m.base_address, size: m.size }
}

/// Where the PE header starts, from the image's first 64 bytes (its DOS header).
pub open spec fn dos_pe_offset(h: Seq<u8>) -> Result<usize, ProbeErrorModel> {
    if !(h[0] == 0x4D && h[1] == 0x5A) {
        Err(probe_error(ErrorKind::InvalidData, "main module does not start with an MZ header"@))
    } else {
        let off = le_signed(field(h, 0x3c, 4), 32);
        if !(0x40 <= off <= 0x10_0000) {
            Err(
                probe_error(
                    ErrorKind::InvalidData,
                    "implausible PE header offset: 0x"@ + hex_lower(le_nat(field(h, 0x3c, 4))),
                ),
            )
        } else {
            Ok(off as usize)
        }
    }
}

/// Finds the PE header offset in a DOS header.
pub fn pe_header_offset(dos_header: &[u8]) -> (r: Result<usize, ProbeError>)
    requires
        dos_header@.len() == 64,
    ensures
        result_view(r) == dos_pe_offset(dos_header@),
{
    if !(dos_header[0] == 0x4D && dos_header[1] == 0x5A) {
        return Err(error(ErrorKind::InvalidData, "main module does not start with an MZ header"));
    }
    let pe_offset = read_i32_from(dos_header, 0x3c);
    if !(0x40 <= pe_offset && pe_offset <= 0x10_0000) {
        let mut m = string_from("implausible PE header offset: 0x");
        let bits = read_u32_from(dos_header, 0x3c);
        push_hex_lower(&mut m, bits as u64);
        return Err(ProbeError { kind: ErrorKind::InvalidData, message: m });
    }
    Ok(pe_offset as usize)
}

/// Checks the four bytes at the PE header offset.
pub fn check_pe_signature(signature: &[u8]) -> (r: Result<(), ProbeError>)
    requires
        signature@.len() == 4,
    ensures
        match r {
            Ok(()) => signature@ == seq![0x50u8, 0x45u8, 0u8, 0u8],
            Err(e) => signature@ != seq![0x50u8, 0x45u8, 0u8, 0u8] && e@ == probe_error(
                ErrorKind::InvalidData,
                "PE signature is invalid"@,
            ),
        },
{
    if signature[0] == 0x50 && signature[1] == 0x45 && signature[2] == 0 && signature[3] == 0 {
        assert(signature@ =~= seq![0x50u8, 0x45u8, 0u8, 0u8]);
        Ok(())
    } else {
        Err(error(ErrorKind::InvalidData, "PE signature is invalid"))
    }
}

/// The section count and optional-header size from the 20-byte COFF file header.
pub open spec fn file_header_fields(fh: Seq<u8>) -> Result<(usize, usize), ProbeErrorModel> {
    let count = le_nat(field(fh, 2, 2));
    if count == 0 || count > 96 {
        Err(
            probe_error(
                ErrorKind::InvalidData,
                "implausible PE section count: "@ + decimal(count),
            ),
        )
    } else {
        Ok((count as usize, le_nat(field(fh, 16, 2)) as usize))
    }
}

/// Reads the section count and optional-header size, refusing an implausible count.
pub fn parse_file_header(fh: &[u8]) -> (r: Result<(usize, usize), ProbeError>)
    requires
        fh@.len() == 20,
    ensures
        result_view(r) == file_header_fields(fh@),
{
    let count = read_u16_from(fh, 2);
    let optional = read_u16_from(fh, 16);
    if count == 0 || count > 96 {
        let mut m = string_from("implausible PE section count: ");
        push_decimal(&mut m, count as u64);
        return Err(ProbeError { kind: ErrorKind::InvalidData, message: m });
    }
    Ok((count as usize, optional as usize))
}

/// Index of the first zero byte in `s[0..hi]`, or `hi` when there is none.
pub open spec fn first_zero(s: Seq<u8>, i: int, hi: int) -> int
    decreases hi - i,
{
    if i >= hi {
        hi
    } else if s[i] == 0 {
        i
    } else {
        first_zero(s, i + 1, hi)
    }
}

fn find_zero(b: &[u8], hi: usize) -> (r: usize)
    requires
        hi <= b@.len(),
    ensures
        r == first_zero(b@, 0, hi as int),
        r <= hi,
{
    let mut i: usize = 0;
    while i < hi && b[i] != 0
        invariant
            i <= hi <= b@.len(),
            first_zero(b@, 0, hi as int) == first_zero(b@, i as int, hi as int),
        decreases hi - i,
    {
        i += 1;
    }
    i
}

fn prefix_bytes(b: &[u8], n: usize) -> (out: Vec<u8>)
    requires
        n <= b@.len(),
    ensures
        out@ == b@.subrange(0, n as int),
{
    let mut out: Vec<u8> = Vec::new();
    let mut i: usize = 0;
    while i < n
        invariant
            i <= n <= b@.len(),
            out@ == b@.subrange(0, i as int),
        decreases n - i,
    {
        out.push(b[i]);
        i += 1;
        assert(out@ =~= b@.subrange(0, i as int));
    }
    out
}

/// The name of a section from its 40-byte header: the bytes before the first zero of the
/// first eight, decoded leniently.
pub open spec fn section_name(h: Seq<u8>) -> Seq<char> {
    utf8_lossy_text(h.subrange(0, first_zero(h, 0, 8)))
}

/// What a section header says when looking for `target`: `None` for another section, the
/// section when it is the one, or an error when its range does not fit the module.
pub open spec fn section_lookup(h: Seq<u8>, target: Seq<char>, base: usize, module_size: u32) -> Result<
    Option<PeSectionModel>,
    ProbeErrorModel,
> {
    let name = section_name(h);
    if name != target {
        Ok(None)
    } else {
        let virtual_size = le_nat(field(h, 8, 4));
        let virtual_address = le_nat(field(h, 12, 4));
        let raw_size = le_nat(field(h, 16, 4));
        let size = if virtual_size >= raw_size {
            virtual_size
        } else {
            raw_size
        };
        if size == 0 || virtual_address >= module_size || virtual_address + size > module_size {
            Err(
                probe_error(
                    ErrorKind::InvalidData,
                    "PE section "@ + name + " has an invalid virtual range"@,
                ),
            )
        } else {
            Ok(
                Some(
                    PeSectionModel {
                        name,
                        address: (base + virtual_address) as usize,
                        size: size as usize,
                    },
                ),
            )
        }
    }
}

/// A section lookup result with the section as a model.
pub open spec fn lookup_view(r: Result<Option<PeSection>, ProbeError>) -> Result<
    Option<PeSectionModel>,
    ProbeErrorModel,
> {
    match r {
        Ok(Some(s)) => Ok(Some(s@)),
        Ok(None) => Ok(None),
        Err(e) => Err(e@),
    }
}

/// Checks one section header for the section named `target`.
pub fn match_section(header: &[u8], target: &str, base: usize, module_size: u32) -> (r: Result<
    Option<PeSection>,
    ProbeError,
>)
    requires
        header@.len() == 40,
        base + module_size <= usize::MAX,
    ensures
        lookup_view(r) == section_lookup(header@, target@, base, module_size),
{
    let end = find_zero(header, 8);
    let raw = prefix_bytes(header, end);
    let name = utf8_lossy(raw.as_slice());
    if !str_eq(name.as_str(), target) {
        return Ok(None);
    }
    let virtual_size = read_u32_from(header, 8);
    let virtual_address = read_u32_from(header, 12);
    let raw_size = read_u32_from(header, 16);
    let size: u64 = if virtual_size >= raw_size {
        virtual_size as u64
    } else {
        raw_size as u64
    };
    if size == 0 || virtual_address >= module_size || virtual_address as u64 + size
        > module_size as u64 {
        let mut m = string_from("PE section ");
        push_str(&mut m, name.as_str());
        push_str(&mut m, " has an invalid virtual range");
        return Err(ProbeError { kind: ErrorKind::InvalidData, message: m });
    }
    Ok(
        Some(
            PeSection {
                name,
                address: base + virtual_address as usize,
                size: size as usize,
            },
        ),
    )
}

/// The error when no section header names `target`.
pub fn section_not_found(target: &str) -> (e: ProbeError)
    ensures
        e@ == probe_error(
            ErrorKind::NotFound,
            "PE section "@ + debug_quoted(target@) + " was not found"@,
        ),
{
    let mut m = string_from("PE section ");
    let q = debug_str(target);
    push_str(&mut m, q.as_str());
    push_str(&mut m, " was not found");
    ProbeError { kind: ErrorKind::NotFound, message: m }
}

/// Whether `pattern` matches `data` at `i`: every byte it fixes is there, `None` matches any.
pub open spec fn matches_at(data: Seq<u8>, pattern: Seq<Option<u8>>, i: int) -> bool {
    forall|j: int|
        0 <= j < pattern.len() ==> match #[trigger] pattern[j] {
            Some(b) => data[i + j] == b,
            None => true,
        }
}

/// Positions below `n` at which `pattern` matches `data`, in increasing order.
pub open spec fn match_positions(data: Seq<u8>, pattern: Seq<Option<u8>>, n: int) -> Seq<int>
    decreases n,
{
    if n <= 0 {
        Seq::empty()
    } else if matches_at(data, pattern, n - 1) {
        match_positions(data, pattern, n - 1).push(n - 1)
    } else {
        match_positions(data, pattern, n - 1)
    }
}

/// How many positions of a region of `len` bytes a pattern of `plen` bytes can start at.
pub open spec fn start_count(len: int, plen: int) -> int {
    if len >= plen {
        len - plen + 1
    } else {
        0
    }
}

/// The addresses at which `pattern` occurs in `data`, which starts at `base`.
pub open spec fn match_addresses(data: Seq<u8>, pattern: Seq<Option<u8>>, base: int) -> Seq<
    usize,
> {
    match_positions(data, pattern, start_count(data.len() as int, pattern.len() as int)).map_values(
        |p: int| (base + p) as usize,
    )
}

proof fn lemma_positions_agree(d1: Seq<u8>, d2: Seq<u8>, pat: Seq<Option<u8>>, c: int)
    requires
        c >= 0,
        d1.len() >= c + pat.len() - 1,
        d2.len() >= c + pat.len() - 1,
        forall|i: int| 0 <= i < c + pat.len() - 1 ==> d1[i] == d2[i],
    ensures
        match_positions(d1, pat, c) == match_positions(d2, pat, c),
    decreases c,
{
    if c > 0 {
        lemma_positions_agree(d1, d2, pat, c - 1);
        assert forall|j: int| 0 <= j < pat.len() implies #[trigger] d1[c - 1 + j] == d2[c - 1 + j] by {}
        assert(matches_at(d1, pat, c - 1) == matches_at(d2, pat, c - 1));
    }
}

proof fn lemma_scan_step(full: Seq<u8>, pat: Seq<Option<u8>>, start: int, c: int)
    requires
        c >= 0,
        pat.len() >= 1,
        full.len() >= c + pat.len(),
    ensures
        match_addresses(full.subrange(0, c + pat.len()), pat, start) == (if matches_at(
            full,
            pat,
            c,
        ) {
            match_addresses(full.subrange(0, c + pat.len() - 1), pat, start).push(
                (start + c) as usize,
            )
        } else {
            match_addresses(full.subrange(0, c + pat.len() - 1), pat, start)
        }),
{
    let a = full.subrange(0, c + pat.len() - 1);
    let b = full.subrange(0, c + pat.len());
    assert(start_count(b.len() as int, pat.len() as int) == c + 1);
    assert(start_count(a.len() as int, pat.len() as int) == c);
    lemma_positions_agree(b, a, pat, c);
    assert forall|j: int| 0 <= j < pat.len() implies #[trigger] b[c + j] == full[c + j] by {}
    assert(matches_at(b, pat, c) == matches_at(full, pat, c));
    let f = |p: int| (start + p) as usize;
    if matches_at(full, pat, c) {
        assert(match_positions(b, pat, c + 1) == match_positions(a, pat, c).push(c));
        assert(match_positions(a, pat, c).push(c).map_values(f) =~= match_positions(
            a,
            pat,
            c,
        ).map_values(f).push(f(c)));
    }
}

/// Decides `matches_at` for `data[i..]`.
pub fn pattern_matches(data: &[u8], i: usize, pattern: &[Option<u8>]) -> (b: bool)
    requires
        i + pattern@.len() <= data@.len(),
    ensures
        b == matches_at(data@, pattern@, i as int),
{
    let n = data.len();
    let mut j: usize = 0;
    while j < pattern.len()
        invariant
            n == data@.len(),
            j <= pattern@.len(),
            i + pattern@.len() <= data@.len(),
            forall|k: int|
                0 <= k < j ==> match #[trigger] pattern@[k] {
                    Some(b) => data@[i + k] == b,
                    None => true,
                },
        decreases pattern@.len() - j,
    {
        match pattern[j] {
            Some(b) => {
                if data[i + j] != b {
                    return false;
                }
            },
            None => {},
        }
        j += 1;
    }
    true
}

/// A signature scan over a region read in chunks. The bytes of the previous chunk that a match
/// may still need are kept, so a match that straddles two chunks is found once.
pub struct PatternScanner {
    pattern: Vec<Option<u8>>,
    start: usize,
    size: usize,
    offset: usize,
    overlap: Vec<u8>,
    matches: Vec<usize>,
    seen: Ghost<Seq<u8>>,
}

/// How a scan begins: at once with its result, or with a scanner to feed.
pub enum ScanStart {
    Done(Vec<usize>),
    Scan(PatternScanner),
}

impl PatternScanner {
    /// The bytes fed so far.
    pub closed spec fn seen(&self) -> Seq<u8> {
        self.seen@
    }

    pub closed spec fn pattern(&self) -> Seq<Option<u8>> {
        self.pattern@
    }

    pub closed spec fn start(&self) -> usize {
        self.start
    }

    pub closed spec fn size(&self) -> usize {
        self.size
    }

    /// The scanner's invariant.
    pub closed spec fn wf(&self) -> bool {
        let plen = self.pattern@.len() as int;
        let n = self.seen@.len() as int;
        let ol = if n < plen - 1 {
            n
        } else {
            plen - 1
        };
        &&& plen >= 1
        &&& self.start + self.size <= usize::MAX
        &&& self.offset == n
        &&& n <= self.size
        &&& self.overlap@ == self.seen@.subrange(n - ol, n)
        &&& self.matches@ == match_addresses(self.seen@, self.pattern@, self.start as int)
    }

    /// Whether every byte of the region has been fed.
    pub open spec fn complete(&self) -> bool {
        self.seen().len() == self.size()
    }

    /// The next chunk to read: its address and length, or `None` when the region is done.
    pub fn next_chunk(&self) -> (r: Option<(usize, usize)>)
        requires
            self.wf(),
        ensures
            match r {
                Some((address, len)) => !self.complete() && address == self.start()
                    + self.seen().len() && len == (if self.size() - self.seen().len()
                    < SCAN_CHUNK_SIZE {
                    self.size() - self.seen().len()
                } else {
                    SCAN_CHUNK_SIZE as int
                }),
                None => self.complete(),
            },
    {
        if self.offset >= self.size {
            return None;
        }
        let remaining = self.size - self.offset;
        let len = if remaining < SCAN_CHUNK_SIZE {
            remaining
        } else {
            SCAN_CHUNK_SIZE
        };
        Some((self.start + self.offset, len))
    }

    /// Scans the next chunk, which must be the bytes `next_chunk` asked for.
    pub fn feed(&mut self, chunk: &[u8])
        requires
            old(self).wf(),
            !old(self).complete(),
            chunk@.len() == (if old(self).size() - old(self).seen().len() < SCAN_CHUNK_SIZE {
                old(self).size() - old(self).seen().len()
            } else {
                SCAN_CHUNK_SIZE as int
            }),
        ensures
            final(self).wf(),
            final(self).seen() == old(self).seen() + chunk@,
            final(self).pattern() == old(self).pattern(),
            final(self).start() == old(self).start(),
            final(self).size() == old(self).size(),
    {
        let ghost old_seen = self.seen@;
        let ghost n = old_seen.len() as int;
        let ghost plen = self.pattern@.len() as int;
        let ghost new_seen = old_seen + chunk@;
        let ghost pat = self.pattern@;
        let ghost st = self.start as int;
        let ol = self.overlap.len();
        let mut data: Vec<u8> = Vec::new();
        data.extend_from_slice(self.overlap.as_slice());
        data.extend_from_slice(chunk);
        assert(data@ =~= new_seen.subrange(n - ol, new_seen.len() as int));
        let plen_exec = self.pattern.len();
        let data_base = self.start + self.offset - ol;
        let mut matches: Vec<usize> = Vec::new();
        std::mem::swap(&mut matches, &mut self.matches);
        assert(ol == (if n < plen - 1 {
            n
        } else {
            plen - 1
        }));
        assert(chunk@.len() > 0);
        if data.len() >= plen_exec {
            proof {
                if n >= plen - 1 {
                    assert(new_seen.subrange(0, n - ol + plen - 1) =~= old_seen);
                } else {
                    assert(match_addresses(new_seen.subrange(0, n - ol + plen - 1), pat, st)
                        =~= Seq::<usize>::empty());
                    assert(match_addresses(old_seen, pat, st) =~= Seq::<usize>::empty());
                }
            }
            let last = data.len() - plen_exec;
            let mut index: usize = 0;
            while index <= last
                invariant
                    0 <= index <= last + 1,
                    last + plen_exec == data@.len(),
                    plen_exec == plen,
                    plen == pat.len(),
                    plen >= 1,
                    data@.len() == ol + chunk@.len(),
                    pat == self.pattern@,
                    st == self.start,
                    new_seen.len() == n + chunk@.len(),
                    data@ == new_seen.subrange(n - ol, new_seen.len() as int),
                    data_base == self.start + n - ol,
                    self.start + self.size <= usize::MAX,
                    n + chunk@.len() <= self.size,
                    ol <= n,
                    matches@ == match_addresses(
                        new_seen.subrange(0, n - ol + index + plen - 1),
                        pat,
                        st,
                    ),
                decreases last + 1 - index,
            {
                let ghost c = n - ol + index;
                proof {
                    lemma_scan_step(new_seen, pat, st, c);
                    assert forall|j: int| 0 <= j < plen implies #[trigger] data@[index + j]
                        == new_seen[c + j] by {}
                    assert(matches_at(data@, pat, index as int) == matches_at(new_seen, pat, c));
                }
                if pattern_matches(data.as_slice(), index, self.pattern.as_slice()) {
                    matches.push(data_base + index);
                }
                index += 1;
            }
            assert(new_seen.subrange(0, n - ol + index + plen - 1) =~= new_seen);
        } else {
            proof {
                assert(match_addresses(new_seen, pat, st) =~= Seq::<usize>::empty());
                assert(match_addresses(old_seen, pat, st) =~= Seq::<usize>::empty());
            }
        }
        // keep the bytes a match may still need
        let keep = if plen_exec - 1 < data.len() {
            plen_exec - 1
        } else {
            data.len()
        };
        let mut overlap: Vec<u8> = Vec::new();
        let mut k = data.len() - keep;
        while k < data.len()
            invariant
                keep <= data@.len(),
                data@.len() - keep <= k <= data@.len(),
                overlap@ == data@.subrange(data@.len() - keep, k as int),
            decreases data@.len() - k,
        {
            overlap.push(data[k]);
            k += 1;
            assert(overlap@ =~= data@.subrange(data@.len() - keep, k as int));
        }
        assert(overlap@ =~= new_seen.subrange(
            new_seen.len() - keep,
            new_seen.len() as int,
        ));
        self.matches = matches;
        self.overlap = overlap;
        self.offset = self.offset + chunk.len();
        self.seen = Ghost(new_seen);
    }

    /// The addresses of every match in the region, in increasing order.
    pub fn finish(self) -> (matches: Vec<usize>)
        requires
            self.wf(),
            self.complete(),
        ensures
            matches@ == match_addresses(self.seen(), self.pattern(), self.start() as int),
    {
        self.matches
    }
}

/// Starts a scan of `size` bytes from `start` for `pattern`.
pub fn scan_pattern_start(start: usize, size: usize, pattern: Vec<Option<u8>>) -> (r: Result<
    ScanStart,
    ProbeError,
>)
    requires
        start + size <= usize::MAX,
    ensures
        match r {
            Err(e) => pattern@.len() == 0 && e@ == probe_error(
                ErrorKind::InvalidInput,
                "pattern must not be empty"@,
            ),
            Ok(ScanStart::Done(v)) => pattern@.len() > 0 && size < pattern@.len() && v@.len() == 0,
            Ok(ScanStart::Scan(s)) => pattern@.len() > 0 && size >= pattern@.len() && s.wf()
                && s.seen().len() == 0 && s.pattern() == pattern@ && s.start() == start
                && s.size() == size,
        },
{
    if pattern.len() == 0 {
        return Err(error(ErrorKind::InvalidInput, "pattern must not be empty"));
    }
    if size < pattern.len() {
        return Ok(ScanStart::Done(Vec::new()));
    }
    let scanner = PatternScanner {
        pattern,
        start,
        size,
        offset: 0,
        overlap: Vec::new(),
        matches: Vec::new(),
        seen: Ghost(Seq::empty()),
    };
    proof {
        assert(scanner.overlap@ =~= Seq::<u8>::empty().subrange(0, 0));
        assert(match_addresses(Seq::<u8>::empty(), scanner.pattern@, start as int) =~= Seq::<usize>::empty());
    }
    Ok(ScanStart::Scan(scanner))
}

/// A zero-terminated UTF-8 text in `bytes` (all of it when there is no zero), decoded leniently.
pub open spec fn utf8_z_text(bytes: Seq<u8>) -> Seq<char> {
    utf8_lossy_text(bytes.subrange(0, first_zero(bytes, 0, bytes.len() as int)))
}

/// Decodes a zero-terminated UTF-8 text.
pub fn read_utf8_z(bytes: &[u8]) -> (s: String)
    ensures
        s@ == utf8_z_text(bytes@),
{
    let end = find_zero(bytes, bytes.len());
    let raw = prefix_bytes(bytes, end);
    utf8_lossy(raw.as_slice())
}

/// Decodes little-endian UTF-16 bytes leniently.
pub fn utf16_bytes_lossy(bytes: &[u8]) -> (s: String)
    ensures
        s@ == utf16_lossy_text(crate::area::units_of(bytes@)),
{
    let units = crate::area::utf16_units(bytes);
    utf16_lossy(units.as_slice())
}

/// Decodes a zero-terminated UTF-16 buffer (all of it when there is no zero) leniently.
pub fn utf16_z_to_string(buffer: &[u16]) -> (s: String)
    ensures
        s@ == utf16_lossy_text(buffer@.subrange(0, crate::area::first_zero_unit(buffer@, 0))),
{
    let end = crate::area::find_zero_unit(buffer);
    let prefix = crate::area::unit_prefix(buffer, end);
    utf16_lossy(prefix.as_slice())
}

/// What the section search reads next.
#[derive(Debug, Clone, Copy, PartialEq, Eq, Structural)]
pub enum SectionStage {
    DosHeader,
    FileHeader,
    /// The section header with this index.
    SectionHeader(usize),
    Finished,
}

/// What the section search does next.
#[derive(Debug)]
pub enum SectionStep {
    /// Read this many bytes at this address and report them with `bytes_read`.
    ReadBytes(usize, usize),
    /// Finished: the section, or why it was not found.
    Done(Result<PeSection, ProbeError>),
}

pub enum SectionStepModel {
    ReadBytes(usize, usize),
    Done(Result<PeSectionModel, ProbeErrorModel>),
}

impl View for SectionStep {
    type V = SectionStepModel;

    open spec fn view(&self) -> SectionStepModel {
        match self {
            SectionStep::ReadBytes(a, n) => SectionStepModel::ReadBytes(*a, *n),
            SectionStep::Done(r) => SectionStepModel::Done(
                match r {
                    Ok(s) => Ok(s@),
                    Err(e) => Err(e@),
                },
            ),
        }
    }
}

/// The search for a named section of the main module's image: its DOS header gives the PE
/// header, whose file header gives the section table, whose headers are checked in order.
#[derive(Debug)]
pub struct SectionSearch {
    pub base: usize,
    pub module_size: u32,
    pub target: String,
    pub stage: SectionStage,
    pub pe_offset: usize,
    pub count: usize,
    pub table: usize,
}

pub struct SectionSearchModel {
    pub base: usize,
    pub module_size: u32,
    pub target: Seq<char>,
    pub stage: SectionStage,
    pub pe_offset: usize,
    pub count: usize,
    pub table: usize,
}

impl View for SectionSearch {
    type V = SectionSearchModel;

    open spec fn view(&self) -> SectionSearchModel {
        SectionSearchModel {
            base: self.base,
            module_size: self.module_size,
            target: self.target@,
            stage: self.stage,
            pe_offset: self.pe_offset,
            count: self.count,
            table: self.table,
        }
    }
}

impl SectionSearchModel {
    pub open spec fn wf(self) -> bool {
        &&& self.base + self.module_size <= usize::MAX
        &&& self.count <= 96
        &&& self.stage matches SectionStage::SectionHeader(i) ==> i < self.count
    }

    /// Where the section header with index `i` is.
    pub open spec fn header(self, i: usize) -> usize {
        wrap_add(self.table, (i * 40) as usize)
    }

    pub open spec fn finish(self, r: Result<PeSectionModel, ProbeErrorModel>) -> (SectionSearchModel, SectionStepModel) {
        (SectionSearchModel { stage: SectionStage::Finished, ..self }, SectionStepModel::Done(r))
    }

    pub open spec fn reading(self) -> bool {
        !(self.stage is Finished)
    }
}

/// The search after a read gave `b`.
pub open spec fn section_step(m: SectionSearchModel, b: Seq<u8>) -> (SectionSearchModel, SectionStepModel) {
    match m.stage {
        SectionStage::DosHeader => match dos_pe_offset(b) {
            Err(e) => m.finish(Err(e)),
            Ok(off) => (
                SectionSearchModel { stage: SectionStage::FileHeader, pe_offset: off, ..m },
                SectionStepModel::ReadBytes(wrap_add(wrap_add(m.base, off), 4), 20),
            ),
        },
        SectionStage::FileHeader => match file_header_fields(b) {
            Err(e) => m.finish(Err(e)),
            Ok((count, optional)) => {
                let table = wrap_add(wrap_add(wrap_add(m.base, m.pe_offset), 24), optional);
                (
                    SectionSearchModel {
                        stage: SectionStage::SectionHeader(0),
                        count,
                        table,
                        ..m
                    },
                    SectionStepModel::ReadBytes(table, 40),
                )
            },
        },
        SectionStage::SectionHeader(i) => match section_lookup(b, m.target, m.base, m.module_size) {
            Err(e) => m.finish(Err(e)),
            Ok(Some(sec)) => m.finish(Ok(sec)),
            Ok(None) => if i + 1 < m.count {
                (
                    SectionSearchModel { stage: SectionStage::SectionHeader((i + 1) as usize), ..m },
                    SectionStepModel::ReadBytes(m.header((i + 1) as usize), 40),
                )
            } else {
                m.finish(
                    Err(
                        probe_error(
                            ErrorKind::NotFound,
                            "PE section "@ + debug_quoted(m.target) + " was not found"@,
                        ),
                    ),
                )
            },
        },
        SectionStage::Finished => (m, SectionStepModel::ReadBytes(0, 0)),
    }
}

/// The number of bytes the search expects from its next read.
pub open spec fn expected_len(stage: SectionStage) -> int {
    match stage {
        SectionStage::DosHeader => 64,
        SectionStage::FileHeader => 20,
        SectionStage::SectionHeader(_) => 40,
        SectionStage::Finished => 0,
    }
}

impl SectionSearch {
    /// Starts looking for the section named `target` in the image loaded at `base` with
    /// `module_size` bytes.
    pub fn start(base: usize, module_size: u32, target: &str) -> (r: (SectionSearch, SectionStep))
        requires
            base + module_size <= usize::MAX,
        ensures
            r.0@ == (SectionSearchModel {
                base,
                module_size,
                target: target@,
                stage: SectionStage::DosHeader,
                pe_offset: 0,
                count: 0,
                table: 0,
            }),
            r.1@ == SectionStepModel::ReadBytes(base, 64),
            r.0@.wf(),
    {
        (
            SectionSearch {
                base,
                module_size,
                target: string_from(target),
                stage: SectionStage::DosHeader,
                pe_offset: 0,
                count: 0,
                table: 0,
            },
            SectionStep::ReadBytes(base, 64),
        )
    }

    fn finish(&mut self, r: Result<PeSection, ProbeError>) -> (s: SectionStep)
        ensures
            final(self)@ == (SectionSearchModel { stage: SectionStage::Finished, ..old(self)@ }),
            s@ == SectionStepModel::Done(
                match r {
                    Ok(x) => Ok(x@),
                    Err(e) => Err(e@),
                },
            ),
    {
        self.stage = SectionStage::Finished;
        SectionStep::Done(r)
    }

    /// The read asked for gave `bytes`, which must be as many as were asked for.
    pub fn bytes_read(&mut self, bytes: &[u8]) -> (s: SectionStep)
        requires
            old(self)@.wf(),
            old(self)@.reading(),
            bytes@.len() == expected_len(old(self)@.stage),
        ensures
            (final(self)@, s@) == section_step(old(self)@, bytes@),
            final(self)@.wf(),
            s@ matches SectionStepModel::ReadBytes(_, n) ==> final(self)@.reading() && n
                == expected_len(final(self)@.stage),
            s@ matches SectionStepModel::Done(_) ==> !final(self)@.reading(),
    {
        match self.stage {
            SectionStage::DosHeader => match pe_header_offset(bytes) {
                Err(e) => self.finish(Err(e)),
                Ok(off) => {
                    self.stage = SectionStage::FileHeader;
                    self.pe_offset = off;
                    SectionStep::ReadBytes(address(address(self.base, off), 4), 20)
                },
            },
            SectionStage::FileHeader => match parse_file_header(bytes) {
                Err(e) => self.finish(Err(e)),
                Ok((count, optional)) => {
                    let table = address(address(address(self.base, self.pe_offset), 24), optional);
                    self.stage = SectionStage::SectionHeader(0);
                    self.count = count;
                    self.table = table;
                    SectionStep::ReadBytes(table, 40)
                },
            },
            SectionStage::SectionHeader(i) => match match_section(
                bytes,
                self.target.as_str(),
                self.base,
                self.module_size,
            ) {
                Err(e) => self.finish(Err(e)),
                Ok(Some(sec)) => self.finish(Ok(sec)),
                Ok(None) => {
                    if i + 1 < self.count {
                        self.stage = SectionStage::SectionHeader(i + 1);
                        SectionStep::ReadBytes(address(self.table, (i + 1) * 40), 40)
                    } else {
                        let e = section_not_found(self.target.as_str());
                        self.finish(Err(e))
                    }
                },
            },
            SectionStage::Finished => SectionStep::ReadBytes(0, 0),
        }
    }
}

} // verus!
