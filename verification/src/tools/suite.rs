use vstd::prelude::*;
use vstd::string::*;

use super::args::{arg_views, SuiteConfig, SuiteOptions};
use super::text::{
    ascii_lower_seq, ascii_lowercase, lowercase, parse_unsigned, parsed_unsigned, to_lowercase,
    trim, trimmed,
};
use super::xml::{
    attr_view, opt_view, xml_event, xml_next_event, xml_reader, xml_trim_text, XmlCursor, XmlEvent,
    XmlEventView,
};
use crate::nes::{frames_counted, ran_frames, Nes};

verus! {

/// One test of a ROM test suite: the ROM file, the system it targets, how
/// many frames to run, the expected frame's hash and any recorded input.
#[derive(Debug, Clone)]
pub struct SuiteTest {
    pub filename: String,
    pub system: String,
    pub runframes: u32,
    pub tvsha1: String,
    pub recordedinput: String,
}

/// A suite test over its texts' characters.
pub struct SuiteEntry {
    pub filename: Seq<char>,
    pub system: Seq<char>,
    pub runframes: nat,
    pub tvsha1: Seq<char>,
    pub recordedinput: Seq<char>,
}

impl View for SuiteTest {
    type V = SuiteEntry;

    open spec fn view(&self) -> SuiteEntry {
        SuiteEntry {
            filename: self.filename@,
            system: self.system@,
            runframes: self.runframes as nat,
            tvsha1: self.tvsha1@,
            recordedinput: self.recordedinput@,
        }
    }
}

/// Whether `needle` occurs in `hay`.
pub open spec fn has_infix(hay: Seq<char>, needle: Seq<char>) -> bool {
    exists|i: int|
        0 <= i && i + needle.len() <= hay.len() && #[trigger] hay.subrange(i, i + needle.len())
            == needle
}

/// Whether the text `needle` occurs in `hay`.
pub fn contains_text(hay: &str, needle: &str) -> (r: bool)
    ensures
        r == has_infix(hay@, needle@),
{
    let h = hay.unicode_len();
    let n = needle.unicode_len();
    if n > h {
        return false;
    }
    let mut i: usize = 0;
    while i <= h - n
        invariant
            h == hay@.len(),
            n == needle@.len(),
            n <= h,
            i <= h - n + 1,
            forall|k: int| 0 <= k < i ==> #[trigger] hay@.subrange(k, k + n) != needle@,
        decreases h - i,
    {
        let mut j: usize = 0;
        let mut same = true;
        while j < n
            invariant
                h == hay@.len(),
                n == needle@.len(),
                i + n <= h,
                j <= n,
                same == forall|m: int| 0 <= m < j ==> hay@[i + m] == needle@[m],
            decreases n - j,
        {
            if hay.get_char(i + j) != needle.get_char(j) {
                same = false;
            }
            j = j + 1;
        }
        if same {
            assert(hay@.subrange(i as int, i + n) =~= needle@);
            return true;
        }
        assert(hay@.subrange(i as int, i + n) != needle@) by {
            let k = choose|m: int| 0 <= m < n && hay@[i + m] != needle@[m];
            assert(hay@.subrange(i as int, i + n)[k] != needle@[k]);
        }
        i = i + 1;
    }
    assert forall|k: int| 0 <= k && k + n <= h implies #[trigger] hay@.subrange(k, k + n)
        != needle@ by {
        assert(k < i);
    }
    false
}

/// Whether `s` begins with `prefix`.
pub open spec fn has_prefix(s: Seq<char>, prefix: Seq<char>) -> bool {
    prefix.len() <= s.len() && s.subrange(0, prefix.len() as int) == prefix
}

pub fn starts_with_text(s: &str, prefix: &str) -> (r: bool)
    ensures
        r == has_prefix(s@, prefix@),
{
    let n = prefix.unicode_len();
    if n > s.unicode_len() {
        return false;
    }
    let mut j: usize = 0;
    while j < n
        invariant
            n == prefix@.len(),
            n <= s@.len(),
            j <= n,
            forall|m: int| 0 <= m < j ==> s@[m] == prefix@[m],
        decreases n - j,
    {
        if s.get_char(j) != prefix.get_char(j) {
            assert(s@.subrange(0, n as int)[j as int] != prefix@[j as int]);
            return false;
        }
        j = j + 1;
    }
    assert(s@.subrange(0, n as int) =~= prefix@);
    true
}

/// Whether the runner takes a test: PAL tests only when asked, tests that
/// replay recorded input only when asked, and, if filename filters were
/// given, only tests whose lowered filename contains one of them.
pub open spec fn runs_test(t: SuiteEntry, cfg: SuiteOptions) -> bool {
    &&& !(!cfg.include_pal && ascii_lower_seq(t.system) == ascii_lower_seq("pal"@))
    &&& !(!cfg.include_recorded_input && t.recordedinput.len() != 0)
    &&& (cfg.contains.len() == 0 || exists|k: int|
        0 <= k < cfg.contains.len() && has_infix(lowercase(t.filename), #[trigger] cfg.contains[k]))
}

pub fn should_run(test: &SuiteTest, cfg: &SuiteConfig) -> (r: bool)
    ensures
        r == runs_test(test@, cfg@),
{
    if !cfg.include_pal && ascii_lowercase(test.system.as_str()) == ascii_lowercase("pal") {
        return false;
    }
    if !cfg.include_recorded_input && test.recordedinput.unicode_len() != 0 {
        return false;
    }
    if cfg.contains.len() == 0 {
        return true;
    }
    let lower = to_lowercase(test.filename.as_str());
    let mut k: usize = 0;
    while k < cfg.contains.len()
        invariant
            k <= cfg.contains.len(),
            lower@ == lowercase(test.filename@),
            !(!cfg.include_pal && ascii_lower_seq(test.system@) == ascii_lower_seq("pal"@)),
            !(!cfg.include_recorded_input && test.recordedinput@.len() != 0),
            forall|m: int| 0 <= m < k ==> !has_infix(lower@, #[trigger] arg_views(cfg.contains@)[m]),
        decreases cfg.contains.len() - k,
    {
        if contains_text(lower.as_str(), cfg.contains[k].as_str()) {
            assert(arg_views(cfg.contains@)[k as int] == cfg.contains@[k as int]@);
            return true;
        }
        assert(arg_views(cfg.contains@)[k as int] == cfg.contains@[k as int]@);
        k = k + 1;
    }
    false
}

/// The test ROMs that report their result in RAM: the VBL/NMI timing ROMs
/// pass when $00F8 holds 1.
pub open spec fn suite_result_passes(filename: Seq<char>, ram_f8: u8) -> bool {
    has_prefix(filename, "vbl_nmi_timing/"@) && ram_f8 == 1
}

pub fn suite_result_pass(test: &SuiteTest, hashes: &RunHashes) -> (r: bool)
    ensures
        r == suite_result_passes(test.filename@, hashes.ram_f8),
{
    starts_with_text(test.filename.as_str(), "vbl_nmi_timing/") && hashes.ram_f8 == 0x01
}

/// Whether two texts are the same characters.
pub fn same_text(a: &str, b: &str) -> (r: bool)
    ensures
        r == (a@ == b@),
{
    let n = a.unicode_len();
    if n != b.unicode_len() {
        return false;
    }
    let mut i: usize = 0;
    while i < n
        invariant
            n == a@.len(),
            n == b@.len(),
            i <= n,
            forall|k: int| 0 <= k < i ==> a@[k] == b@[k],
        decreases n - i,
    {
        if a.get_char(i) != b.get_char(i) {
            return false;
        }
        i = i + 1;
    }
    assert(a@ =~= b@);
    true
}

/// How a run matched its test: one of the four byte orders of the frame
/// hash, or the result the ROM reported in RAM.
#[derive(Debug, Clone, Copy, PartialEq, Eq)]
pub enum MatchOrder {
    Rgba,
    Rgb,
    Argb,
    Bgra,
    SuiteResult,
}

impl MatchOrder {
    /// The name the runner prints.
    pub fn label(&self) -> (r: &'static str)
        ensures
            r@ == match *self {
                MatchOrder::Rgba => "rgba"@,
                MatchOrder::Rgb => "rgb"@,
                MatchOrder::Argb => "argb"@,
                MatchOrder::Bgra => "bgra"@,
                MatchOrder::SuiteResult => "suite-result"@,
            },
    {
        match self {
            MatchOrder::Rgba => "rgba",
            MatchOrder::Rgb => "rgb",
            MatchOrder::Argb => "argb",
            MatchOrder::Bgra => "bgra",
            MatchOrder::SuiteResult => "suite-result",
        }
    }
}

/// The first way the run matches the expected hash, in the order RGBA,
/// RGB, ARGB, BGRA, then the ROM's own reported result; none if it fails.
pub open spec fn matched_order_spec(tv: Seq<char>, filename: Seq<char>, h: RunHashes) -> Option<MatchOrder> {
    if h.rgba@ == tv {
        Some(MatchOrder::Rgba)
    } else if h.rgb@ == tv {
        Some(MatchOrder::Rgb)
    } else if h.argb@ == tv {
        Some(MatchOrder::Argb)
    } else if h.bgra@ == tv {
        Some(MatchOrder::Bgra)
    } else if suite_result_passes(filename, h.ram_f8) {
        Some(MatchOrder::SuiteResult)
    } else {
        None
    }
}

/// How a run matched its test, if it did.
pub fn matched_order(test: &SuiteTest, hashes: &RunHashes) -> (r: Option<MatchOrder>)
    ensures
        r == matched_order_spec(test.tvsha1@, test.filename@, *hashes),
{
    if same_text(hashes.rgba.as_str(), test.tvsha1.as_str()) {
        Some(MatchOrder::Rgba)
    } else if same_text(hashes.rgb.as_str(), test.tvsha1.as_str()) {
        Some(MatchOrder::Rgb)
    } else if same_text(hashes.argb.as_str(), test.tvsha1.as_str()) {
        Some(MatchOrder::Argb)
    } else if same_text(hashes.bgra.as_str(), test.tvsha1.as_str()) {
        Some(MatchOrder::Bgra)
    } else if suite_result_pass(test, hashes) {
        Some(MatchOrder::SuiteResult)
    } else {
        None
    }
}

/// The tests a run takes: those the options let run, in order, at most
/// `max_tests` of them.
pub open spec fn selected_tests(tests: Seq<SuiteEntry>, cfg: SuiteOptions) -> Seq<SuiteEntry> {
    let f = tests.filter(|t: SuiteEntry| runs_test(t, cfg));
    if f.len() <= cfg.max_tests {
        f
    } else {
        f.take(cfg.max_tests as int)
    }
}

/// Picks the tests to run from a suite.
pub fn select_tests(tests: Vec<SuiteTest>, cfg: &SuiteConfig) -> (r: Vec<SuiteTest>)
    ensures
        entries(r@) == selected_tests(entries(tests@), cfg@),
{
    let ghost all = entries(tests@);
    let ghost pred = |t: SuiteEntry| runs_test(t, cfg@);
    let mut rest = tests;
    let mut out: Vec<SuiteTest> = Vec::new();
    let ghost mut k: int = 0;
    proof {
        reveal_with_fuel(Seq::filter, 1);
        assert(all.take(0) =~= Seq::<SuiteEntry>::empty());
        assert(entries(out@) =~= all.take(0).filter(pred));
        assert(entries(rest@) =~= all.skip(0));
    }
    while rest.len() > 0 && out.len() < cfg.max_tests
        invariant
            0 <= k <= all.len(),
            all == entries(tests@),
            pred == (|t: SuiteEntry| runs_test(t, cfg@)),
            entries(rest@) == all.skip(k),
            entries(out@) == all.take(k).filter(pred),
            out@.len() <= cfg.max_tests,
        decreases rest.len(),
    {
        let ghost rest_before = rest@;
        let t = rest.remove(0);
        proof {
            assert(entries(rest_before).len() == all.len() - k);
            assert(entries(rest_before)[0] == all.skip(k)[0]);
            assert(t@ == all[k]);
            assert(all.take(k + 1).drop_last() =~= all.take(k));
            assert(all.take(k + 1).last() == all[k]);
            reveal_with_fuel(Seq::filter, 1);
        }
        if should_run(&t, cfg) {
            let ghost before = entries(out@);
            out.push(t);
            proof {
                assert(entries(out@) =~= before.push(t@));
            }
        }
        proof {
            assert(rest@ =~= rest_before.subrange(1, rest_before.len() as int));
            assert forall|j: int| 0 <= j < entries(rest@).len() implies entries(rest@)[j] == all.skip(
                k + 1,
            )[j] by {
                assert(entries(rest_before)[j + 1] == all.skip(k)[j + 1]);
            }
            assert(entries(rest@) =~= all.skip(k + 1));
            k = k + 1;
        }
    }
    proof {
        all.filter_lemma(pred);
        assert(all.take(k) + all.skip(k) =~= all);
        Seq::filter_distributes_over_add(all.take(k), all.skip(k), pred);
        let f = all.filter(pred);
        if rest@.len() == 0 {
            assert(all.skip(k) =~= Seq::<SuiteEntry>::empty());
            assert(all.take(k) =~= all);
        } else {
            assert(f =~= all.take(k).filter(pred) + all.skip(k).filter(pred));
            assert(f.take(cfg.max_tests as int) =~= all.take(k).filter(pred));
        }
    }
    out
}

/// The SHA-1 digest of a byte string (20 bytes).
pub uninterp spec fn sha1_of(data: Seq<u8>) -> Seq<u8>;

/// `Sha1::digest` from the `sha1` crate: its result is named `sha1_of`; it
/// is 20 bytes long.
#[verifier::external_body]
fn sha1_digest(data: &[u8]) -> (r: Vec<u8>)
    ensures
        r@ == sha1_of(data@),
        r@.len() == 20,
{
    <sha1::Sha1 as sha1::Digest>::digest(data).to_vec()
}

/// The character of a six-bit group in the standard base64 alphabet.
pub open spec fn base64_char(v: int) -> char {
    if v < 26 {
        ('A' as int + v) as char
    } else if v < 52 {
        ('a' as int + v - 26) as char
    } else if v < 62 {
        ('0' as int + v - 52) as char
    } else if v == 62 {
        '+'
    } else {
        '/'
    }
}

/// Standard base64 with padding (RFC 4648, section 4): each three bytes
/// become four characters; a last group of one or two bytes is padded with
/// `=`.
pub open spec fn base64_of(b: Seq<u8>) -> Seq<char>
    decreases b.len(),
{
    if b.len() == 0 {
        Seq::empty()
    } else if b.len() == 1 {
        let n = b[0] as int;
        seq![base64_char(n / 4), base64_char((n % 4) * 16), '=', '=']
    } else if b.len() == 2 {
        let n = b[0] as int * 256 + b[1] as int;
        seq![base64_char(n / 1024), base64_char((n / 16) % 64), base64_char((n % 16) * 4), '=']
    } else {
        let n = b[0] as int * 65536 + b[1] as int * 256 + b[2] as int;
        seq![
            base64_char(n / 262144),
            base64_char((n / 4096) % 64),
            base64_char((n / 64) % 64),
            base64_char(n % 64),
        ] + base64_of(b.subrange(3, b.len() as int))
    }
}

/// `Engine::encode` of the `base64` crate's `STANDARD` engine: the standard
/// alphabet with padding.
#[verifier::external_body]
fn base64_encode(bytes: &[u8]) -> (r: String)
    ensures
        r@ == base64_of(bytes@),
{
    <base64::engine::GeneralPurpose as base64::Engine>::encode(
        &base64::engine::general_purpose::STANDARD,
        bytes,
    )
}

/// The hash a suite file records for a frame: base64 of its SHA-1.
pub open spec fn frame_hash(bytes: Seq<u8>) -> Seq<char> {
    base64_of(sha1_of(bytes))
}

/// Each RGBA pixel's bytes reordered by `order` (which source byte goes to
/// each of the four places), or cut to RGB when `rgb_only`.
pub open spec fn reordered(frame: Seq<u8>, order: (int, int, int, int), rgb_only: bool) -> Seq<u8> {
    let width: int = if rgb_only {
        3
    } else {
        4
    };
    Seq::new(
        ((frame.len() / 4) * width) as nat,
        |i: int|
            {
                let p = i / width;
                let k = i % width;
                frame[p * 4 + if k == 0 {
                    order.0
                } else if k == 1 {
                    order.1
                } else if k == 2 {
                    order.2
                } else {
                    order.3
                }]
            },
    )
}

fn reorder_pixels(frame: &[u8], o0: usize, o1: usize, o2: usize, o3: usize, rgb_only: bool) -> (r: Vec<u8>)
    requires
        o0 < 4 && o1 < 4 && o2 < 4 && o3 < 4,
        frame@.len() <= 0x1000_0000,
    ensures
        r@ == reordered(frame@, (o0 as int, o1 as int, o2 as int, o3 as int), rgb_only),
{
    let width: usize = if rgb_only {
        3
    } else {
        4
    };
    let pixels = frame.len() / 4;
    let mut out: Vec<u8> = Vec::new();
    let mut p: usize = 0;
    while p < pixels
        invariant
            pixels == frame@.len() / 4,
            frame@.len() <= 0x1000_0000,
            o0 < 4 && o1 < 4 && o2 < 4 && o3 < 4,
            width == if rgb_only {
                3usize
            } else {
                4usize
            },
            p <= pixels,
            out@.len() == p * width,
            forall|i: int|
                0 <= i < p * width ==> #[trigger] out@[i] == reordered(
                    frame@,
                    (o0 as int, o1 as int, o2 as int, o3 as int),
                    rgb_only,
                )[i],
        decreases pixels - p,
    {
        let base = p * 4;
        let ghost before = out@;
        out.push(frame[base + o0]);
        out.push(frame[base + o1]);
        out.push(frame[base + o2]);
        if !rgb_only {
            out.push(frame[base + o3]);
        }
        proof {
            let target = reordered(frame@, (o0 as int, o1 as int, o2 as int, o3 as int), rgb_only);
            assert forall|i: int| 0 <= i < (p + 1) * width implies #[trigger] out@[i] == target[i] by {
                if i >= p * width {
                    let k = i - p * width;
                    assert(i / (width as int) == p as int && i % (width as int) == k) by (nonlinear_arith)
                        requires
                            i == p * width + k,
                            0 <= k < width,
                            width == 3 || width == 4,
                    ;
                } else {
                    assert(out@[i] == before[i]);
                }
            }
        }
        p = p + 1;
    }
    proof {
        assert((frame@.len() / 4) * width == pixels * width);
        assert(out@ =~= reordered(frame@, (o0 as int, o1 as int, o2 as int, o3 as int), rgb_only));
    }
    out
}

/// The frame's hash as RGBA bytes.
pub fn hash_frame_rgba(frame: &[u8]) -> (r: String)
    ensures
        r@ == frame_hash(frame@),
{
    let digest = sha1_digest(frame);
    base64_encode(digest.as_slice())
}

/// The frame's hash as RGB bytes.
pub fn hash_frame_rgb(frame: &[u8]) -> (r: String)
    requires
        frame@.len() <= 0x1000_0000,
    ensures
        r@ == frame_hash(reordered(frame@, (0, 1, 2, 3), true)),
{
    let rgb = reorder_pixels(frame, 0, 1, 2, 3, true);
    let digest = sha1_digest(rgb.as_slice());
    base64_encode(digest.as_slice())
}

/// The frame's hash as ARGB bytes.
pub fn hash_frame_argb(frame: &[u8]) -> (r: String)
    requires
        frame@.len() <= 0x1000_0000,
    ensures
        r@ == frame_hash(reordered(frame@, (3, 0, 1, 2), false)),
{
    let argb = reorder_pixels(frame, 3, 0, 1, 2, false);
    let digest = sha1_digest(argb.as_slice());
    base64_encode(digest.as_slice())
}

/// The frame's hash as BGRA bytes.
pub fn hash_frame_bgra(frame: &[u8]) -> (r: String)
    requires
        frame@.len() <= 0x1000_0000,
    ensures
        r@ == frame_hash(reordered(frame@, (2, 1, 0, 3), false)),
{
    let bgra = reorder_pixels(frame, 2, 1, 0, 3, false);
    let digest = sha1_digest(bgra.as_slice());
    base64_encode(digest.as_slice())
}

/// What a suite run leaves to compare and report: the frame's hash in four
/// byte orders, and CPU, PPU, RAM, nametable, palette and pattern values.
#[derive(Debug, Clone)]
pub struct RunHashes {
    pub rgba: String,
    pub rgb: String,
    pub argb: String,
    pub bgra: String,
    pub pc: u16,
    pub halted: bool,
    pub total_cycles: u64,
    pub ppu_ctrl: u8,
    pub ppu_mask: u8,
    pub ppu_status: u8,
    pub ppu_scanline: i16,
    pub ppu_cycle: i16,
    pub nmi_serviced: u64,
    pub ram_f8: u8,
    pub ram_0a: u8,
    pub unknown_count: u64,
    pub last_unknown_opcode: u8,
    pub last_unknown_pc: u16,
    pub mask_write_count: u64,
    pub last_mask_write: u8,
    pub vram_2000: u8,
    pub vram_2001: u8,
    pub vram_23c0: u8,
    pub pal_00: u8,
    pub pal_01: u8,
    pub chr_0200: u8,
    pub chr_0201: u8,
    pub vram_2082: u8,
    pub vram_2083: u8,
    pub vram_2084: u8,
    pub vram_non_space_count: usize,
}

/// How many of the first `n` nametable bytes are not the space tile ($20).
pub open spec fn non_space_count(vram: Seq<u8>, n: nat) -> nat
    decreases n,
{
    if n == 0 {
        0
    } else {
        non_space_count(vram, (n - 1) as nat) + if vram[n - 1] != 0x20 {
            1nat
        } else {
            0nat
        }
    }
}

/// `x` capped at the largest `u32`.
pub open spec fn saturated(x: int) -> int {
    if x > u32::MAX {
        u32::MAX as int
    } else {
        x
    }
}

/// The frames a suite test runs for: its own count times the multiplier,
/// plus the extra frames, each step saturating at the largest `u32`.
pub open spec fn suite_frames(runframes: u32, multiplier: u32, extra: u32) -> int {
    saturated(saturated(runframes * multiplier) + extra)
}

pub fn suite_frame_count(runframes: u32, multiplier: u32, extra: u32) -> (r: u32)
    ensures
        r == suite_frames(runframes, multiplier, extra),
{
    proof {
        assert((runframes as int) * (multiplier as int) <= 0xFFFF_FFFF * 0xFFFF_FFFF)
            by (nonlinear_arith)
            requires
                runframes <= 0xFFFF_FFFF,
                multiplier <= 0xFFFF_FFFF,
        ;
    }
    let product = (runframes as u64) * (multiplier as u64);
    let scaled: u64 = if product > u32::MAX as u64 {
        u32::MAX as u64
    } else {
        product
    };
    let total = scaled + extra as u64;
    if total > u32::MAX as u64 {
        u32::MAX
    } else {
        total as u32
    }
}

/// Runs a loaded console for the test's frames and collects what the suite
/// runner compares and reports.
pub fn run_suite_rom(nes: &mut Nes, test: &SuiteTest, cfg: &SuiteConfig) -> (r: RunHashes)
    requires
        old(nes).wf(),
    ensures
        final(nes).wf(),
        old(nes).board_frame(&*final(nes)),
        ran_frames(
            *old(nes),
            *final(nes),
            suite_frames(test.runframes, cfg.frame_multiplier, cfg.extra_frames) as nat,
        ),
        r.rgba@ == frame_hash(final(nes).ppu.frame_buffer@),
        r.rgb@ == frame_hash(reordered(final(nes).ppu.frame_buffer@, (0, 1, 2, 3), true)),
        r.argb@ == frame_hash(reordered(final(nes).ppu.frame_buffer@, (3, 0, 1, 2), false)),
        r.bgra@ == frame_hash(reordered(final(nes).ppu.frame_buffer@, (2, 1, 0, 3), false)),
        r.pc == final(nes).cpu.pc,
        r.halted == final(nes).halted,
        r.total_cycles == final(nes).total_cycles,
        r.ppu_ctrl == final(nes).ppu.regs.ctrl,
        r.ppu_mask == final(nes).ppu.regs.mask,
        r.ppu_status == final(nes).ppu.regs.status,
        r.ppu_scanline == final(nes).ppu.timing.scanline,
        r.ppu_cycle == final(nes).ppu.timing.cycle,
        r.nmi_serviced == final(nes).nmi_serviced_count,
        r.ram_f8 == final(nes).ram[0xF8],
        r.ram_0a == final(nes).ram[0x0A],
        r.unknown_count == final(nes).unknown_opcode_count,
        r.last_unknown_opcode == final(nes).last_unknown_opcode,
        r.last_unknown_pc == final(nes).last_unknown_pc,
        r.mask_write_count == final(nes).ppu.regs.debug_mask_write_count,
        r.last_mask_write == final(nes).ppu.regs.debug_last_mask_value,
        r.vram_2000 == final(nes).ppu.vram[0],
        r.vram_2001 == final(nes).ppu.vram[1],
        r.vram_23c0 == final(nes).ppu.vram[0x3C0],
        r.pal_00 == final(nes).ppu.palette_ram[0],
        r.pal_01 == final(nes).ppu.palette_ram[1],
        r.vram_2082 == final(nes).ppu.vram[0x82],
        r.vram_2083 == final(nes).ppu.vram[0x83],
        r.vram_2084 == final(nes).ppu.vram[0x84],
        r.vram_non_space_count == non_space_count(final(nes).ppu.vram@, 960),
{
    let total_frames = suite_frame_count(test.runframes, cfg.frame_multiplier, cfg.extra_frames);
    let mut frame: u32 = 0;
    let ghost mut k: nat = 0;
    while frame < total_frames
        invariant
            nes.wf(),
            old(nes).board_frame(&*nes),
            frame <= total_frames,
            k <= frame,
            frames_counted(old(nes).debug.frame_count, nes.debug.frame_count, k),
            old(nes).mapper is Some ==> (k == frame || nes.halted),
        decreases total_frames - frame,
    {
        let ghost was_halted = nes.halted;
        nes.run_frame();
        proof {
            if old(nes).mapper is Some && !was_halted {
                k = k + 1;
            }
        }
        frame = frame + 1;
    }
    proof {
        if old(nes).mapper is Some {
            assert(frames_counted(old(nes).debug.frame_count, nes.debug.frame_count, k));
        }
    }
    let mut count: usize = 0;
    let mut i: usize = 0;
    while i < 960
        invariant
            i <= 960,
            count == non_space_count(nes.ppu.vram@, i as nat),
            count <= i,
        decreases 960 - i,
    {
        if nes.debug_peek_vram(i) != 0x20 {
            count = count + 1;
        }
        i = i + 1;
    }
    let frame_bytes = nes.frame_buffer();
    let (ppu_ctrl, ppu_mask, ppu_status) = nes.debug_ppu_regs();
    let (ppu_scanline, ppu_cycle) = nes.debug_ppu_scanline_cycle();
    let (mask_write_count, last_mask_write) = nes.debug_ppu_mask_writes();
    let (last_unknown_opcode, last_unknown_pc) = nes.debug_last_unknown_opcode();
    RunHashes {
        rgba: hash_frame_rgba(frame_bytes),
        rgb: hash_frame_rgb(frame_bytes),
        argb: hash_frame_argb(frame_bytes),
        bgra: hash_frame_bgra(frame_bytes),
        pc: nes.debug_pc(),
        halted: nes.debug_halted(),
        total_cycles: nes.debug_total_cycles(),
        ppu_ctrl,
        ppu_mask,
        ppu_status,
        ppu_scanline,
        ppu_cycle,
        nmi_serviced: nes.debug_nmi_serviced_count(),
        ram_f8: nes.debug_peek_internal_ram(0x00F8),
        ram_0a: nes.debug_peek_internal_ram(0x000A),
        unknown_count: nes.debug_unknown_opcode_count(),
        last_unknown_opcode,
        last_unknown_pc,
        mask_write_count,
        last_mask_write,
        vram_2000: nes.debug_peek_vram(0),
        vram_2001: nes.debug_peek_vram(1),
        vram_23c0: nes.debug_peek_vram(0x03C0),
        pal_00: nes.debug_peek_palette(0),
        pal_01: nes.debug_peek_palette(1),
        chr_0200: nes.debug_peek_chr(0x0200),
        chr_0201: nes.debug_peek_chr(0x0201),
        vram_2082: nes.debug_peek_vram(0x0082),
        vram_2083: nes.debug_peek_vram(0x0083),
        vram_2084: nes.debug_peek_vram(0x0084),
        vram_non_space_count: count,
    }
}

/// Whether a name's bytes spell `text`.
fn name_is(name: &Vec<u8>, text: &str) -> (r: bool)
    ensures
        r == (name@ == text.spec_bytes()),
{
    let t = text.as_bytes();
    if name.len() != t.len() {
        return false;
    }
    let mut i: usize = 0;
    while i < t.len()
        invariant
            t@ == text.spec_bytes(),
            name@.len() == t@.len(),
            i <= t.len(),
            forall|k: int| 0 <= k < i ==> name@[k] == t@[k],
        decreases t.len() - i,
    {
        if name[i] != t[i] {
            return false;
        }
        i = i + 1;
    }
    assert(name@ =~= t@);
    true
}

/// Where the suite reader is: the tests so far, the test being read, and
/// whether it is inside a `tvsha1` or a `recordedinput` element.
pub struct SuiteParse {
    pub tests: Seq<SuiteEntry>,
    pub current: Option<SuiteEntry>,
    pub reading_tvsha1: bool,
    pub reading_recorded: bool,
}

pub open spec fn empty_entry() -> SuiteEntry {
    SuiteEntry {
        filename: Seq::empty(),
        system: Seq::empty(),
        runframes: 0,
        tvsha1: Seq::empty(),
        recordedinput: Seq::empty(),
    }
}

/// A test entry from the `test` tag's attributes: `filename`, `system` and
/// `runframes` (0 unless it is a valid number); attributes that could not
/// be read are skipped, undecodable values read as empty.
pub open spec fn entry_from_attrs(attrs: Seq<Option<(Seq<u8>, Option<Seq<char>>)>>) -> SuiteEntry
    decreases attrs.len(),
{
    if attrs.len() == 0 {
        empty_entry()
    } else {
        let e = entry_from_attrs(attrs.drop_last());
        match attrs.last() {
            Some((key, value)) => {
                let v = match value {
                    Some(t) => t,
                    None => Seq::<char>::empty(),
                };
                if key == "filename".spec_bytes() {
                    SuiteEntry { filename: v, ..e }
                } else if key == "system".spec_bytes() {
                    SuiteEntry { system: v, ..e }
                } else if key == "runframes".spec_bytes() {
                    SuiteEntry {
                        runframes: match parsed_unsigned(v, u32::MAX as nat) {
                            Some(n) => n,
                            None => 0,
                        },
                        ..e
                    }
                } else {
                    e
                }
            },
            None => e,
        }
    }
}

/// The suite reader after one event (other than the end or an error).
pub open spec fn suite_step(s: SuiteParse, ev: XmlEventView) -> SuiteParse {
    match ev {
        XmlEventView::Start(name, attrs) => if name == "test".spec_bytes() {
            SuiteParse { current: Some(entry_from_attrs(attrs)), ..s }
        } else if name == "tvsha1".spec_bytes() {
            SuiteParse { reading_tvsha1: true, ..s }
        } else if name == "recordedinput".spec_bytes() {
            SuiteParse { reading_recorded: true, ..s }
        } else {
            s
        },
        XmlEventView::Text(t) => {
            let text = match t {
                Some(x) => x,
                None => Seq::<char>::empty(),
            };
            match s.current {
                Some(c) => if s.reading_tvsha1 {
                    SuiteParse { current: Some(SuiteEntry { tvsha1: c.tvsha1 + text, ..c }), ..s }
                } else if s.reading_recorded {
                    SuiteParse {
                        current: Some(SuiteEntry { recordedinput: c.recordedinput + text, ..c }),
                        ..s
                    }
                } else {
                    s
                },
                None => s,
            }
        },
        XmlEventView::End(name) => if name == "tvsha1".spec_bytes() {
            SuiteParse { reading_tvsha1: false, ..s }
        } else if name == "recordedinput".spec_bytes() {
            SuiteParse { reading_recorded: false, ..s }
        } else if name == "test".spec_bytes() {
            match s.current {
                Some(c) => SuiteParse {
                    tests: s.tests.push(
                        SuiteEntry {
                            tvsha1: trimmed(c.tvsha1),
                            recordedinput: trimmed(c.recordedinput),
                            ..c
                        },
                    ),
                    current: None,
                    ..s
                },
                None => s,
            }
        } else {
            s
        },
        _ => s,
    }
}

pub open spec fn suite_start() -> SuiteParse {
    SuiteParse {
        tests: Seq::empty(),
        current: None,
        reading_tvsha1: false,
        reading_recorded: false,
    }
}

/// The suite read from a list of events up to the first end or error: the
/// tests, or the error's message.
pub open spec fn suite_from_events(events: Seq<XmlEventView>, s: SuiteParse) -> Result<
    Seq<SuiteEntry>,
    Seq<char>,
>
    decreases events.len(),
{
    if events.len() == 0 {
        Ok(s.tests)
    } else {
        match events[0] {
            XmlEventView::Eof => Ok(s.tests),
            XmlEventView::Error(m) => Err(m),
            ev => suite_from_events(events.drop_first(), suite_step(s, ev)),
        }
    }
}

/// The suite reader's state, with owned texts.
pub struct SuiteParser {
    pub tests: Vec<SuiteTest>,
    pub current: Option<SuiteTest>,
    pub reading_tvsha1: bool,
    pub reading_recorded: bool,
}

pub open spec fn entries(tests: Seq<SuiteTest>) -> Seq<SuiteEntry> {
    tests.map_values(|t: SuiteTest| t@)
}

impl View for SuiteParser {
    type V = SuiteParse;

    open spec fn view(&self) -> SuiteParse {
        SuiteParse {
            tests: entries(self.tests@),
            current: match self.current {
                Some(c) => Some(c@),
                None => None,
            },
            reading_tvsha1: self.reading_tvsha1,
            reading_recorded: self.reading_recorded,
        }
    }
}

/// A test entry from a `test` tag's attributes.
fn test_from_attrs(attrs: &Vec<Option<(Vec<u8>, Option<String>)>>) -> (r: SuiteTest)
    ensures
        r@ == entry_from_attrs(attrs@.map_values(|a: Option<(Vec<u8>, Option<String>)>| attr_view(a))),
{
    let ghost av = attrs@.map_values(|a: Option<(Vec<u8>, Option<String>)>| attr_view(a));
    let mut t = SuiteTest {
        filename: String::new(),
        system: String::new(),
        runframes: 0,
        tvsha1: String::new(),
        recordedinput: String::new(),
    };
    let mut i: usize = 0;
    while i < attrs.len()
        invariant
            av == attrs@.map_values(|a: Option<(Vec<u8>, Option<String>)>| attr_view(a)),
            i <= attrs.len(),
            t@ == entry_from_attrs(av.subrange(0, i as int)),
        decreases attrs.len() - i,
    {
        proof {
            assert(av.subrange(0, i + 1).drop_last() =~= av.subrange(0, i as int));
            assert(av.subrange(0, i + 1).last() == attr_view(attrs@[i as int]));
        }
        match &attrs[i] {
            Some((key, value)) => {
                let v = match value {
                    Some(text) => text.clone(),
                    None => String::new(),
                };
                if name_is(key, "filename") {
                    t.filename = v;
                } else if name_is(key, "system") {
                    t.system = v;
                } else if name_is(key, "runframes") {
                    t.runframes = match parse_unsigned(v.as_str(), u32::MAX as u64) {
                        Some(n) => n as u32,
                        None => 0,
                    };
                }
            },
            None => {},
        }
        i = i + 1;
    }
    proof {
        assert(av.subrange(0, attrs@.len() as int) =~= av);
    }
    t
}

impl SuiteParser {
    pub fn new() -> (p: Self)
        ensures
            p@ == suite_start(),
    {
        let p = SuiteParser {
            tests: Vec::new(),
            current: None,
            reading_tvsha1: false,
            reading_recorded: false,
        };
        proof {
            assert(entries(p.tests@) =~= Seq::<SuiteEntry>::empty());
        }
        p
    }

    /// Takes one event other than the end or an error.
    pub fn feed(&mut self, ev: &XmlEvent)
        ensures
            final(self)@ == suite_step(old(self)@, ev@),
    {
        match ev {
            XmlEvent::Start(name, attrs) => {
                if name_is(name, "test") {
                    self.current = Some(test_from_attrs(attrs));
                } else if name_is(name, "tvsha1") {
                    self.reading_tvsha1 = true;
                } else if name_is(name, "recordedinput") {
                    self.reading_recorded = true;
                }
            },
            XmlEvent::Text(t) => {
                let text: &str = match t {
                    Some(x) => x.as_str(),
                    None => "",
                };
                proof {
                    reveal_strlit("");
                }
                let reading_tvsha1 = self.reading_tvsha1;
                let reading_recorded = self.reading_recorded;
                match &mut self.current {
                    Some(c) => {
                        if reading_tvsha1 {
                            c.tvsha1.append(text);
                        } else if reading_recorded {
                            c.recordedinput.append(text);
                        }
                    },
                    None => {},
                }
            },
            XmlEvent::End(name) => {
                if name_is(name, "tvsha1") {
                    self.reading_tvsha1 = false;
                } else if name_is(name, "recordedinput") {
                    self.reading_recorded = false;
                } else if name_is(name, "test") {
                    match self.current.take() {
                        Some(c) => {
                            let finished = SuiteTest {
                                filename: c.filename,
                                system: c.system,
                                runframes: c.runframes,
                                tvsha1: String::from_str(trim(c.tvsha1.as_str())),
                                recordedinput: String::from_str(trim(c.recordedinput.as_str())),
                            };
                            let ghost before = self.tests@;
                            self.tests.push(finished);
                            proof {
                                assert(entries(self.tests@) =~= entries(before).push(finished@));
                            }
                        },
                        None => {},
                    }
                }
            },
            _ => {},
        }
    }
}

/// Reads a suite from a list of events, up to the first end or error.
pub fn suite_from_event_list(events: &Vec<XmlEvent>) -> (r: Result<Vec<SuiteTest>, String>)
    ensures
        match suite_from_events(events@.map_values(|e: XmlEvent| e@), suite_start()) {
            Ok(tests) => r matches Ok(t) && entries(t@) == tests,
            Err(m) => r matches Err(e) && e@ == m,
        },
{
    let ghost evs = events@.map_values(|e: XmlEvent| e@);
    let mut parser = SuiteParser::new();
    let mut i: usize = 0;
    proof {
        assert(evs.subrange(0, evs.len() as int) =~= evs);
    }
    while i < events.len()
        invariant
            evs == events@.map_values(|e: XmlEvent| e@),
            i <= events.len(),
            suite_from_events(evs.subrange(i as int, evs.len() as int), parser@) == suite_from_events(
                evs,
                suite_start(),
            ),
        decreases events.len() - i,
    {
        let ev = &events[i];
        proof {
            let rest = evs.subrange(i as int, evs.len() as int);
            assert(rest[0] == ev@);
            assert(rest.drop_first() =~= evs.subrange(i + 1, evs.len() as int));
        }
        match ev {
            XmlEvent::Eof => {
                return Ok(parser.tests);
            },
            XmlEvent::Error(m) => {
                return Err(m.clone());
            },
            _ => {
                parser.feed(ev);
            },
        }
        i = i + 1;
    }
    proof {
        assert(evs.subrange(i as int, evs.len() as int) =~= Seq::<XmlEventView>::empty());
    }
    Ok(parser.tests)
}

/// How many events the suite reader reads of a text of `bytes` bytes
/// before it gives up: one more than the bytes.
pub open spec fn event_limit(bytes: nat) -> nat {
    if bytes >= u64::MAX {
        u64::MAX as nat
    } else {
        bytes + 1
    }
}

/// The first `n` events the suite reader's XML reader gives for `text`,
/// with text trimming on.
pub open spec fn suite_events(text: Seq<char>, n: nat) -> Seq<XmlEventView> {
    Seq::new(n, |i: int| xml_event(text, true, i as nat))
}

/// Whether an event ends the reading: the end of the text or an error.
pub open spec fn ends_reading(ev: XmlEventView) -> bool {
    ev is Eof || ev is Error
}

/// The message when the reader gives more events than the limit without
/// ending.
pub open spec fn no_end_message() -> Seq<char> {
    "the XML reader did not reach the end of the text"@
}

/// The suite read from `text`: what the suite reader makes of the XML
/// reader's events up to the first end or error among the first `limit`
/// events, or `no_end_message` if none of them ends the reading.
pub open spec fn suite_of_text(text: Seq<char>, limit: nat) -> Result<Seq<SuiteEntry>, Seq<char>> {
    let evs = suite_events(text, limit);
    if exists|i: int| 0 <= i < limit && #[trigger] ends_reading(evs[i]) {
        suite_from_events(evs, suite_start())
    } else {
        Err(no_end_message())
    }
}

/// Reads a suite file's text: each `test` element's attributes and its
/// `tvsha1` and `recordedinput` content, or the XML reader's error message.
/// Should the reader give more events than the text has bytes without
/// ending, reading stops with an error.
pub fn parse_suite_xml(xml: &str) -> (r: Result<Vec<SuiteTest>, String>)
    ensures
        match suite_of_text(xml@, event_limit(xml.spec_bytes().len() as usize as nat)) {
            Ok(tests) => r matches Ok(t) && entries(t@) == tests,
            Err(m) => r matches Err(e) && e@ == m,
        },
{
    let mut cursor = xml_reader(xml);
    xml_trim_text(&mut cursor);
    let mut parser = SuiteParser::new();
    let ghost text = xml@;
    let ghost mut seen: Seq<XmlEventView> = Seq::empty();
    let bytes = xml.len() as u64;
    let limit: u64 = if bytes == u64::MAX {
        bytes
    } else {
        bytes + 1
    };
    let ghost lim = event_limit(xml.spec_bytes().len() as usize as nat);
    assert(limit == lim);
    let ghost evs = suite_events(text, lim);
    let mut count: u64 = 0;
    while count < limit
        invariant
            count <= limit,
            limit == lim,
            lim == event_limit(xml.spec_bytes().len() as usize as nat),
            text == xml@,
            evs == suite_events(text, lim),
            cursor.text() == text,
            cursor.trimmed(),
            cursor.read() == count,
            seen == evs.subrange(0, count as int),
            forall|i: int| 0 <= i < count ==> !#[trigger] ends_reading(evs[i]),
            forall|rest: Seq<XmlEventView>|
                #[trigger] suite_from_events(seen + rest, suite_start()) == suite_from_events(
                    rest,
                    parser@,
                ),
        decreases limit - count,
    {
        let ev = xml_next_event(&mut cursor);
        proof {
            assert(evs[count as int] == ev@);
        }
        match ev {
            XmlEvent::Eof => {
                proof {
                    let rest = evs.subrange(count as int, lim as int);
                    assert(seen + rest =~= evs);
                    assert(ends_reading(evs[count as int]));
                    assert(rest[0] == ev@);
                    assert(suite_from_events(seen + rest, suite_start()) == suite_from_events(
                        rest,
                        parser@,
                    ));
                }
                return Ok(parser.tests);
            },
            XmlEvent::Error(m) => {
                proof {
                    let rest = evs.subrange(count as int, lim as int);
                    assert(seen + rest =~= evs);
                    assert(ends_reading(evs[count as int]));
                    assert(rest[0] == ev@);
                    assert(suite_from_events(seen + rest, suite_start()) == suite_from_events(
                        rest,
                        parser@,
                    ));
                }
                return Err(m);
            },
            _ => {
                let ghost before = parser@;
                let ghost e = ev@;
                parser.feed(&ev);
                proof {
                    assert forall|rest: Seq<XmlEventView>|
                        #[trigger] suite_from_events(seen.push(e) + rest, suite_start())
                            == suite_from_events(rest, parser@) by {
                        assert(seen.push(e) + rest =~= seen + (seq![e] + rest));
                        assert((seq![e] + rest).drop_first() =~= rest);
                        assert(suite_from_events(seen + (seq![e] + rest), suite_start())
                            == suite_from_events(seq![e] + rest, before));
                    }
                    assert(seen.push(e) =~= evs.subrange(0, count + 1));
                    seen = seen.push(e);
                }
            },
        }
        count = count + 1;
    }
    proof {
        assert forall|i: int| 0 <= i < lim implies !#[trigger] ends_reading(evs[i]) by {}
    }
    let msg = String::from_str("the XML reader did not reach the end of the text");
    Err(msg)
}

} // verus!
