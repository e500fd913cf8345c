use vstd::prelude::*;
use vstd::string::*;

use super::text::{
    ascii_lower_seq, ascii_lowercase, is_arg, lowercase, parse_unsigned, parsed_unsigned,
    split_at_char, split_on, to_lowercase, trim, trimmed, views,
};
use crate::nes::{
    BUTTON_A, BUTTON_B, BUTTON_DOWN, BUTTON_LEFT, BUTTON_RIGHT, BUTTON_SELECT, BUTTON_START,
    BUTTON_UP,
};

verus! {

/// Why a command line was not accepted.
#[derive(Debug, Clone, PartialEq, Eq)]
pub enum ArgError {
    /// `-h` or `--help`: the caller shows the usage and stops.
    Help,
    /// A flag that takes a value came last.
    MissingValue(String),
    /// A flag's value is not a number of the flag's size: the flag and the value.
    InvalidNumber(String, String),
    /// An input list names something that is no button (lowered, trimmed).
    UnknownInput(String),
    /// An argument that is no option.
    Unknown(String),
}

/// `ArgError` over the texts' characters.
pub enum ArgFail {
    Help,
    MissingValue(Seq<char>),
    InvalidNumber(Seq<char>, Seq<char>),
    UnknownInput(Seq<char>),
    Unknown(Seq<char>),
}

impl View for ArgError {
    type V = ArgFail;

    open spec fn view(&self) -> ArgFail {
        match self {
            ArgError::Help => ArgFail::Help,
            ArgError::MissingValue(f) => ArgFail::MissingValue(f@),
            ArgError::InvalidNumber(f, v) => ArgFail::InvalidNumber(f@, v@),
            ArgError::UnknownInput(t) => ArgFail::UnknownInput(t@),
            ArgError::Unknown(a) => ArgFail::Unknown(a@),
        }
    }
}

/// The views of a list of strings.
pub open spec fn arg_views(args: Seq<String>) -> Seq<Seq<char>> {
    args.map_values(|s: String| s@)
}

/// The buttons an input token names, once trimmed and lowered; `None` for
/// a token that names none. An empty token and `none` name no button.
pub open spec fn token_bits(t: Seq<char>) -> Option<u8> {
    if t == ""@ || t == "none"@ {
        Some(0)
    } else if t == "up"@ || t == "w"@ {
        Some(BUTTON_UP)
    } else if t == "down"@ || t == "s"@ {
        Some(BUTTON_DOWN)
    } else if t == "left"@ || t == "a"@ {
        Some(BUTTON_LEFT)
    } else if t == "right"@ || t == "d"@ {
        Some(BUTTON_RIGHT)
    } else if t == "start"@ || t == "enter"@ {
        Some(BUTTON_START)
    } else if t == "select"@ || t == "shift"@ {
        Some(BUTTON_SELECT)
    } else if t == "buttona"@ || t == "space"@ || t == "z"@ {
        Some(BUTTON_A)
    } else if t == "b"@ || t == "x"@ {
        Some(BUTTON_B)
    } else {
        None
    }
}

/// The buttons a list of tokens names together, or the first token (trimmed
/// and lowered) that names none.
pub open spec fn tokens_bits(tokens: Seq<Seq<char>>) -> Result<u8, Seq<char>>
    decreases tokens.len(),
{
    if tokens.len() == 0 {
        Ok(0)
    } else {
        match tokens_bits(tokens.drop_last()) {
            Ok(state) => {
                let t = ascii_lower_seq(trimmed(tokens.last()));
                match token_bits(t) {
                    Some(b) => Ok(state | b),
                    None => Err(t),
                }
            },
            Err(t) => Err(t),
        }
    }
}

fn token_bits_of(t: &String) -> (r: Option<u8>)
    ensures
        r == token_bits(t@),
{
    if is_arg(t, "") || is_arg(t, "none") {
        Some(0)
    } else if is_arg(t, "up") || is_arg(t, "w") {
        Some(BUTTON_UP)
    } else if is_arg(t, "down") || is_arg(t, "s") {
        Some(BUTTON_DOWN)
    } else if is_arg(t, "left") || is_arg(t, "a") {
        Some(BUTTON_LEFT)
    } else if is_arg(t, "right") || is_arg(t, "d") {
        Some(BUTTON_RIGHT)
    } else if is_arg(t, "start") || is_arg(t, "enter") {
        Some(BUTTON_START)
    } else if is_arg(t, "select") || is_arg(t, "shift") {
        Some(BUTTON_SELECT)
    } else if is_arg(t, "buttona") || is_arg(t, "space") || is_arg(t, "z") {
        Some(BUTTON_A)
    } else if is_arg(t, "b") || is_arg(t, "x") {
        Some(BUTTON_B)
    } else {
        None
    }
}

/// Reads a comma-separated list of button names (case and surrounding
/// white space ignored) into controller bits.
pub fn parse_input_bits(value: &str) -> (r: Result<u8, ArgError>)
    ensures
        match tokens_bits(split_on(value@, ',')) {
            Ok(state) => r == Ok::<u8, ArgError>(state),
            Err(t) => r matches Err(e) && e@ == ArgFail::UnknownInput(t),
        },
{
    let pieces = split_at_char(value, ',');
    let mut state: u8 = 0;
    let mut k: usize = 0;
    while k < pieces.len()
        invariant
            views(pieces@) == split_on(value@, ','),
            k <= pieces.len(),
            tokens_bits(views(pieces@).subrange(0, k as int)) == Ok::<u8, Seq<char>>(state),
        decreases pieces.len() - k,
    {
        let token = ascii_lowercase(trim(pieces[k]));
        proof {
            let sub = views(pieces@).subrange(0, k + 1);
            assert(sub.drop_last() =~= views(pieces@).subrange(0, k as int));
            assert(sub.last() == pieces@[k as int]@);
        }
        match token_bits_of(&token) {
            Some(b) => {
                state = state | b;
            },
            None => {
                proof {
                    lemma_tokens_bits_error_stays(views(pieces@), k + 1);
                    assert(views(pieces@).subrange(0, pieces@.len() as int) =~= views(pieces@));
                }
                return Err(ArgError::UnknownInput(token));
            },
        }
        k = k + 1;
    }
    proof {
        assert(views(pieces@).subrange(0, pieces@.len() as int) =~= views(pieces@));
    }
    Ok(state)
}

/// Once a prefix of the tokens fails, the whole list fails the same way.
proof fn lemma_tokens_bits_error_stays(tokens: Seq<Seq<char>>, k: int)
    requires
        0 <= k <= tokens.len(),
        tokens_bits(tokens.subrange(0, k)) is Err,
    ensures
        tokens_bits(tokens) == tokens_bits(tokens.subrange(0, k)),
    decreases tokens.len() - k,
{
    if k < tokens.len() {
        let next = tokens.subrange(0, k + 1);
        assert(next.drop_last() =~= tokens.subrange(0, k));
        lemma_tokens_bits_error_stays(tokens, k + 1);
    } else {
        assert(tokens.subrange(0, k) =~= tokens);
    }
}

/// The suite runner's options, as texts and numbers.
pub struct SuiteOptions {
    pub suite: Seq<char>,
    pub rom_root: Seq<char>,
    pub max_tests: nat,
    pub include_recorded_input: bool,
    pub include_pal: bool,
    pub contains: Seq<Seq<char>>,
    pub frame_multiplier: nat,
    pub extra_frames: nat,
}

/// The options of the ROM suite runner.
pub struct SuiteConfig {
    pub suite: String,
    pub rom_root: String,
    pub max_tests: usize,
    pub include_recorded_input: bool,
    pub include_pal: bool,
    /// Filename filters, lowered.
    pub contains: Vec<String>,
    pub frame_multiplier: u32,
    pub extra_frames: u32,
}

impl View for SuiteConfig {
    type V = SuiteOptions;

    open spec fn view(&self) -> SuiteOptions {
        SuiteOptions {
            suite: self.suite@,
            rom_root: self.rom_root@,
            max_tests: self.max_tests as nat,
            include_recorded_input: self.include_recorded_input,
            include_pal: self.include_pal,
            contains: arg_views(self.contains@),
            frame_multiplier: self.frame_multiplier as nat,
            extra_frames: self.extra_frames as nat,
        }
    }
}

/// The suite runner's options when none is given.
pub open spec fn suite_defaults() -> SuiteOptions {
    SuiteOptions {
        suite: "external/nes-test-roms/test_roms.xml"@,
        rom_root: "external/nes-test-roms"@,
        max_tests: 80,
        include_recorded_input: false,
        include_pal: false,
        contains: Seq::empty(),
        frame_multiplier: 1,
        extra_frames: 0,
    }
}

/// The suite runner's options after reading the arguments from `i` on, or
/// why they are refused.
pub open spec fn suite_args_from(args: Seq<Seq<char>>, i: nat, acc: SuiteOptions) -> Result<
    SuiteOptions,
    ArgFail,
>
    decreases args.len() - i,
{
    if i >= args.len() {
        Ok(acc)
    } else {
        let a = args[i as int];
        let has_value = i + 1 < args.len();
        let v = args[i + 1 as int];
        if a == "--suite"@ || a == "--rom-root"@ || a == "--max-tests"@ || a == "--contains"@ || a
            == "--frame-multiplier"@ || a == "--extra-frames"@ {
            if !has_value {
                Err(ArgFail::MissingValue(a))
            } else if a == "--suite"@ {
                suite_args_from(args, i + 2, SuiteOptions { suite: v, ..acc })
            } else if a == "--rom-root"@ {
                suite_args_from(args, i + 2, SuiteOptions { rom_root: v, ..acc })
            } else if a == "--contains"@ {
                suite_args_from(args, i + 2, SuiteOptions { contains: acc.contains.push(lowercase(v)), ..acc })
            } else if a == "--max-tests"@ {
                match parsed_unsigned(v, usize::MAX as nat) {
                    Some(n) => suite_args_from(args, i + 2, SuiteOptions { max_tests: n, ..acc }),
                    None => Err(ArgFail::InvalidNumber(a, v)),
                }
            } else if a == "--frame-multiplier"@ {
                match parsed_unsigned(v, u32::MAX as nat) {
                    Some(n) => suite_args_from(args, i + 2, SuiteOptions { frame_multiplier: n, ..acc }),
                    None => Err(ArgFail::InvalidNumber(a, v)),
                }
            } else {
                match parsed_unsigned(v, u32::MAX as nat) {
                    Some(n) => suite_args_from(args, i + 2, SuiteOptions { extra_frames: n, ..acc }),
                    None => Err(ArgFail::InvalidNumber(a, v)),
                }
            }
        } else if a == "--include-recorded-input"@ {
            suite_args_from(args, i + 1, SuiteOptions { include_recorded_input: true, ..acc })
        } else if a == "--include-pal"@ {
            suite_args_from(args, i + 1, SuiteOptions { include_pal: true, ..acc })
        } else if a == "--help"@ || a == "-h"@ {
            Err(ArgFail::Help)
        } else {
            Err(ArgFail::Unknown(a))
        }
    }
}

/// The outcome of parsing, seen through the views.
pub open spec fn result_view<T: View>(r: Result<T, ArgError>) -> Result<T::V, ArgFail> {
    match r {
        Ok(c) => Ok(c@),
        Err(e) => Err(e@),
    }
}

/// Reads the suite runner's command line (the arguments after the program
/// name).
pub fn parse_suite_args(args: &Vec<String>) -> (r: Result<SuiteConfig, ArgError>)
    ensures
        result_view(r) == suite_args_from(arg_views(args@), 0, suite_defaults()),
{
    let mut cfg = SuiteConfig {
        suite: String::from_str("external/nes-test-roms/test_roms.xml"),
        rom_root: String::from_str("external/nes-test-roms"),
        max_tests: 80,
        include_recorded_input: false,
        include_pal: false,
        contains: Vec::new(),
        frame_multiplier: 1,
        extra_frames: 0,
    };
    let ghost av = arg_views(args@);
    proof {
        assert(cfg@.contains =~= Seq::<Seq<char>>::empty());
    }
    let mut i: usize = 0;
    while i < args.len()
        invariant
            av == arg_views(args@),
            i <= args.len(),
            suite_args_from(av, i as nat, cfg@) == suite_args_from(av, 0, suite_defaults()),
        decreases args.len() - i,
    {
        let a = &args[i];
        let has_value = i + 1 < args.len();
        proof {
            assert(av[i as int] == a@);
            if has_value {
                assert(av[i + 1] == args@[i + 1]@);
            }
        }
        if is_arg(a, "--suite") || is_arg(a, "--rom-root") || is_arg(a, "--max-tests") || is_arg(
            a,
            "--contains",
        ) || is_arg(a, "--frame-multiplier") || is_arg(a, "--extra-frames") {
            if !has_value {
                return Err(ArgError::MissingValue(a.clone()));
            }
            let v = &args[i + 1];
            if is_arg(a, "--suite") {
                cfg.suite = v.clone();
            } else if is_arg(a, "--rom-root") {
                cfg.rom_root = v.clone();
            } else if is_arg(a, "--contains") {
                let lowered = to_lowercase(v.as_str());
                let ghost before = cfg.contains@;
                cfg.contains.push(lowered);
                proof {
                    assert(arg_views(cfg.contains@) =~= arg_views(before).push(lowercase(v@)));
                }
            } else if is_arg(a, "--max-tests") {
                match parse_unsigned(v.as_str(), usize::MAX as u64) {
                    Some(n) => {
                        cfg.max_tests = n as usize;
                    },
                    None => {
                        return Err(ArgError::InvalidNumber(a.clone(), v.clone()));
                    },
                }
            } else if is_arg(a, "--frame-multiplier") {
                match parse_unsigned(v.as_str(), u32::MAX as u64) {
                    Some(n) => {
                        cfg.frame_multiplier = n as u32;
                    },
                    None => {
                        return Err(ArgError::InvalidNumber(a.clone(), v.clone()));
                    },
                }
            } else {
                match parse_unsigned(v.as_str(), u32::MAX as u64) {
                    Some(n) => {
                        cfg.extra_frames = n as u32;
                    },
                    None => {
                        return Err(ArgError::InvalidNumber(a.clone(), v.clone()));
                    },
                }
            }
            i = i + 2;
        } else if is_arg(a, "--include-recorded-input") {
            cfg.include_recorded_input = true;
            i = i + 1;
        } else if is_arg(a, "--include-pal") {
            cfg.include_pal = true;
            i = i + 1;
        } else if is_arg(a, "--help") || is_arg(a, "-h") {
            return Err(ArgError::Help);
        } else {
            return Err(ArgError::Unknown(a.clone()));
        }
    }
    Ok(cfg)
}

/// The AccuracyCoin probe's options.
pub struct ProbeOptions {
    pub rom: Seq<char>,
    pub frames: nat,
    pub hold_input_frames: nat,
    pub input: u8,
}

/// The options of the AccuracyCoin probe.
pub struct ProbeConfig {
    pub rom: String,
    pub frames: u32,
    /// For how many frames at the start the input is held.
    pub hold_input_frames: u32,
    pub input: u8,
}

impl View for ProbeConfig {
    type V = ProbeOptions;

    open spec fn view(&self) -> ProbeOptions {
        ProbeOptions {
            rom: self.rom@,
            frames: self.frames as nat,
            hold_input_frames: self.hold_input_frames as nat,
            input: self.input,
        }
    }
}

pub open spec fn probe_defaults() -> ProbeOptions {
    ProbeOptions { rom: "AccuracyCoin.nes"@, frames: 3600, hold_input_frames: 0, input: 0 }
}

/// The probe's options after reading the arguments from `i` on, or why they
/// are refused.
pub open spec fn probe_args_from(args: Seq<Seq<char>>, i: nat, acc: ProbeOptions) -> Result<
    ProbeOptions,
    ArgFail,
>
    decreases args.len() - i,
{
    if i >= args.len() {
        Ok(acc)
    } else {
        let a = args[i as int];
        let has_value = i + 1 < args.len();
        let v = args[i + 1 as int];
        if a == "--rom"@ || a == "--frames"@ || a == "--hold-input-frames"@ || a == "--input"@ {
            if !has_value {
                Err(ArgFail::MissingValue(a))
            } else if a == "--rom"@ {
                probe_args_from(args, i + 2, ProbeOptions { rom: v, ..acc })
            } else if a == "--input"@ {
                match tokens_bits(split_on(v, ',')) {
                    Ok(bits) => probe_args_from(args, i + 2, ProbeOptions { input: bits, ..acc }),
                    Err(t) => Err(ArgFail::UnknownInput(t)),
                }
            } else {
                match parsed_unsigned(v, u32::MAX as nat) {
                    Some(n) => if a == "--frames"@ {
                        probe_args_from(args, i + 2, ProbeOptions { frames: n, ..acc })
                    } else {
                        probe_args_from(args, i + 2, ProbeOptions { hold_input_frames: n, ..acc })
                    },
                    None => Err(ArgFail::InvalidNumber(a, v)),
                }
            }
        } else if a == "--help"@ || a == "-h"@ {
            Err(ArgFail::Help)
        } else {
            Err(ArgFail::Unknown(a))
        }
    }
}

/// Reads the probe's command line (the arguments after the program name).
pub fn parse_probe_args(args: &Vec<String>) -> (r: Result<ProbeConfig, ArgError>)
    ensures
        result_view(r) == probe_args_from(arg_views(args@), 0, probe_defaults()),
{
    let mut cfg = ProbeConfig {
        rom: String::from_str("AccuracyCoin.nes"),
        frames: 3600,
        hold_input_frames: 0,
        input: 0,
    };
    let ghost av = arg_views(args@);
    let mut i: usize = 0;
    while i < args.len()
        invariant
            av == arg_views(args@),
            i <= args.len(),
            probe_args_from(av, i as nat, cfg@) == probe_args_from(av, 0, probe_defaults()),
        decreases args.len() - i,
    {
        let a = &args[i];
        let has_value = i + 1 < args.len();
        proof {
            assert(av[i as int] == a@);
            if has_value {
                assert(av[i + 1 as int] == args@[i + 1]@);
            }
        }
        if is_arg(a, "--rom") || is_arg(a, "--frames") || is_arg(a, "--hold-input-frames")
            || is_arg(a, "--input") {
            if !has_value {
                return Err(ArgError::MissingValue(a.clone()));
            }
            let v = &args[i + 1];
            if is_arg(a, "--rom") {
                cfg.rom = v.clone();
            } else if is_arg(a, "--input") {
                match parse_input_bits(v.as_str()) {
                    Ok(bits) => {
                        cfg.input = bits;
                    },
                    Err(e) => {
                        return Err(e);
                    },
                }
            } else {
                match parse_unsigned(v.as_str(), u32::MAX as u64) {
                    Some(n) => {
                        if is_arg(a, "--frames") {
                            cfg.frames = n as u32;
                        } else {
                            cfg.hold_input_frames = n as u32;
                        }
                    },
                    None => {
                        return Err(ArgError::InvalidNumber(a.clone(), v.clone()));
                    },
                }
            }
            i = i + 2;
        } else if is_arg(a, "--help") || is_arg(a, "-h") {
            return Err(ArgError::Help);
        } else {
            return Err(ArgError::Unknown(a.clone()));
        }
    }
    Ok(cfg)
}

/// The stress runner's options.
pub struct StressOptions {
    pub rom: Seq<char>,
    pub iterations: nat,
    pub frames_per_iteration: nat,
}

/// The options of the stress runner.
pub struct StressConfig {
    pub rom: String,
    pub iterations: u32,
    pub frames_per_iteration: u32,
}

impl View for StressConfig {
    type V = StressOptions;

    open spec fn view(&self) -> StressOptions {
        StressOptions {
            rom: self.rom@,
            iterations: self.iterations as nat,
            frames_per_iteration: self.frames_per_iteration as nat,
        }
    }
}

pub open spec fn stress_defaults() -> StressOptions {
    StressOptions {
        rom: "external/AccuracyCoinRef/AccuracyCoin.nes"@,
        iterations: 500,
        frames_per_iteration: 1800,
    }
}

/// The stress runner's options after reading the arguments from `i` on, or
/// why they are refused.
pub open spec fn stress_args_from(args: Seq<Seq<char>>, i: nat, acc: StressOptions) -> Result<
    StressOptions,
    ArgFail,
>
    decreases args.len() - i,
{
    if i >= args.len() {
        Ok(acc)
    } else {
        let a = args[i as int];
        let has_value = i + 1 < args.len();
        let v = args[i + 1 as int];
        if a == "--rom"@ || a == "--iterations"@ || a == "--frames"@ {
            if !has_value {
                Err(ArgFail::MissingValue(a))
            } else if a == "--rom"@ {
                stress_args_from(args, i + 2, StressOptions { rom: v, ..acc })
            } else {
                match parsed_unsigned(v, u32::MAX as nat) {
                    Some(n) => if a == "--iterations"@ {
                        stress_args_from(args, i + 2, StressOptions { iterations: n, ..acc })
                    } else {
                        stress_args_from(args, i + 2, StressOptions { frames_per_iteration: n, ..acc })
                    },
                    None => Err(ArgFail::InvalidNumber(a, v)),
                }
            }
        } else if a == "--help"@ || a == "-h"@ {
            Err(ArgFail::Help)
        } else {
            Err(ArgFail::Unknown(a))
        }
    }
}

/// Reads the stress runner's command line (the arguments after the program
/// name).
pub fn parse_stress_args(args: &Vec<String>) -> (r: Result<StressConfig, ArgError>)
    ensures
        result_view(r) == stress_args_from(arg_views(args@), 0, stress_defaults()),
{
    let mut cfg = StressConfig {
        rom: String::from_str("external/AccuracyCoinRef/AccuracyCoin.nes"),
        iterations: 500,
        frames_per_iteration: 1800,
    };
    let ghost av = arg_views(args@);
    let mut i: usize = 0;
    while i < args.len()
        invariant
            av == arg_views(args@),
            i <= args.len(),
            stress_args_from(av, i as nat, cfg@) == stress_args_from(av, 0, stress_defaults()),
        decreases args.len() - i,
    {
        let a = &args[i];
        let has_value = i + 1 < args.len();
        proof {
            assert(av[i as int] == a@);
            if has_value {
                assert(av[i + 1 as int] == args@[i + 1]@);
            }
        }
        if is_arg(a, "--rom") || is_arg(a, "--iterations") || is_arg(a, "--frames") {
            if !has_value {
                return Err(ArgError::MissingValue(a.clone()));
            }
            let v = &args[i + 1];
            if is_arg(a, "--rom") {
                cfg.rom = v.clone();
            } else {
                match parse_unsigned(v.as_str(), u32::MAX as u64) {
                    Some(n) => {
                        if is_arg(a, "--iterations") {
                            cfg.iterations = n as u32;
                        } else {
                            cfg.frames_per_iteration = n as u32;
                        }
                    },
                    None => {
                        return Err(ArgError::InvalidNumber(a.clone(), v.clone()));
                    },
                }
            }
            i = i + 2;
        } else if is_arg(a, "--help") || is_arg(a, "-h") {
            return Err(ArgError::Help);
        } else {
            return Err(ArgError::Unknown(a.clone()));
        }
    }
    Ok(cfg)
}

} // verus!
