use base64::Engine;
use cathode8::nes::cartridge::Cartridge;
use cathode8::nes::{Nes, BUTTON_A, BUTTON_B, BUTTON_DOWN, BUTTON_LEFT, BUTTON_RIGHT, BUTTON_START, BUTTON_UP};
use cathode8::tools::args::{
    parse_input_bits, parse_probe_args, parse_stress_args, parse_suite_args, ArgError,
};
use cathode8::tools::probe::{
    chr_nonzero_count, nametable_text, summarize_result_ram, tile_to_char, unique_color_count,
};
use cathode8::tools::stress::{next_state, stress_run};
use cathode8::tools::suite::{
    contains_text, hash_frame_argb, hash_frame_bgra, hash_frame_rgb, hash_frame_rgba,
    matched_order, parse_suite_xml, run_suite_rom, same_text, select_tests, should_run,
    starts_with_text, suite_frame_count, MatchOrder,
    suite_from_event_list, suite_result_pass, SuiteTest,
};
use cathode8::tools::xml::XmlEvent;
use cathode8::tools::text::{parse_unsigned, split_at_char};
use sha1::Digest;

fn strings(v: &[&str]) -> Vec<String> {
    v.iter().map(|s| s.to_string()).collect()
}

fn expected_hash(bytes: &[u8]) -> String {
    base64::engine::general_purpose::STANDARD.encode(sha1::Sha1::digest(bytes))
}

fn looping_console() -> Nes {
    let mut prg = vec![0xEAu8; 0x4000];
    prg[0] = 0x4C;
    prg[1] = 0x00;
    prg[2] = 0x80;
    prg[0x3FFC] = 0x00;
    prg[0x3FFD] = 0x80;
    let mut image = vec![0x4E, 0x45, 0x53, 0x1A, 1, 1, 0, 0, 0, 0, 0, 0, 0, 0, 0, 0];
    image.extend(prg);
    image.extend(vec![0u8; 0x2000]);
    let mut nes = Nes::new();
    nes.load_cartridge(Cartridge::from_bytes(&image).unwrap(), Some("loop.nes".to_string()))
        .unwrap();
    nes
}

#[test]
fn unsigned_numbers_parse_as_std_does() {
    assert_eq!(parse_unsigned("42", u32::MAX as u64), Some(42));
    assert_eq!(parse_unsigned("+7", u32::MAX as u64), Some(7));
    assert_eq!(parse_unsigned("0007", u32::MAX as u64), Some(7));
    assert_eq!(parse_unsigned("4294967295", u32::MAX as u64), Some(4294967295));
    assert_eq!(parse_unsigned("4294967296", u32::MAX as u64), None);
    assert_eq!(parse_unsigned("", u32::MAX as u64), None);
    assert_eq!(parse_unsigned("+", u32::MAX as u64), None);
    assert_eq!(parse_unsigned("-1", u32::MAX as u64), None);
    assert_eq!(parse_unsigned("12a", u32::MAX as u64), None);
    for text in ["0", "+15", "99999999999", " 1", "1_000"] {
        assert_eq!(parse_unsigned(text, u32::MAX as u64), text.parse::<u32>().ok().map(u64::from));
    }
}

#[test]
fn split_keeps_empty_pieces() {
    assert_eq!(split_at_char("a,,b", ','), vec!["a", "", "b"]);
    assert_eq!(split_at_char("", ','), vec![""]);
    assert_eq!(split_at_char("x,", ','), vec!["x", ""]);
}

#[test]
fn input_lists() {
    assert_eq!(parse_input_bits(" Start , buttona"), Ok(BUTTON_START | BUTTON_A));
    assert_eq!(parse_input_bits("up,down"), Ok(BUTTON_UP | BUTTON_DOWN));
    assert_eq!(parse_input_bits("NONE"), Ok(0));
    assert_eq!(parse_input_bits(""), Ok(0));
    assert_eq!(parse_input_bits("w,a,s,d"), Ok(BUTTON_UP | BUTTON_LEFT | BUTTON_DOWN | BUTTON_RIGHT));
    assert_eq!(parse_input_bits("left, Jump ,up"), Err(ArgError::UnknownInput("jump".to_string())));
}

#[test]
fn suite_arguments() {
    let cfg = parse_suite_args(&Vec::new()).unwrap();
    assert_eq!(cfg.suite, "external/nes-test-roms/test_roms.xml");
    assert_eq!(cfg.rom_root, "external/nes-test-roms");
    assert_eq!(cfg.max_tests, 80);
    assert_eq!(cfg.frame_multiplier, 1);
    let cfg = parse_suite_args(&strings(&[
        "--suite", "s.xml", "--max-tests", "3", "--include-pal", "--contains", "VBL", "--extra-frames",
        "+9",
    ]))
    .unwrap();
    assert_eq!(cfg.suite, "s.xml");
    assert_eq!(cfg.max_tests, 3);
    assert!(cfg.include_pal);
    assert!(!cfg.include_recorded_input);
    assert_eq!(cfg.contains, vec!["vbl".to_string()]);
    assert_eq!(cfg.extra_frames, 9);
    assert_eq!(
        parse_suite_args(&strings(&["--rom-root"])).err(),
        Some(ArgError::MissingValue("--rom-root".to_string()))
    );
    assert_eq!(
        parse_suite_args(&strings(&["--frame-multiplier", "x"])).err(),
        Some(ArgError::InvalidNumber("--frame-multiplier".to_string(), "x".to_string()))
    );
    assert_eq!(parse_suite_args(&strings(&["-h"])).err(), Some(ArgError::Help));
    assert_eq!(
        parse_suite_args(&strings(&["--bogus"])).err(),
        Some(ArgError::Unknown("--bogus".to_string()))
    );
}

#[test]
fn probe_and_stress_arguments() {
    let cfg = parse_probe_args(&Vec::new()).unwrap();
    assert_eq!((cfg.rom.as_str(), cfg.frames, cfg.hold_input_frames, cfg.input), ("AccuracyCoin.nes", 3600, 0, 0));
    let cfg = parse_probe_args(&strings(&["--input", "start", "--hold-input-frames", "60", "--rom", "x.nes"]))
        .unwrap();
    assert_eq!((cfg.rom.as_str(), cfg.hold_input_frames, cfg.input), ("x.nes", 60, BUTTON_START));
    assert_eq!(
        parse_probe_args(&strings(&["--input", "kick"])).err(),
        Some(ArgError::UnknownInput("kick".to_string()))
    );
    let cfg = parse_stress_args(&Vec::new()).unwrap();
    assert_eq!(
        (cfg.rom.as_str(), cfg.iterations, cfg.frames_per_iteration),
        ("external/AccuracyCoinRef/AccuracyCoin.nes", 500, 1800)
    );
    let cfg = parse_stress_args(&strings(&["--iterations", "2", "--frames", "10"])).unwrap();
    assert_eq!((cfg.iterations, cfg.frames_per_iteration), (2, 10));
    assert_eq!(
        parse_stress_args(&strings(&["--frames"])).err(),
        Some(ArgError::MissingValue("--frames".to_string()))
    );
}

fn xorshift(mut x: u32) -> u32 {
    x ^= x << 13;
    x ^= x >> 17;
    x ^= x << 5;
    x
}

#[test]
fn stress_input_sequence() {
    let mut seed = 0xC47D0E8Au32;
    for _ in 0..1000 {
        let before = seed;
        let state = next_state(&mut seed);
        assert_eq!(seed, xorshift(before));
        assert!(!(state & BUTTON_UP != 0 && state & BUTTON_DOWN != 0));
        assert!(!(state & BUTTON_LEFT != 0 && state & BUTTON_RIGHT != 0));
    }
    let mut seed = 1u32;
    let state = next_state(&mut seed);
    assert_eq!(seed, 270369);
    assert_eq!(state, BUTTON_UP | BUTTON_B);
}

#[test]
fn stress_run_advances_seed_every_fifteenth_frame() {
    let mut nes = looping_console();
    let mut seed = 0xC47D0E8Au32;
    let result = stress_run(&mut nes, 16, &mut seed);
    assert_eq!(seed, xorshift(xorshift(0xC47D0E8A)));
    assert_eq!(result.cycles, nes.debug_total_cycles());
    assert!(result.cycles > 16 * 29000);
    assert!(!result.halted);
    assert_eq!(result.unknown, 0);
}

#[test]
fn tiles_as_text() {
    assert_eq!(tile_to_char(0x41), 'A');
    assert_eq!(tile_to_char(0x20), ' ');
    assert_eq!(tile_to_char(0x7E), '~');
    assert_eq!(tile_to_char(0x00), ' ');
    assert_eq!(tile_to_char(0x7F), '.');
    assert_eq!(tile_to_char(0xFF), '.');
    let mut nes = Nes::new();
    nes.ppu.vram[33] = 0x48;
    let rows = nametable_text(&nes);
    assert_eq!(rows.len(), 30);
    assert!(rows.iter().all(|r| r.len() == 32));
    assert_eq!(rows[1][1], 'H');
    assert_eq!(rows[0][0], ' ');
}

#[test]
fn result_table_summary() {
    let mut nes = Nes::new();
    nes.ram[0x400] = 0x01;
    nes.ram[0x401] = 0x0A;
    nes.ram[0x402] = 0x07;
    nes.ram[0x48D] = 0x05;
    let s = summarize_result_ram(&nes);
    assert_eq!(s.total, 142);
    assert_eq!(s.pass, 2);
    assert_eq!(s.fail, 1);
    assert_eq!(s.in_progress, 1);
    assert_eq!(s.unrun, 138);
    assert_eq!(s.other, 0);
    assert_eq!(s.failing, vec![(0x401, 0x0A)]);
}

#[test]
fn text_search() {
    assert!(contains_text("vbl_nmi_timing/1.frame_basics.nes", "frame"));
    assert!(contains_text("abc", ""));
    assert!(!contains_text("abc", "abcd"));
    assert!(starts_with_text("vbl_nmi_timing/2.nes", "vbl_nmi_timing/"));
    assert!(!starts_with_text("vbl", "vbl_nmi_timing/"));
}

fn test_entry(filename: &str, system: &str, recorded: &str) -> SuiteTest {
    SuiteTest {
        filename: filename.to_string(),
        system: system.to_string(),
        runframes: 10,
        tvsha1: String::new(),
        recordedinput: recorded.to_string(),
    }
}

#[test]
fn suite_selection() {
    let mut cfg = parse_suite_args(&Vec::new()).unwrap();
    assert!(should_run(&test_entry("a.nes", "NTSC", ""), &cfg));
    assert!(!should_run(&test_entry("a.nes", "Pal", ""), &cfg));
    assert!(!should_run(&test_entry("a.nes", "ntsc", "abc"), &cfg));
    cfg.include_pal = true;
    assert!(should_run(&test_entry("a.nes", "PAL", ""), &cfg));
    cfg.contains = vec!["timing".to_string()];
    assert!(should_run(&test_entry("VBL_Timing/x.nes", "ntsc", ""), &cfg));
    assert!(!should_run(&test_entry("sprite/x.nes", "ntsc", ""), &cfg));
    assert_eq!(suite_frame_count(10, 3, 5), 35);
    assert_eq!(suite_frame_count(u32::MAX, 2, 5), u32::MAX);
    assert_eq!(suite_frame_count(7, 0, 5), 5);
}

#[test]
fn frame_hashes() {
    assert_eq!(hash_frame_rgba(b"abc"), "qZk+NkcGgWq6PiVxeFDCbJzQ2J0=");
    let frame = [1u8, 2, 3, 4, 5, 6, 7, 8];
    assert_eq!(hash_frame_rgba(&frame), expected_hash(&frame));
    assert_eq!(hash_frame_rgb(&frame), expected_hash(&[1, 2, 3, 5, 6, 7]));
    assert_eq!(hash_frame_argb(&frame), expected_hash(&[4, 1, 2, 3, 8, 5, 6, 7]));
    assert_eq!(hash_frame_bgra(&frame), expected_hash(&[3, 2, 1, 4, 7, 6, 5, 8]));
}

#[test]
fn suite_xml() {
    let xml = r#"<?xml version="1.0"?>
<tests>
  <test filename="vbl_nmi_timing/1.frame_basics.nes" system="ntsc" runframes="120">
    <tvsha1>  AbC+/= </tvsha1>
  </test>
  <!-- a comment -->
  <test filename="input/x.nes" system="pal" runframes="bad">
    <recordedinput><![CDATA[ BASE64DATA ]]></recordedinput>
    <tvsha1>zz</tvsha1>
  </test>
</tests>"#;
    let tests = parse_suite_xml(xml).unwrap();
    assert_eq!(tests.len(), 2);
    assert_eq!(tests[0].filename, "vbl_nmi_timing/1.frame_basics.nes");
    assert_eq!(tests[0].system, "ntsc");
    assert_eq!(tests[0].runframes, 120);
    assert_eq!(tests[0].tvsha1, "AbC+/=");
    assert_eq!(tests[0].recordedinput, "");
    assert_eq!(tests[1].runframes, 0);
    assert_eq!(tests[1].recordedinput, "BASE64DATA");
    assert_eq!(tests[1].tvsha1, "zz");
    assert!(parse_suite_xml("<tests><test filename=\"a\"></tests>").is_err());
    assert!(parse_suite_xml("").unwrap().is_empty());
}

#[test]
fn suite_events() {
    let events = vec![
        XmlEvent::Start(
            b"test".to_vec(),
            vec![Some((b"filename".to_vec(), Some("f.nes".to_string()))), None],
        ),
        XmlEvent::Start(b"tvsha1".to_vec(), vec![]),
        XmlEvent::Text(Some(" h ".to_string())),
        XmlEvent::End(b"tvsha1".to_vec()),
        XmlEvent::End(b"test".to_vec()),
        XmlEvent::Eof,
        XmlEvent::Error("after the end".to_string()),
    ];
    let tests = suite_from_event_list(&events).unwrap();
    assert_eq!(tests.len(), 1);
    assert_eq!(tests[0].filename, "f.nes");
    assert_eq!(tests[0].tvsha1, "h");
    let bad = vec![XmlEvent::Other, XmlEvent::Error("broken".to_string())];
    assert_eq!(suite_from_event_list(&bad).err(), Some("broken".to_string()));
}

#[test]
fn suite_run_reports() {
    let mut nes = looping_console();
    let cfg = parse_suite_args(&Vec::new()).unwrap();
    let mut test = test_entry("vbl_nmi_timing/1.nes", "ntsc", "");
    test.runframes = 2;
    let hashes = run_suite_rom(&mut nes, &test, &cfg);
    assert_eq!(hashes.rgba, expected_hash(nes.frame_buffer()));
    assert_eq!(hashes.total_cycles, nes.debug_total_cycles());
    assert_eq!(hashes.vram_non_space_count, 960);
    assert_eq!(hashes.ram_f8, 0);
    assert!(!suite_result_pass(&test, &hashes));
    nes.ram[0xF8] = 1;
    let hashes = run_suite_rom(&mut nes, &test, &cfg);
    assert_eq!(hashes.ram_f8, 1);
    assert!(suite_result_pass(&test, &hashes));
}

#[test]
fn suite_selection_filters_then_takes() {
    let mut cfg = parse_suite_args(&Vec::new()).unwrap();
    cfg.max_tests = 2;
    let tests = vec![
        test_entry("a.nes", "pal", ""),
        test_entry("b.nes", "ntsc", ""),
        test_entry("c.nes", "ntsc", "rec"),
        test_entry("d.nes", "ntsc", ""),
        test_entry("e.nes", "ntsc", ""),
    ];
    let picked: Vec<String> = select_tests(tests, &cfg).into_iter().map(|t| t.filename).collect();
    assert_eq!(picked, vec!["b.nes".to_string(), "d.nes".to_string()]);
    assert!(select_tests(Vec::new(), &cfg).is_empty());
}

#[test]
fn run_matches_first_hash_order() {
    assert!(same_text("abc", "abc"));
    assert!(!same_text("abc", "abd"));
    let mut nes = Nes::new();
    let test = SuiteTest { tvsha1: "zzz".to_string(), ..test_entry("vbl_nmi_timing/1.nes", "ntsc", "") };
    let cfg = parse_suite_args(&Vec::new()).unwrap();
    let mut hashes = run_suite_rom(&mut nes, &test, &cfg);
    assert_eq!(matched_order(&test, &hashes), None);
    hashes.ram_f8 = 1;
    assert_eq!(matched_order(&test, &hashes), Some(MatchOrder::SuiteResult));
    hashes.bgra = "zzz".to_string();
    assert_eq!(matched_order(&test, &hashes), Some(MatchOrder::Bgra));
    hashes.rgb = "zzz".to_string();
    assert_eq!(matched_order(&test, &hashes).map(|m| m.label()), Some("rgb"));
}

#[test]
fn frame_and_chr_statistics() {
    assert_eq!(unique_color_count(&[]), 0);
    assert_eq!(unique_color_count(&[1, 2, 3, 4, 1, 2, 3, 4, 1, 2, 3, 5, 9]), 2);
    assert_eq!(chr_nonzero_count(&Nes::new()), 0);
}
