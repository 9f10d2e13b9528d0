use bootrt::boot::{clear_bss, rust_main, MemoryLayout, Segment};
use bootrt::console::{print, push_dec, push_hex, write_str};
use bootrt::lang_items::handle_panic;
use bootrt::log::{log, Level, LogConfig};
use bootrt::sbi::Firmware;

fn recorded(fw: &Firmware) -> String {
    fw.output_chars().iter().collect()
}

const ALL_LEVELS: LogConfig = LogConfig {
    error: true,
    warn: true,
    info: true,
    debug: true,
    trace: true,
};

const ERROR_ONLY: LogConfig = LogConfig {
    error: true,
    warn: false,
    info: false,
    debug: false,
    trace: false,
};

fn demo_layout() -> MemoryLayout {
    MemoryLayout {
        text: Segment { start: 0x80200000, end: 0x80201000 },
        rodata: Segment { start: 0x80201000, end: 0x80201200 },
        data: Segment { start: 0x80201200, end: 0x80201300 },
        bss: Segment { start: 0x80201300, end: 0x80202000 },
    }
}

#[test]
fn zeroing_clears_whole_range() {
    let mut mem = vec![0xA5u8; 64];
    clear_bss(&mut mem, 8, 56);
    for (i, b) in mem.iter().enumerate() {
        if (8..56).contains(&i) {
            assert_eq!(0, *b, "byte {} not zeroed", i);
        } else {
            assert_eq!(0xA5, *b, "byte {} outside the range was touched", i);
        }
    }
}

#[test]
fn writes_appear_in_call_order() {
    let mut fw = Firmware::new(false);
    write_str(&mut fw, "abc");
    write_str(&mut fw, "");
    write_str(&mut fw, "def");
    print(&mut fw, "!");
    assert_eq!("abcdef!", recorded(&fw));
    assert_eq!(None, fw.halt_requested());
}

#[test]
fn hex_formatting_matches_sharp_x() {
    let mut line: Vec<char> = Vec::new();
    push_hex(&mut line, 0x80200000);
    line.push(' ');
    push_hex(&mut line, 0);
    line.push(' ');
    push_hex(&mut line, 0x1a2f);
    let s: String = line.iter().collect();
    assert_eq!("0x80200000 0x0 0x1a2f", s);
}

#[test]
fn dec_formatting_is_plain_decimal() {
    let mut line: Vec<char> = Vec::new();
    push_dec(&mut line, 0);
    line.push(' ');
    push_dec(&mut line, 96);
    line.push(' ');
    push_dec(&mut line, 4294967295);
    let s: String = line.iter().collect();
    assert_eq!("0 96 4294967295", s);
}

#[test]
fn enabled_level_emits_one_colored_line() {
    let mut fw = Firmware::new(false);
    bootrt::log::error(&mut fw, ALL_LEVELS, "this is a error");
    assert_eq!("\x1b[31m[ERROR] this is a error\x1b[0m\n", recorded(&fw));

    let mut fw = Firmware::new(false);
    bootrt::log::warn(&mut fw, ALL_LEVELS, "warn");
    assert_eq!("\x1b[93m[WARN ] warn\x1b[0m\n", recorded(&fw));

    let mut fw = Firmware::new(false);
    bootrt::log::info(&mut fw, ALL_LEVELS, "this is a info");
    assert_eq!("\x1b[34m[INFO ] this is a info\x1b[0m\n", recorded(&fw));

    let mut fw = Firmware::new(false);
    bootrt::log::debug(&mut fw, ALL_LEVELS, "debug");
    assert_eq!("\x1b[32m[DEBUG] debug\x1b[0m\n", recorded(&fw));

    let mut fw = Firmware::new(false);
    bootrt::log::trace(&mut fw, ALL_LEVELS, "trace");
    assert_eq!("\x1b[90m[TRACE] trace\x1b[0m\n", recorded(&fw));
}

#[test]
fn disabled_level_emits_nothing() {
    let mut fw = Firmware::new(false);
    log(&mut fw, ERROR_ONLY, Level::Warn, "warn");
    log(&mut fw, ERROR_ONLY, Level::Info, "info");
    log(&mut fw, ERROR_ONLY, Level::Debug, "debug");
    log(&mut fw, ERROR_ONLY, Level::Trace, "trace");
    assert_eq!("", recorded(&fw));
    bootrt::log::error(&mut fw, ERROR_ONLY, "kept");
    assert_eq!("\x1b[31m[ERROR] kept\x1b[0m\n", recorded(&fw));
}

#[test]
fn panic_with_location_is_tagged() {
    let mut fw = Firmware::new(false);
    handle_panic(&mut fw, Some(("src/main.rs", 96)), "Shutdown machine!");
    assert_eq!(
        "Panicked at src/main.rs:96 Shutdown machine!\n",
        recorded(&fw)
    );
    assert_eq!(Some(true), fw.halt_requested());
}

#[test]
fn panic_without_location_is_plain() {
    let mut fw = Firmware::new(false);
    handle_panic(&mut fw, None, "out of ideas");
    assert_eq!("Panicked: out of ideas\n", recorded(&fw));
    assert_eq!(Some(true), fw.halt_requested());
}

#[test]
fn boot_with_all_levels_reports_every_segment() {
    let mut fw = Firmware::new(false);
    let mut bss = vec![0x5Au8; 0xD00];
    rust_main(&mut fw, ALL_LEVELS, &demo_layout(), &mut bss);
    let expected = "\x1b[34m[INFO ] .text [0x80200000, 0x80201000)\x1b[0m\n\x1b[32m[DEBUG] .rodata [0x80201000, 0x80201200)\x1b[0m\n\x1b[31m[ERROR] .data [0x80201200, 0x80201300)\x1b[0m\n\x1b[34m[INFO ] .bss [0x80201300, 0x80202000)\x1b[0m\nPanicked: Shutdown machine!\n";
    assert_eq!(expected, recorded(&fw));
    assert_eq!(Some(true), fw.halt_requested());
    assert!(bss.iter().all(|b| *b == 0));
}

#[test]
fn boot_with_only_errors_reports_one_segment() {
    let mut fw = Firmware::new(false);
    let mut bss = vec![0xFFu8; 32];
    rust_main(&mut fw, ERROR_ONLY, &demo_layout(), &mut bss);
    let expected = "\x1b[31m[ERROR] .data [0x80201200, 0x80201300)\x1b[0m\nPanicked: Shutdown machine!\n";
    assert_eq!(expected, recorded(&fw));
    assert_eq!(Some(true), fw.halt_requested());
    assert!(bss.iter().all(|b| *b == 0));
}
