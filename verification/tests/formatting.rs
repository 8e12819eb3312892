use smbench::fmt::Bytes;
use smbench::reporter::ConsoleReporter;
use smbench::sys::{brand_string_bytes, cpu_model, get_cpuinfo};

#[test]
fn bytes_format_picks_decimal_units() {
    assert_eq!(Bytes::new(0).format(), "0 B");
    assert_eq!(Bytes::new(999).format(), "999 B");
    assert_eq!(Bytes::new(1_000).format(), "1 KB");
    assert_eq!(Bytes::new(999_999).format(), "999 KB");
    assert_eq!(Bytes::new(1_500_000).format(), "1 MB");
    assert_eq!(Bytes::new(999_999_999).format(), "999 MB");
    assert_eq!(Bytes::new(3_200_000_000).format(), "3 GB");
}

#[test]
fn console_reporter_tracks_widest_name() {
    let mut rep = ConsoleReporter::new();
    assert_eq!(rep.name_width_max, 9);

    // Short names leave the header width in place.
    rep.observe_group(&vec!["fib".to_string(), "sort".to_string()]);
    assert_eq!(rep.name_width_max, 9);

    rep.observe_group(&vec![
        "short".to_string(),
        "a_rather_long_benchmark".to_string(),
    ]);
    assert_eq!(rep.name_width_max, 23);

    assert_eq!(rep.padding_for("short"), 18);
    assert_eq!(rep.padding_for("a_rather_long_benchmark"), 0);
    assert_eq!(rep.padding_for("name_longer_than_the_column_is_wide"), 0);
}

#[test]
fn cpu_model_takes_first_model_name_line() {
    let listing = b"processor\t: 0\nmodel name\t: AMD Ryzen 7 5800X\nflags\t\t: fpu vme\nmodel name\t: other\n".to_vec();
    assert_eq!(cpu_model(&listing), Some(b"AMD Ryzen 7 5800X".to_vec()));
}

#[test]
fn cpu_model_trims_whitespace_and_handles_crlf() {
    let listing = b"model name\t:   Intel(R) Core(TM) i7  \r\nprocessor\t: 0\r\n".to_vec();
    assert_eq!(cpu_model(&listing), Some(b"Intel(R) Core(TM) i7".to_vec()));
}

#[test]
fn cpu_model_missing_line_or_colon() {
    // No model name line at all.
    assert_eq!(cpu_model(&b"processor\t: 0\nflags\t: fpu\n".to_vec()), None);
    // A model name line without a colon ends the scan empty-handed.
    assert_eq!(cpu_model(&b"model name\tno separator\n".to_vec()), None);
    // Empty listing.
    assert_eq!(cpu_model(&Vec::new()), None);
}

#[test]
fn brand_string_spells_registers_up_to_the_first_nul() {
    // "AMD " in one register, "XX" and a NUL in the next: the bytes
    // come least significant first and stop at the NUL.
    let regs = vec![0x2044_4D41u32, 0x0000_5858];
    assert_eq!(brand_string_bytes(&regs), b"AMD XX".to_vec());
    // A register of NULs ends the text immediately.
    assert_eq!(brand_string_bytes(&vec![0u32, 0x2044_4D41]), Vec::<u8>::new());
    assert_eq!(brand_string_bytes(&Vec::new()), Vec::<u8>::new());
}

#[test]
fn get_cpuinfo_carries_only_the_model() {
    let listing = b"model name\t: cpu0\n".to_vec();
    let info = get_cpuinfo(&listing);
    assert_eq!(info.cpu_model, Some(b"cpu0".to_vec()));
    assert_eq!(info.intel_turbo, None);
}
