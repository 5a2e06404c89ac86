use netspeed::util::{format_bytes, Unit, UNITS};

fn float_rendering(bytes: u64) -> String {
    let mut bytes = bytes as f64;
    let units = ["B", "KiB", "MiB", "GiB", "TiB"];
    let mut idx = 0;
    while bytes >= 1024f64 && idx < units.len() {
        idx += 1;
        bytes /= 1024f64;
    }
    format!("{} {}", bytes, units[idx])
}

fn rendering(bytes: u64) -> String {
    let unit = format_bytes(bytes);
    let mut scaled = bytes as f64;
    for _ in 0..unit.index {
        scaled /= 1024f64;
    }
    format!("{} {}", scaled, unit.name)
}

#[test]
fn there_are_five_units() {
    assert_eq!(UNITS, 5);
}

#[test]
fn counts_below_one_kib_are_shown_in_bytes() {
    for bytes in [0u64, 1, 10, 1000, 1023] {
        assert_eq!(format_bytes(bytes), Unit { index: 0, size: 1, name: "B" });
    }
}

#[test]
fn each_unit_begins_at_its_size() {
    let kib = Unit { index: 1, size: 1 << 10, name: "KiB" };
    let mib = Unit { index: 2, size: 1 << 20, name: "MiB" };
    let gib = Unit { index: 3, size: 1 << 30, name: "GiB" };
    let tib = Unit { index: 4, size: 1 << 40, name: "TiB" };
    assert_eq!(format_bytes(1024), kib);
    assert_eq!(format_bytes((1 << 20) - 1), kib);
    assert_eq!(format_bytes(1 << 20), mib);
    assert_eq!(format_bytes(1_048_577), mib);
    assert_eq!(format_bytes((1 << 30) - 1), mib);
    assert_eq!(format_bytes(1 << 30), gib);
    assert_eq!(format_bytes((1 << 40) - 1), gib);
    assert_eq!(format_bytes(1 << 40), tib);
    assert_eq!(format_bytes((1 << 50) - 1), tib);
}

#[test]
fn what_is_shown_is_below_1024() {
    for shift in 0..50u32 {
        for bytes in [1u64 << shift, (1u64 << shift) + 1, (2u64 << shift) - 1] {
            let unit = format_bytes(bytes);
            assert!(unit.index < UNITS);
            assert_eq!(unit.size, 1u64 << (10 * unit.index));
            assert!(bytes / unit.size < 1024);
            assert!(unit.index == 0 || bytes / unit.size >= 1);
        }
    }
}

#[test]
fn the_float_of_the_quotient_reads_as_expected() {
    assert_eq!(rendering(0), "0 B");
    assert_eq!(rendering(1023), "1023 B");
    assert_eq!(rendering(1024), "1 KiB");
    assert_eq!(rendering(1536), "1.5 KiB");
    assert_eq!(rendering(1025), "1.0009765625 KiB");
    assert_eq!(rendering(3 * 1_048_576), "3 MiB");
    assert_eq!(rendering(1_048_577), "1.0000009536743164 MiB");
    assert_eq!(rendering(1280 * 1_048_576), "1.25 GiB");
    assert_eq!(rendering(1 << 40), "1 TiB");
}

#[test]
fn the_unit_is_the_one_that_repeated_division_finds() {
    for shift in 0..50u32 {
        for bytes in [
            1u64 << shift,
            (1u64 << shift) + 1,
            (2u64 << shift) - 1,
            (1u64 << shift) + (1u64 << shift) / 3,
        ] {
            assert_eq!(rendering(bytes), float_rendering(bytes));
        }
    }
    for bytes in (0u64..5000).chain([65_535, 65_536, 999_999, 1_048_575, 1_048_577]) {
        assert_eq!(rendering(bytes), float_rendering(bytes));
    }
}
