use hwinfo::size::{appropriate_unit, format_size, BinaryUnit};

const KIB: u128 = 1 << 10;
const MIB: u128 = 1 << 20;
const GIB: u128 = 1 << 30;
const TIB: u128 = 1 << 40;
const PIB: u128 = 1 << 50;
const EIB: u128 = 1 << 60;
const ZIB: u128 = 1 << 70;

fn unit_size(name: &str) -> f64 {
    let bytes = match name {
        "B" => 1,
        "KiB" => KIB,
        "MiB" => MIB,
        "GiB" => GIB,
        "TiB" => TIB,
        "PiB" => PIB,
        "EiB" => EIB,
        "ZiB" => ZIB,
        other => panic!("unknown unit {other}"),
    };
    bytes as f64
}

/// Reads a formatted size back: the number, the unit's size, and the number
/// of digits after the point.
fn read_back(text: &str) -> (f64, f64, usize) {
    let (number, unit) = text.split_once(' ').unwrap();
    let (_, fraction) = number.split_once('.').unwrap();
    (number.parse::<f64>().unwrap(), unit_size(unit), fraction.len())
}

#[test]
fn sixteen_gibibytes() {
    assert_eq!(format_size(17179869184), "16.0 GiB");
}

#[test]
fn exact_powers_take_the_unit_they_reach() {
    assert_eq!(format_size(1024), "1.0 KiB");
    assert_eq!(format_size(1048576), "1.0 MiB");
    assert_eq!(format_size(1073741824), "1.0 GiB");
    assert_eq!(format_size(TIB), "1.0 TiB");
    assert_eq!(format_size(PIB), "1.0 PiB");
    assert_eq!(format_size(EIB), "1.0 EiB");
    assert_eq!(format_size(ZIB), "1.0 ZiB");
}

#[test]
fn zero_is_shown_in_bytes() {
    assert_eq!(format_size(0), "0.0 B");
}

#[test]
fn counts_under_1024_stay_in_bytes() {
    assert_eq!(format_size(1), "1.0 B");
    assert_eq!(format_size(512), "512.0 B");
    assert_eq!(format_size(1023), "1023.0 B");
}

#[test]
fn one_fractional_digit_is_kept() {
    assert_eq!(format_size(1536), "1.5 KiB");
    assert_eq!(format_size(8589934592), "8.0 GiB");
    assert_eq!(format_size(12 * GIB + 256 * MIB), "12.2 GiB");
    assert_eq!(format_size(1024 * 1024 - 1), "1024.0 KiB");
}

#[test]
fn the_largest_unit_takes_everything_above_it() {
    assert_eq!(format_size(1024 * ZIB), "1024.0 ZiB");
    assert_eq!(format_size(u128::MAX), "288230376151711744.0 ZiB");
    assert_eq!(format_size(u64::MAX as u128), "16.0 EiB");
}

#[test]
fn unit_is_the_largest_that_the_count_reaches() {
    let units = [
        (BinaryUnit::B, 1),
        (BinaryUnit::KiB, KIB),
        (BinaryUnit::MiB, MIB),
        (BinaryUnit::GiB, GIB),
        (BinaryUnit::TiB, TIB),
        (BinaryUnit::PiB, PIB),
        (BinaryUnit::EiB, EIB),
        (BinaryUnit::ZiB, ZIB),
    ];
    assert_eq!(appropriate_unit(0), BinaryUnit::B);
    for (i, (unit, size)) in units.iter().enumerate() {
        assert_eq!(appropriate_unit(*size), *unit);
        assert_eq!(appropriate_unit(*size + 1), *unit);
        if i > 0 {
            assert_eq!(appropriate_unit(*size - 1), units[i - 1].0);
        }
    }
    assert_eq!(appropriate_unit(u128::MAX), BinaryUnit::ZiB);
}

#[test]
fn formatted_size_reads_back_within_half_a_tenth_of_the_unit() {
    let mut counts: Vec<u128> = vec![0, 1, 999, 1023, 1024, 1025, 1536, 1073741824, 17179869184];
    let mut count: u128 = 1;
    while count < (1u128 << 90) {
        counts.push(count);
        counts.push(count + count / 3);
        counts.push(count * 7 / 5);
        count = count * 3 + 1;
    }
    for count in counts {
        let text = format_size(count);
        let (number, unit, digits) = read_back(&text);
        assert_eq!(digits, 1, "{text}");
        let error = (number * unit - count as f64).abs();
        assert!(error <= unit * 0.05 + count as f64 * 1e-12, "{count} as {text}");
        if unit > 1.0 {
            assert!(number >= 1.0, "{count} as {text}");
        }
    }
}
