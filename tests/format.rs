use pbar::{FormattedTime, FormattedUnit, TimeSpan};

const KIB: u64 = 1024;
const MIB: u64 = 1_048_576;
const GIB: u64 = 1_073_741_824;
const TIB: u64 = 1_099_511_627_776;

const KB: u64 = 1_000;
const MB: u64 = 1_000_000;
const GB: u64 = 1_000_000_000;
const TB: u64 = 1_000_000_000_000;

#[test]
fn test_unit_format() {
    let mut unit = FormattedUnit::Default(TB + 256 * GB);
    assert_eq!(String::from("1256000000000"), unit.to_string());
    unit = FormattedUnit::Default(2048 * MB);
    assert_eq!(String::from("2048000000"), unit.to_string());
    unit = FormattedUnit::Default(2 * MB + 256 * KB);
    assert_eq!(String::from("2256000"), unit.to_string());
    unit = FormattedUnit::Default(2 * KB + 512);
    assert_eq!(String::from("2512"), unit.to_string());
    unit = FormattedUnit::Default(999);
    assert_eq!(String::from("999"), unit.to_string());

    unit = FormattedUnit::Bytes(TIB + 256 * GIB);
    assert_eq!(String::from("1.2TiB"), unit.to_string());
    unit = FormattedUnit::Bytes(2048 * MIB);
    assert_eq!(String::from("2.0GiB"), unit.to_string());
    unit = FormattedUnit::Bytes(2 * MIB + 256 * KB);
    assert_eq!(String::from("2.2MiB"), unit.to_string());
    unit = FormattedUnit::Bytes(2 * KIB + 512);
    assert_eq!(String::from("2.5KiB"), unit.to_string());
    unit = FormattedUnit::Bytes(999);
    assert_eq!(String::from("999B"), unit.to_string());

    unit = FormattedUnit::BytesDec(TB + 256 * GB);
    assert_eq!(String::from("1.3TB"), unit.to_string());
    unit = FormattedUnit::BytesDec(2048 * MB);
    assert_eq!(String::from("2.0GB"), unit.to_string());
    unit = FormattedUnit::BytesDec(2 * MB + 256 * KB);
    assert_eq!(String::from("2.3MB"), unit.to_string());
    unit = FormattedUnit::BytesDec(2 * KB + 512);
    assert_eq!(String::from("2.5KB"), unit.to_string());
    unit = FormattedUnit::BytesDec(999);
    assert_eq!(String::from("999B"), unit.to_string());
}

#[test]
fn test_time_format() {
    let mut time = FormattedTime::Fmt1(TimeSpan::new(30, 0));
    assert_eq!(String::from("00:30"), time.to_string());
    time = FormattedTime::Fmt1(TimeSpan::new(90, 0));
    assert_eq!(String::from("01:30"), time.to_string());
    time = FormattedTime::Fmt1(TimeSpan::new(3690, 0));
    assert_eq!(String::from("01:01:30"), time.to_string());
    time = FormattedTime::Fmt1(TimeSpan::new(90090, 0));
    assert_eq!(String::from("1d:01:01:30"), time.to_string());

    time = FormattedTime::Fmt2(TimeSpan::new(30, 0));
    assert_eq!(String::from("30s"), time.to_string());
    time = FormattedTime::Fmt2(TimeSpan::new(90, 0));
    assert_eq!(String::from("1m30s"), time.to_string());
    time = FormattedTime::Fmt2(TimeSpan::new(3690, 0));
    assert_eq!(String::from("1h1m30s"), time.to_string());
    time = FormattedTime::Fmt2(TimeSpan::new(90090, 0));
    assert_eq!(String::from("1d1h1m30s"), time.to_string());
}

#[test]
fn two_and_a_half_kib_and_a_day_and_a_half_hour() {
    assert_eq!(FormattedUnit::Bytes(2 * 1024 + 512).to_string(), "2.5KiB");
    assert_eq!(FormattedTime::Fmt2(TimeSpan::new(90090, 0)).to_string(), "1d1h1m30s");
}

#[test]
fn units_round_half_to_even() {
    // 1.25 TiB and 2.25 KB sit on a tie and go to the even tenth.
    assert_eq!(FormattedUnit::Bytes(TIB + TIB / 4).to_string(), "1.2TiB");
    assert_eq!(FormattedUnit::BytesDec(2_250).to_string(), "2.2KB");
    assert_eq!(FormattedUnit::BytesDec(2_350).to_string(), "2.4KB");
    // 1.5 KiB rounds to itself; just under a unit stays in the smaller one.
    assert_eq!(FormattedUnit::Bytes(1_536).to_string(), "1.5KiB");
    assert_eq!(FormattedUnit::Bytes(1_023).to_string(), "1023B");
    assert_eq!(FormattedUnit::BytesDec(999_999).to_string(), "1000.0KB");
}

#[test]
fn units_at_the_edges() {
    assert_eq!(FormattedUnit::Default(0).to_string(), "0");
    assert_eq!(FormattedUnit::Bytes(0).to_string(), "0B");
    assert_eq!(FormattedUnit::Default(u64::MAX).to_string(), "18446744073709551615");
    assert_eq!(FormattedUnit::Bytes(KIB).to_string(), "1.0KiB");
    assert_eq!(FormattedUnit::BytesDec(KB).to_string(), "1.0KB");
}

#[test]
fn times_at_the_edges() {
    assert_eq!(FormattedTime::Fmt1(TimeSpan::zero()).to_string(), "00:00");
    assert_eq!(FormattedTime::Fmt2(TimeSpan::zero()).to_string(), "0s");
    assert_eq!(FormattedTime::Fmt2(TimeSpan::new(3600, 0)).to_string(), "1h0m0s");
    assert_eq!(FormattedTime::Fmt2(TimeSpan::new(86400 + 5, 0)).to_string(), "1d0h0m5s");
    // sub-second parts are dropped
    assert_eq!(FormattedTime::Fmt1(TimeSpan::new(59, 999_999_999)).to_string(), "00:59");
    assert_eq!(FormattedTime::Fmt1(TimeSpan::new(1234 * 86400 + 10, 0)).to_string(), "1234d:00:00:10");
}
