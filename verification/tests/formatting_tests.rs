use blaze_app::formatting::{
    format_date, format_size, unknown_date_text, RelativeDate, SizeText, SizeUnit, EB, KB, MB, PB,
};

#[test]
fn size_zero_is_written_in_bytes() {
    assert_eq!(format_size(0), SizeText::Exact("0 B".to_string()));
}

#[test]
fn size_below_kilo_is_bytes() {
    assert_eq!(format_size(1), SizeText::Exact("1 B".to_string()));
    assert_eq!(format_size(999), SizeText::Exact("999 B".to_string()));
    assert_eq!(format_size(512), SizeText::Exact("512 B".to_string()));
}

#[test]
fn size_units_at_their_bounds() {
    assert_eq!(format_size(KB), SizeText::Scaled(SizeUnit::Kilo));
    assert_eq!(format_size(MB - 1), SizeText::Scaled(SizeUnit::Kilo));
    assert_eq!(format_size(MB), SizeText::Scaled(SizeUnit::Mega));
    assert_eq!(format_size(1_500_000), SizeText::Scaled(SizeUnit::Mega));
    assert_eq!(format_size(2_000_000_000), SizeText::Scaled(SizeUnit::Giga));
    assert_eq!(format_size(3_000_000_000_000), SizeText::Scaled(SizeUnit::Tera));
    assert_eq!(format_size(PB), SizeText::Scaled(SizeUnit::Peta));
    assert_eq!(format_size(EB - 1), SizeText::Scaled(SizeUnit::Peta));
    assert_eq!(format_size(EB), SizeText::Scaled(SizeUnit::Exa));
    assert_eq!(format_size(u64::MAX), SizeText::Scaled(SizeUnit::Exa));
}

#[test]
fn size_unit_divisors_and_labels() {
    assert_eq!(SizeUnit::Kilo.divisor(), 1000);
    assert_eq!(SizeUnit::Giga.divisor(), 1_000_000_000);
    assert_eq!(SizeUnit::Exa.divisor(), 1_000_000_000_000_000_000);
    assert_eq!(SizeUnit::Kilo.label(), "KB");
    assert_eq!(SizeUnit::Mega.label(), "MB");
    assert_eq!(SizeUnit::Peta.label(), "PB");
}

#[test]
fn scaled_quantity_lies_below_a_thousand() {
    let size: u64 = 999_999;
    if let SizeText::Scaled(u) = format_size(size) {
        assert!(size / u.divisor() < 1000);
        assert!(size / u.divisor() >= 1);
    } else {
        panic!("a size above a kilobyte is scaled");
    }
}

#[test]
fn date_buckets() {
    assert_eq!(format_date(100, 100), RelativeDate::Now);
    assert_eq!(format_date(0, 59), RelativeDate::Now);
    assert_eq!(format_date(0, 60), RelativeDate::Minutes(1));
    assert_eq!(format_date(0, 125), RelativeDate::Minutes(2));
    assert_eq!(format_date(0, 3599), RelativeDate::Minutes(59));
    assert_eq!(format_date(0, 3600), RelativeDate::Hours(1));
    assert_eq!(format_date(0, 86_399), RelativeDate::Hours(23));
    assert_eq!(format_date(0, 86_400), RelativeDate::Days(1));
    assert_eq!(format_date(0, 604_799), RelativeDate::Days(6));
    assert_eq!(format_date(0, 604_800), RelativeDate::Weeks(1));
    assert_eq!(format_date(0, 2_591_999), RelativeDate::Weeks(4));
    assert_eq!(format_date(0, 2_592_000), RelativeDate::Months(1));
    assert_eq!(format_date(0, 31_535_999), RelativeDate::Months(12));
    assert_eq!(format_date(0, 31_536_000 * 3), RelativeDate::Years(3));
}

#[test]
fn future_date_is_unknown() {
    assert_eq!(format_date(200, 100), RelativeDate::Unknown);
    assert_eq!(RelativeDate::Unknown.i18n_key(), None);
    assert_eq!(RelativeDate::Unknown.query(), None);
    assert_eq!(unknown_date_text(), "—");
}

#[test]
fn date_keys_and_queries() {
    assert_eq!(RelativeDate::Now.i18n_key(), Some("modified_date_formating.now"));
    assert_eq!(RelativeDate::Now.query(), None);
    assert_eq!(RelativeDate::Minutes(5).i18n_key(), Some("modified_date_formating.min"));
    assert_eq!(RelativeDate::Minutes(5).query(), Some(5));
    assert_eq!(RelativeDate::Hours(2).i18n_key(), Some("modified_date_formating.hour"));
    assert_eq!(RelativeDate::Days(3).i18n_key(), Some("modified_date_formating.day"));
    assert_eq!(RelativeDate::Weeks(1).i18n_key(), Some("modified_date_formating.week"));
    assert_eq!(RelativeDate::Months(7).i18n_key(), Some("modified_date_formating.month"));
    assert_eq!(RelativeDate::Years(2).i18n_key(), Some("modified_date_formating.year"));
    assert_eq!(RelativeDate::Years(2).query(), Some(2));
}

#[test]
fn older_file_never_looks_newer() {
    let now = 10_000_000;
    let newer = format_date(now - 100, now);
    let older = format_date(now - 100_000, now);
    assert_eq!(newer, RelativeDate::Minutes(1));
    assert_eq!(older, RelativeDate::Days(1));
}

use blaze_app::formatting::{legacy_age, LegacyAge};
use blaze_app::text::i32_to_decimal;

#[test]
fn legacy_age_buckets() {
    assert_eq!(legacy_age(5, 0, 0), LegacyAge::Minutes(5));
    assert_eq!(legacy_age(-3, 0, 0), LegacyAge::Minutes(-3));
    assert_eq!(legacy_age(60, 1, 0), LegacyAge::Hours(1));
    assert_eq!(legacy_age(60 * 30, 30, 1), LegacyAge::Days(1));
    assert_eq!(legacy_age(60 * 24 * 10, 24 * 10, 10), LegacyAge::Weeks(1));
    assert_eq!(legacy_age(60 * 24 * 40, 24 * 40, 40), LegacyAge::Months(1));
    assert_eq!(legacy_age(i32::MAX, i32::MAX, 400), LegacyAge::Unknown);
    assert_eq!(legacy_age(i32::MAX, i32::MAX, 800), LegacyAge::Years(2));
}

#[test]
fn legacy_age_phrases() {
    assert_eq!(LegacyAge::Minutes(5).text(), "Hace 5min");
    assert_eq!(LegacyAge::Minutes(-3).text(), "Hace -3min");
    assert_eq!(LegacyAge::Hours(2).text(), "Hace 2h");
    assert_eq!(LegacyAge::Days(3).text(), "Hace 3 dia/s");
    assert_eq!(LegacyAge::Weeks(1).text(), "Hace 1 semana/s");
    assert_eq!(LegacyAge::Months(11).text(), "Hace 11 mes/ses");
    assert_eq!(LegacyAge::Years(4).text(), "Hace 4 año/s");
    assert_eq!(LegacyAge::Unknown.text(), "desconocido");
}

#[test]
fn signed_decimals() {
    assert_eq!(i32_to_decimal(0), "0");
    assert_eq!(i32_to_decimal(-45), "-45");
    assert_eq!(i32_to_decimal(i32::MIN), "-2147483648");
    assert_eq!(i32_to_decimal(i32::MAX), "2147483647");
}
