use qsl_record::adif::{adif_generate_header, adif_generate_line};
use qsl_record::band::{classify_band, BandError};
use qsl_record::column::{compare_text, UIColumn};
use qsl_record::record::{string_parser, year_string, Mode, Timestamp, QSL};
use qsl_record::text::{decimal_string, zero_padded_string};
use std::cmp::Ordering;

fn stamp(year: i32, month: u32, day: u32, hour: u32, minute: u32) -> Timestamp {
    Timestamp::new(year, month, day, hour, minute).unwrap()
}

fn record(mode: Mode, freq: Option<&str>) -> QSL {
    QSL {
        id: 0,
        call_number: "BA1ABC".to_string(),
        mode,
        freq: freq.map(|f| f.to_string()),
        datetime: stamp(2024, 7, 1, 12, 34),
        rst_me: None,
        qth_me: None,
        rig_me: None,
        watt_me: None,
        ant_me: None,
        rst_counterpart: None,
        qth_counterpart: None,
        rig_counterpart: None,
        watt_counterpart: None,
        ant_counterpart: None,
        note: None,
    }
}

fn band(freq: &str) -> Result<&'static str, BandError> {
    classify_band(&Some(freq.to_string()))
}

#[test]
fn band_missing_frequency() {
    assert_eq!(classify_band(&None), Err(BandError::MissingFrequency));
}

#[test]
fn band_malformed_frequency() {
    assert_eq!(band("abc/14.0"), Err(BandError::MalformedFrequency));
    assert_eq!(band(""), Err(BandError::MalformedFrequency));
    assert_eq!(band("."), Err(BandError::MalformedFrequency));
    assert_eq!(band("1.2.3"), Err(BandError::MalformedFrequency));
    assert_eq!(band("14,0"), Err(BandError::MalformedFrequency));
    assert_eq!(band("/14.0"), Err(BandError::MalformedFrequency));
}

#[test]
fn band_inside_ranges() {
    assert_eq!(band("14.070/USB"), Ok("20m"));
    assert_eq!(band("0.1365"), Ok("2190m"));
    assert_eq!(band("0.475"), Ok("630m"));
    assert_eq!(band(".502"), Ok("560m"));
    assert_eq!(band("1.9"), Ok("160m"));
    assert_eq!(band("3.7"), Ok("80m"));
    assert_eq!(band("5.3"), Ok("60m"));
    assert_eq!(band("7.1"), Ok("40m"));
    assert_eq!(band("10.12"), Ok("30m"));
    assert_eq!(band("18.1"), Ok("17m"));
    assert_eq!(band("21.2"), Ok("15m"));
    assert_eq!(band("24.9"), Ok("12m"));
    assert_eq!(band("28.5"), Ok("10m"));
    assert_eq!(band("42"), Ok("8m"));
    assert_eq!(band("50.1"), Ok("6m"));
    assert_eq!(band("60"), Ok("5m"));
    assert_eq!(band("70.5"), Ok("4m"));
    assert_eq!(band("145.5"), Ok("2m"));
    assert_eq!(band("223"), Ok("1.25m"));
    assert_eq!(band("435"), Ok("70cm"));
    assert_eq!(band("915"), Ok("33cm"));
    assert_eq!(band("1296"), Ok("23cm"));
    assert_eq!(band("2400"), Ok("13cm"));
    assert_eq!(band("3400"), Ok("9cm"));
    assert_eq!(band("5760"), Ok("6cm"));
    assert_eq!(band("10368"), Ok("3cm"));
    assert_eq!(band("24048"), Ok("1.25cm"));
    assert_eq!(band("47088"), Ok("6mm"));
    assert_eq!(band("77500"), Ok("4mm"));
    assert_eq!(band("122250"), Ok("2.5mm"));
    assert_eq!(band("142000"), Ok("2mm"));
    assert_eq!(band("245000"), Ok("1mm"));
    assert_eq!(band("400000"), Ok("submm"));
    assert_eq!(band("+14.1"), Ok("20m"));
    assert_eq!(band("14."), Ok("20m"));
}

#[test]
fn band_boundaries_included() {
    assert_eq!(band("14.0"), Ok("20m"));
    assert_eq!(band("14.35"), Ok("20m"));
    assert_eq!(band("14.350000000"), Ok("20m"));
    assert_eq!(band("0.1357"), Ok("2190m"));
    assert_eq!(band("7500000"), Ok("submm"));
    assert_eq!(band("54.0"), Ok("6m"));
    assert_eq!(band("54.000001"), Ok("5m"));
}

#[test]
fn band_gap_above_six_metres() {
    // between 54.0 and 54.000001 MHz no band is listed
    assert_eq!(
        band("54.0000005"),
        Err(BandError::UnclassifiedFrequency { token: "54.0000005".to_string() })
    );
}

#[test]
fn band_unclassified_keeps_token() {
    assert_eq!(
        band("3.0/LSB"),
        Err(BandError::UnclassifiedFrequency { token: "3.0".to_string() })
    );
    assert_eq!(
        band("14.3500001"),
        Err(BandError::UnclassifiedFrequency { token: "14.3500001".to_string() })
    );
    assert_eq!(
        band("-14.0"),
        Err(BandError::UnclassifiedFrequency { token: "-14.0".to_string() })
    );
    assert_eq!(
        band("99999999999999999999"),
        Err(BandError::UnclassifiedFrequency { token: "99999999999999999999".to_string() })
    );
}

#[test]
fn band_is_repeatable() {
    assert_eq!(band("7.074/FT8"), band("7.074/FT8"));
}

#[test]
fn adif_line_counts_bytes() {
    assert_eq!(adif_generate_line("CALL", "BA1ABC"), "<CALL:6>BA1ABC ");
    assert_eq!(adif_generate_line("NOTES", "é"), "<NOTES:2>é ");
    assert_eq!(adif_generate_line("NOTES", ""), "<NOTES:0> ");
    let long = "x".repeat(123);
    assert_eq!(adif_generate_line("QTH", &long), format!("<QTH:123>{} ", long));
}

#[test]
fn adif_header_block() {
    let header = adif_generate_header(&stamp(2024, 7, 1, 9, 5));
    assert_eq!(
        header,
        "<ADIF_VER:5>3.1.4 \n<PROGRAMID:24>BenderBlo1g qsl_recorder \n<PROGRAMVERSION:16>Rolling-20240728 \n<CREATED_TIMESTAMP:15>20240701 090500 \n<EOH>\n"
    );
}

#[test]
fn adif_eyeball_record_is_empty() {
    assert_eq!(record(Mode::EYEBALL, Some("14.070")).fmt_adif(), "");
    assert_eq!(record(Mode::OTHER, Some("14.070")).fmt_adif(), "");
}

#[test]
fn adif_cw_record() {
    let q = record(Mode::CW, Some("14.070/USB"));
    let block = q.fmt_adif();
    assert!(block.starts_with(
        "<CALL:6>BA1ABC <MODE:2>CW <QSO_DATE:8>20240701 <TIME_ON:4>1234 <BAND:3>20m "
    ));
    assert!(block.ends_with("<EOR>\n"));
    assert_eq!(
        block,
        "<CALL:6>BA1ABC <MODE:2>CW <QSO_DATE:8>20240701 <TIME_ON:4>1234 <BAND:3>20m <FREQ:10>14.070/USB <EOR>\n"
    );
}

#[test]
fn adif_all_fields_in_order() {
    let mut q = record(Mode::FTB, Some("7.074"));
    q.rst_me = Some("-10".to_string());
    q.rst_counterpart = Some("-12".to_string());
    q.qth_me = Some("Beijing".to_string());
    q.qth_counterpart = Some("Tokyo".to_string());
    q.rig_me = Some("IC-705".to_string());
    q.rig_counterpart = Some("FT-991".to_string());
    q.watt_me = Some("5".to_string());
    q.watt_counterpart = Some("100".to_string());
    q.ant_me = Some("EFHW".to_string());
    q.ant_counterpart = Some("Yagi".to_string());
    q.note = Some("first".to_string());
    assert_eq!(
        q.fmt_adif(),
        "<CALL:6>BA1ABC <MODE:3>FTB <QSO_DATE:8>20240701 <TIME_ON:4>1234 <BAND:3>40m <FREQ:5>7.074 \
<RST_SENT:3>-10 <RST_RCVD:3>-12 <MY_QTH:7>Beijing <QTH:5>Tokyo <MY_RIG:6>IC-705 <RIG:6>FT-991 \
<TX_PWR:1>5 <RX_PWR:3>100 <MY_ANT:4>EFHW <ANT:4>Yagi <NOTES:5>first <EOR>\n"
    );
}

#[test]
fn adif_band_left_out_when_unclassified() {
    let q = record(Mode::SSB, Some("3.0"));
    assert_eq!(
        q.fmt_adif(),
        "<CALL:6>BA1ABC <MODE:3>SSB <QSO_DATE:8>20240701 <TIME_ON:4>1234 <FREQ:3>3.0 <EOR>\n"
    );
    let none = record(Mode::FM, None);
    assert_eq!(
        none.fmt_adif(),
        "<CALL:6>BA1ABC <MODE:2>FM <QSO_DATE:8>20240701 <TIME_ON:4>1234 <EOR>\n"
    );
}

#[test]
fn typst_record_literal() {
    let mut q = record(Mode::FM, Some("145.5"));
    q.watt_me = Some("5".to_string());
    q.note = Some("hi".to_string());
    assert_eq!(
        q.fmt_typst(),
        "(\n  call_number: \"BA1ABC\",\n  mode: \"FM\",\n  freq: \"145.5\",\n  date: \"2024-07-01\",\n  time: \"12:34\",\n  rst_me: \"\",\n  qth_me: \"\",\n  rig_me: \"\",\n  watt_me: \"5\",\n  ant_me: \"\",\n  rst_counterpart: \"\",\n  qth_counterpart: \"\",\n  rig_counterpart: \"\",\n  watt_counterpart: \"\",\n  ant_counterpart: \"\",\n  note: \"hi\",\n),"
    );
}

#[test]
fn decimal_and_padding() {
    assert_eq!(decimal_string(0), "0");
    assert_eq!(decimal_string(9), "9");
    assert_eq!(decimal_string(10), "10");
    assert_eq!(decimal_string(18446744073709551615), "18446744073709551615");
    assert_eq!(zero_padded_string(7, 2), "07");
    assert_eq!(zero_padded_string(2024, 4), "2024");
    assert_eq!(zero_padded_string(123456, 4), "123456");
    assert_eq!(zero_padded_string(0, 0), "0");
}

#[test]
fn years_outside_four_digits() {
    assert_eq!(year_string(812), "0812");
    assert_eq!(year_string(-1), "-0001");
    assert_eq!(year_string(12345), "+12345");
}

#[test]
fn timestamp_validation() {
    assert!(Timestamp::new(2024, 2, 29, 0, 0).is_some());
    assert!(Timestamp::new(2023, 2, 29, 0, 0).is_none());
    assert!(Timestamp::new(1900, 2, 29, 0, 0).is_none());
    assert!(Timestamp::new(2000, 2, 29, 0, 0).is_some());
    assert!(Timestamp::new(2024, 13, 1, 0, 0).is_none());
    assert!(Timestamp::new(2024, 4, 31, 0, 0).is_none());
    assert!(Timestamp::new(2024, 1, 0, 0, 0).is_none());
    assert!(Timestamp::new(2024, 1, 1, 24, 0).is_none());
    assert!(Timestamp::new(2024, 1, 1, 23, 60).is_none());
    assert_eq!(stamp(2024, 7, 1, 8, 5).full_text_string(), "2024-07-01 08:05:00");
}

#[test]
fn mode_codes_round_trip() {
    for m in [Mode::EYEBALL, Mode::FM, Mode::SSB, Mode::CW, Mode::FTB, Mode::OTHER] {
        assert_eq!(Mode::from_code(m.code()), m);
    }
    assert_eq!(Mode::from_code(99), Mode::OTHER);
    assert_eq!(Mode::from_code(-1), Mode::OTHER);
    assert_eq!(Mode::CW.code(), 3);
    assert_eq!(Mode::FTB.name(), "FTB");
}

#[test]
fn blank_entry_is_no_value() {
    assert_eq!(string_parser(&String::new()), None);
    assert_eq!(string_parser(&"5".to_string()), Some("5".to_string()));
}

#[test]
fn table_columns() {
    assert_eq!(UIColumn::Callsign.as_str(), "Callsign");
    assert_eq!(UIColumn::Mode.as_str(), "Mode");
    assert_eq!(UIColumn::Datetime.as_str(), "Datetime");
    assert_eq!(UIColumn::Note.as_str(), "Note");
    let mut a = record(Mode::CW, None);
    a.note = Some("b".to_string());
    let mut b = record(Mode::SSB, None);
    b.call_number = "AB1C".to_string();
    b.datetime = stamp(2024, 6, 30, 23, 59);
    assert_eq!(a.to_column(UIColumn::Note), "b");
    assert_eq!(b.to_column(UIColumn::Note), "");
    assert_eq!(a.to_column(UIColumn::Mode), "CW");
    assert_eq!(a.to_column(UIColumn::Datetime), "2024-07-01 12:34:00");
    assert_eq!(a.cmp(&b, UIColumn::Note), Ordering::Greater);
    assert_eq!(a.cmp(&b, UIColumn::Callsign), Ordering::Greater);
    assert_eq!(a.cmp(&b, UIColumn::Mode), Ordering::Less);
    assert_eq!(a.cmp(&b, UIColumn::Datetime), Ordering::Greater);
    assert_eq!(a.cmp(&a.clone(), UIColumn::Datetime), Ordering::Equal);
}

#[test]
fn text_order_is_dictionary_order() {
    assert_eq!(compare_text("abc", "abd"), Ordering::Less);
    assert_eq!(compare_text("ab", "abc"), Ordering::Less);
    assert_eq!(compare_text("b", "abc"), Ordering::Greater);
    assert_eq!(compare_text("", ""), Ordering::Equal);
    assert_eq!(compare_text("é", "z"), Ordering::Greater);
}

#[test]
fn band_refuses_scientific_notation() {
    assert_eq!(band("1.4e1"), Err(BandError::MalformedFrequency));
    assert_eq!(band("inf"), Err(BandError::MalformedFrequency));
}
