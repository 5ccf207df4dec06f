//! Scenario tests for the decoder's stated properties: scaling,
//! zero-as-null, batch isolation, missing trailing fields, timestamp
//! tolerance, and each decode-error kind.
use rtquote::datetime::{parse_timestamp, DateTime};
use rtquote::decimal::{dec_mul_10k, parse_decimal, parse_i64, parse_volume, Decimal};
use rtquote::record::{DecodeErrorKind, DiagKind, FieldId, Severity};
use rtquote::tencent::Tencent;
use rtquote::RtData;

fn dec(mantissa: i64, scale: usize) -> Decimal {
    Decimal::new(mantissa, scale)
}

/// A full 52-token payload whose line decodes without any diagnostic.
fn clean_tokens() -> Vec<String> {
    let mut toks: Vec<String> = (0..52).map(|_| "1".to_string()).collect();
    toks[1] = "n".to_string();
    toks[30] = "20220419161403".to_string();
    toks
}

fn make_line(code: &str, toks: &[String]) -> String {
    format!("v_{}=\"{}\"", code, toks.join("~"))
}

#[test]
fn volume_round_trip_scaling() {
    assert_eq!(parse_volume("0"), Some(0));
    assert_eq!(parse_volume("821772"), Some(82177200));
    // a share count is never negative
    assert_eq!(parse_volume("-7"), None);
    assert_eq!(parse_volume("92233720368547758"), Some(9223372036854775800));
    // one unit more and the hundredfold scale leaves the machine range
    assert_eq!(parse_volume("92233720368547759"), None);
    assert_eq!(parse_volume(""), None);
    assert_eq!(parse_volume("12x"), None);
}

#[test]
fn integer_token_limits() {
    assert_eq!(parse_i64("9223372036854775807"), Some(9223372036854775807));
    assert_eq!(parse_i64("9223372036854775808"), None);
    assert_eq!(parse_i64("-15"), Some(-15));
    assert_eq!(parse_i64("1.5"), None);
    assert_eq!(parse_i64("-"), None);
}

#[test]
fn decimal_token_forms() {
    assert_eq!(parse_decimal("15.81"), Some(dec(1581, 2)));
    assert_eq!(parse_decimal("-0.09"), Some(dec(-9, 2)));
    assert_eq!(parse_decimal("0.0000"), Some(dec(0, 0)));
    assert_eq!(parse_decimal("20.70"), Some(dec(207, 1)));
    assert_eq!(parse_decimal("3."), Some(dec(3, 0)));
    assert_eq!(parse_decimal(".5"), Some(dec(5, 1)));
    assert_eq!(parse_decimal(""), None);
    assert_eq!(parse_decimal("-"), None);
    assert_eq!(parse_decimal("."), None);
    assert_eq!(parse_decimal("1.2.3"), None);
    assert_eq!(parse_decimal("1e5"), None);
    assert_eq!(parse_decimal("9223372036854775807"), Some(dec(9223372036854775807, 0)));
    assert_eq!(parse_decimal("9223372036854775808"), None);
}

#[test]
fn total_value_scaling() {
    assert_eq!(parse_decimal("129422.6951"), Some(dec(1294226951, 4)));
    assert_eq!(dec_mul_10k(dec(1294226951, 4)), Some(dec(1294226951, 0)));
    assert_eq!(dec_mul_10k(dec(129423, 0)), Some(dec(1294230000, 0)));
    assert_eq!(dec_mul_10k(dec(15, 1)), Some(dec(15000, 0)));
    assert_eq!(dec_mul_10k(dec(0, 0)), Some(dec(0, 0)));
    // ten thousand times the largest mantissa cannot be represented
    assert_eq!(dec_mul_10k(dec(9223372036854775807, 0)), None);
}

#[test]
fn zero_as_null_positions() {
    // a zero at the price_earnings position decodes to null
    let mut toks = clean_tokens();
    toks[39] = "0.0000".to_string();
    toks[44] = "0".to_string();
    toks[45] = "0.00".to_string();
    toks[46] = "0".to_string();
    let line = make_line("sz000001", &toks);
    let out = Tencent::parse(&line).unwrap();
    assert_eq!(out.record.pe, None);
    assert_eq!(out.record.traded_market_value, None);
    assert_eq!(out.record.market_value, None);
    assert_eq!(out.record.pb, None);
    // the zero normalization is a business rule, not a parse failure
    assert!(out.diagnostics.is_empty());
    // a non-zero value at the same positions stays
    let out2 = Tencent::parse(&make_line("sz000001", &clean_tokens())).unwrap();
    assert_eq!(out2.record.pe, Some(dec(1, 0)));
}

#[test]
fn batch_partial_isolation() {
    let good_a = make_line("a", &clean_tokens());
    let good_c = make_line("c", &clean_tokens());
    let body = format!("{};v_b=GARBAGE;{}", good_a, good_c);
    let batch = RtData::Tencent.init().format_response_data(&body);
    assert_eq!(batch.records.len(), 2);
    assert_eq!(batch.records[0].code, "a");
    assert_eq!(batch.records[1].code, "c");
    assert_eq!(batch.log.len(), 1);
    assert_eq!(batch.log[0].line, "b");
    assert_eq!(batch.log[0].severity, Severity::Error);
    assert_eq!(batch.log[0].kind, DiagKind::Rejected);
}

#[test]
fn batch_trims_and_skips_empty_pieces() {
    let good = make_line("a", &clean_tokens());
    let body = format!("  {} ;\n ; ", good);
    let batch = Tencent::new().format_response_data(&body);
    assert_eq!(batch.records.len(), 1);
    assert_eq!(batch.records[0].code, "a");
    assert!(batch.log.is_empty());
}

#[test]
fn batch_empty_body_is_no_error() {
    let batch = Tencent::new().format_response_data("");
    assert!(batch.records.is_empty());
    assert!(batch.log.is_empty());
}

#[test]
fn missing_trailing_fields_informational() {
    // only the three trailing optional fields are omitted
    let toks = clean_tokens()[..49].to_vec();
    let line = make_line("sh600000", &toks);
    let out = Tencent::parse(&line).unwrap();
    assert_eq!(out.record.quantity_relative_ratio, None);
    assert_eq!(out.record.entrust_different, None);
    assert_eq!(out.record.average_price, None);
    // required fields are still populated
    assert_eq!(out.record.now, dec(1, 0));
    assert_eq!(out.record.volume, 100);
    assert_eq!(out.diagnostics.len(), 3);
    for d in &out.diagnostics {
        assert_eq!(d.severity, Severity::Info);
        assert_eq!(d.kind, DiagKind::Absent);
        assert_eq!(d.line, "sh600000");
        assert_eq!(d.raw, "");
    }
    assert_eq!(out.diagnostics[0].field, Some(FieldId::QuantityRelativeRatio));
    assert_eq!(out.diagnostics[1].field, Some(FieldId::EntrustDifferent));
    assert_eq!(out.diagnostics[2].field, Some(FieldId::AveragePrice));
}

#[test]
fn timestamp_tolerance() {
    let mut toks = clean_tokens();
    toks[30] = "not-a-timestamp".to_string();
    let line = make_line("sh600036", &toks);
    let out = Tencent::parse(&line).unwrap();
    assert_eq!(out.record.datatime, None);
    // the record is still produced with all other fields populated
    assert_eq!(out.record.now, dec(1, 0));
    assert_eq!(out.record.low_limit, dec(1, 0));
    assert_eq!(out.diagnostics.len(), 1);
    assert_eq!(out.diagnostics[0].severity, Severity::Warning);
    assert_eq!(out.diagnostics[0].kind, DiagKind::Malformed);
    assert_eq!(out.diagnostics[0].field, Some(FieldId::Datatime));
    assert_eq!(out.diagnostics[0].raw, "not-a-timestamp");
}

#[test]
fn timestamp_fixed_pattern() {
    assert_eq!(
        parse_timestamp("20220419161403"),
        Some(DateTime { year: 2022, month: 4, day: 19, hour: 16, minute: 14, second: 3 })
    );
    assert_eq!(
        parse_timestamp("20200229120000"),
        Some(DateTime { year: 2020, month: 2, day: 29, hour: 12, minute: 0, second: 0 })
    );
    // 2022 is no leap year
    assert_eq!(parse_timestamp("20220229120000"), None);
    assert_eq!(parse_timestamp("20221332161403"), None);
    assert_eq!(parse_timestamp("2022041916140"), None);
    assert_eq!(parse_timestamp("202204191614030"), None);
    assert_eq!(parse_timestamp("20220419161460"), None);
    assert_eq!(parse_timestamp(""), None);
}

#[test]
fn decode_error_bad_prefix() {
    let e = Tencent::parse("x_a=\"1~n~1~1\"").unwrap_err();
    assert_eq!(e.kind, DecodeErrorKind::BadPrefix);
    assert_eq!(e.line, "x_a=\"1~n~1~1\"");
}

#[test]
fn decode_error_missing_separator() {
    let e = Tencent::parse("v_abc").unwrap_err();
    assert_eq!(e.kind, DecodeErrorKind::MissingSeparator);
    assert_eq!(e.line, "v_abc");
}

#[test]
fn decode_error_empty_code() {
    let e = Tencent::parse("v_=\"1~n~1\"").unwrap_err();
    assert_eq!(e.kind, DecodeErrorKind::EmptyCode);
}

#[test]
fn decode_error_missing_payload() {
    let e = Tencent::parse("v_b=GARBAGE").unwrap_err();
    assert_eq!(e.kind, DecodeErrorKind::MissingPayload);
    assert_eq!(e.line, "b");
}

#[test]
fn decode_error_required_absent() {
    let toks = clean_tokens()[..20].to_vec();
    let e = Tencent::parse(&make_line("a", &toks)).unwrap_err();
    assert_eq!(e.kind, DecodeErrorKind::RequiredAbsent);
    assert_eq!(e.field, Some(FieldId::Ask1Volume));
    assert_eq!(e.position, 20);
    assert_eq!(e.line, "a");
}

#[test]
fn decode_error_required_malformed() {
    let mut toks = clean_tokens();
    toks[3] = "abc".to_string();
    let e = Tencent::parse(&make_line("a", &toks)).unwrap_err();
    assert_eq!(e.kind, DecodeErrorKind::RequiredMalformed);
    assert_eq!(e.field, Some(FieldId::Now));
    assert_eq!(e.position, 3);
    assert_eq!(e.raw, "abc");
    // an empty required token is malformed too
    let mut toks2 = clean_tokens();
    toks2[6] = String::new();
    let e2 = Tencent::parse(&make_line("a", &toks2)).unwrap_err();
    assert_eq!(e2.kind, DecodeErrorKind::RequiredMalformed);
    assert_eq!(e2.field, Some(FieldId::Volume));
}

#[test]
fn malformed_optional_warns_and_continues() {
    let mut toks = clean_tokens();
    toks[38] = "x".to_string();
    let out = Tencent::parse(&make_line("a", &toks)).unwrap();
    assert_eq!(out.record.turnover, None);
    assert_eq!(out.diagnostics.len(), 1);
    assert_eq!(out.diagnostics[0].severity, Severity::Warning);
    assert_eq!(out.diagnostics[0].kind, DiagKind::Malformed);
    assert_eq!(out.diagnostics[0].field, Some(FieldId::Turnover));
    assert_eq!(out.diagnostics[0].raw, "x");
}

#[test]
fn name_preserved_byte_faithfully() {
    let mut toks = clean_tokens();
    toks[1] = "万  科Ａ".to_string();
    let out = Tencent::parse(&make_line("sz000002", &toks)).unwrap();
    assert_eq!(out.record.name, "万  科Ａ");
}
