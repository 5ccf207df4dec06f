//! Decoder for the vendor's quote responses: one line per instrument,
//! `v_<code>="<token>~<token>~...~"`, split on tildes and mapped by
//! fixed positions into a record.
use vstd::prelude::*;

use crate::datetime::{parse_timestamp, ts_of, ts_token_valid, DateTime};
use crate::decimal::{
    dec_mul_10k, dec_of, dec_token_valid, parse_decimal, parse_volume, scale10k, scale10k_valid,
    vol_token_valid, vol_token_value, Decimal,
};
use crate::record::{
    diag_views, field_pos, record_views, DecodeError, DecodeErrorKind, DecodeErrorView, DiagKind,
    DiagView, Diagnostic, FieldId, ItemData, ItemDataView, Severity,
};
use crate::text::{find_char, find_spec, lemma_find_spec, split_spec, split_str, trim_spec, trim_str};
use vstd::string::*;

verus! {

/// The vendor's quote decoder.
#[derive(Clone, Copy, Debug, PartialEq, Eq, Structural)]
pub struct Tencent {}

/// One decoded line: the record and the soft diagnostics its optional
/// fields produced.
#[derive(Debug)]
pub struct DecodedLine {
    pub record: ItemData,
    pub diagnostics: Vec<Diagnostic>,
}

/// One decoded response body: the records in input order and the
/// diagnostic log.
#[derive(Debug)]
pub struct Batch {
    pub records: Vec<ItemData>,
    pub log: Vec<Diagnostic>,
}

/// Whether the line starts with the vendor prefix mark.
pub open spec fn has_prefix(s: Seq<char>) -> bool {
    s.len() >= 2 && s[0] == 'v' && s[1] == '_'
}

/// Position of the separator between identifier and payload.
pub open spec fn code_end(s: Seq<char>) -> Option<int> {
    find_spec(s, '=')
}

/// The instrument identifier between the prefix mark and the separator.
pub open spec fn code_of(s: Seq<char>) -> Seq<char> {
    s.subrange(2, code_end(s)->0)
}

/// Whether a quoted payload follows the separator and closes the line.
pub open spec fn payload_ok(s: Seq<char>) -> bool {
    let e = code_end(s)->0;
    &&& e + 2 < s.len()
    &&& s[e + 1] == '"'
    &&& s[s.len() - 1] == '"'
}

/// The payload's tokens, split on the tilde delimiter.
pub open spec fn line_tokens(s: Seq<char>) -> Seq<Seq<char>> {
    let e = code_end(s)->0;
    split_spec(s.subrange(e + 2, s.len() - 1), '~')
}

/// The token at a field's position.
pub open spec fn token_at(toks: Seq<Seq<char>>, f: FieldId) -> Seq<char> {
    toks[field_pos(f)]
}

/// Whether a field's position lies within the line's tokens.
pub open spec fn present(toks: Seq<Seq<char>>, f: FieldId) -> bool {
    field_pos(f) < toks.len()
}

/// A required text field: present and non-empty.
pub open spec fn req_text_ok(toks: Seq<Seq<char>>, f: FieldId) -> bool {
    present(toks, f) && token_at(toks, f).len() > 0
}

/// A required decimal field: present and a valid decimal token.
pub open spec fn req_dec_ok(toks: Seq<Seq<char>>, f: FieldId) -> bool {
    present(toks, f) && dec_token_valid(token_at(toks, f))
}

/// A required volume field: present and a valid volume token.
pub open spec fn req_vol_ok(toks: Seq<Seq<char>>, f: FieldId) -> bool {
    present(toks, f) && vol_token_valid(token_at(toks, f))
}

/// The market-total field: present, a valid decimal token, and still
/// in range after the ten-thousandfold scale.
pub open spec fn req_total_ok(toks: Seq<Seq<char>>, f: FieldId) -> bool {
    present(toks, f) && dec_token_valid(token_at(toks, f)) && scale10k_valid(
        dec_of(token_at(toks, f)),
    )
}

/// The decimal a required field decodes to.
pub open spec fn dec_val(toks: Seq<Seq<char>>, f: FieldId) -> Decimal {
    dec_of(token_at(toks, f))
}

/// The share count a volume field decodes to.
pub open spec fn vol_val(toks: Seq<Seq<char>>, f: FieldId) -> int {
    vol_token_value(token_at(toks, f))
}

/// The scaled market total the total field decodes to.
pub open spec fn total_val(toks: Seq<Seq<char>>, f: FieldId) -> Decimal {
    scale10k(dec_of(token_at(toks, f)))
}

/// An optional decimal field: a value when present and valid, null
/// otherwise.
pub open spec fn opt_dec_val(toks: Seq<Seq<char>>, f: FieldId) -> Option<Decimal> {
    if req_dec_ok(toks, f) {
        Some(dec_val(toks, f))
    } else {
        None
    }
}

/// An optional decimal field under the vendor's zero-means-absent
/// convention: an exact zero is normalized to null after parsing.
pub open spec fn opt_zero_val(toks: Seq<Seq<char>>, f: FieldId) -> Option<Decimal> {
    if req_dec_ok(toks, f) && dec_val(toks, f).mantissa != 0 {
        Some(dec_val(toks, f))
    } else {
        None
    }
}

/// The optional timestamp field: a value when present and matching the
/// fixed pattern, null otherwise.
pub open spec fn opt_ts_val(toks: Seq<Seq<char>>, f: FieldId) -> Option<DateTime> {
    if present(toks, f) && ts_token_valid(token_at(toks, f)) {
        Some(ts_of(token_at(toks, f)))
    } else {
        None
    }
}

/// The informational entry for an absent optional field.
pub open spec fn absent_diag(code: Seq<char>, f: FieldId) -> DiagView {
    DiagView {
        line: code,
        field: Some(f),
        severity: Severity::Info,
        kind: DiagKind::Absent,
        raw: Seq::empty(),
    }
}

/// The warning entry for a malformed optional field.
pub open spec fn malformed_diag(code: Seq<char>, f: FieldId, raw: Seq<char>) -> DiagView {
    DiagView {
        line: code,
        field: Some(f),
        severity: Severity::Warning,
        kind: DiagKind::Malformed,
        raw,
    }
}

/// The log entries an optional numeric field contributes: one entry
/// when absent or malformed, none otherwise.
pub open spec fn opt_num_diags(toks: Seq<Seq<char>>, f: FieldId, code: Seq<char>) -> Seq<DiagView> {
    if !present(toks, f) {
        seq![absent_diag(code, f)]
    } else if !dec_token_valid(token_at(toks, f)) {
        seq![malformed_diag(code, f, token_at(toks, f))]
    } else {
        Seq::empty()
    }
}

/// The log entries the timestamp field contributes.
pub open spec fn opt_ts_diags(toks: Seq<Seq<char>>, f: FieldId, code: Seq<char>) -> Seq<DiagView> {
    if !present(toks, f) {
        seq![absent_diag(code, f)]
    } else if !ts_token_valid(token_at(toks, f)) {
        seq![malformed_diag(code, f, token_at(toks, f))]
    } else {
        Seq::empty()
    }
}

/// A line-level rejection that is not tied to one field.
pub open spec fn line_reject(kind: DecodeErrorKind, line: Seq<char>) -> DecodeErrorView {
    DecodeErrorView { kind, line, field: None, position: 0, raw: Seq::empty() }
}

/// The error a failing required field raises: absent or malformed,
/// with its position and, when present, the offending token.
pub open spec fn req_err(toks: Seq<Seq<char>>, f: FieldId, code: Seq<char>) -> DecodeErrorView {
    if !present(toks, f) {
        DecodeErrorView {
            kind: DecodeErrorKind::RequiredAbsent,
            line: code,
            field: Some(f),
            position: field_pos(f),
            raw: Seq::empty(),
        }
    } else {
        DecodeErrorView {
            kind: DecodeErrorKind::RequiredMalformed,
            line: code,
            field: Some(f),
            position: field_pos(f),
            raw: token_at(toks, f),
        }
    }
}

/// Why the line fails to decode, or nothing when it decodes: the
/// shape checks first, then the required fields in position order.
#[verifier::opaque]
pub open spec fn line_err(s: Seq<char>) -> Option<DecodeErrorView> {
    if !has_prefix(s) {
        Some(line_reject(DecodeErrorKind::BadPrefix, s))
    } else if code_end(s) is None {
        Some(line_reject(DecodeErrorKind::MissingSeparator, s))
    } else if code_end(s)->0 == 2 {
        Some(line_reject(DecodeErrorKind::EmptyCode, s))
    } else if !payload_ok(s) {
        Some(line_reject(DecodeErrorKind::MissingPayload, code_of(s)))
    } else {
        let toks = line_tokens(s);
        let code = code_of(s);
        if !req_text_ok(toks, FieldId::Name) {
            Some(req_err(toks, FieldId::Name, code))
        } else if !req_dec_ok(toks, FieldId::Now) {
            Some(req_err(toks, FieldId::Now, code))
        } else if !req_dec_ok(toks, FieldId::Close) {
            Some(req_err(toks, FieldId::Close, code))
        } else if !req_dec_ok(toks, FieldId::Open) {
            Some(req_err(toks, FieldId::Open, code))
        } else if !req_vol_ok(toks, FieldId::Volume) {
            Some(req_err(toks, FieldId::Volume, code))
        } else if !req_vol_ok(toks, FieldId::BidVolume) {
            Some(req_err(toks, FieldId::BidVolume, code))
        } else if !req_vol_ok(toks, FieldId::AskVolume) {
            Some(req_err(toks, FieldId::AskVolume, code))
        } else if !req_dec_ok(toks, FieldId::Bid1) {
            Some(req_err(toks, FieldId::Bid1, code))
        } else if !req_vol_ok(toks, FieldId::Bid1Volume) {
            Some(req_err(toks, FieldId::Bid1Volume, code))
        } else if !req_dec_ok(toks, FieldId::Bid2) {
            Some(req_err(toks, FieldId::Bid2, code))
        } else if !req_vol_ok(toks, FieldId::Bid2Volume) {
            Some(req_err(toks, FieldId::Bid2Volume, code))
        } else if !req_dec_ok(toks, FieldId::Bid3) {
            Some(req_err(toks, FieldId::Bid3, code))
        } else if !req_vol_ok(toks, FieldId::Bid3Volume) {
            Some(req_err(toks, FieldId::Bid3Volume, code))
        } else if !req_dec_ok(toks, FieldId::Bid4) {
            Some(req_err(toks, FieldId::Bid4, code))
        } else if !req_vol_ok(toks, FieldId::Bid4Volume) {
            Some(req_err(toks, FieldId::Bid4Volume, code))
        } else if !req_dec_ok(toks, FieldId::Bid5) {
            Some(req_err(toks, FieldId::Bid5, code))
        } else if !req_vol_ok(toks, FieldId::Bid5Volume) {
            Some(req_err(toks, FieldId::Bid5Volume, code))
        } else if !req_dec_ok(toks, FieldId::Ask1) {
            Some(req_err(toks, FieldId::Ask1, code))
        } else if !req_vol_ok(toks, FieldId::Ask1Volume) {
            Some(req_err(toks, FieldId::Ask1Volume, code))
        } else if !req_dec_ok(toks, FieldId::Ask2) {
            Some(req_err(toks, FieldId::Ask2, code))
        } else if !req_vol_ok(toks, FieldId::Ask2Volume) {
            Some(req_err(toks, FieldId::Ask2Volume, code))
        } else if !req_dec_ok(toks, FieldId::Ask3) {
            Some(req_err(toks, FieldId::Ask3, code))
        } else if !req_vol_ok(toks, FieldId::Ask3Volume) {
            Some(req_err(toks, FieldId::Ask3Volume, code))
        } else if !req_dec_ok(toks, FieldId::Ask4) {
            Some(req_err(toks, FieldId::Ask4, code))
        } else if !req_vol_ok(toks, FieldId::Ask4Volume) {
            Some(req_err(toks, FieldId::Ask4Volume, code))
        } else if !req_dec_ok(toks, FieldId::Ask5) {
            Some(req_err(toks, FieldId::Ask5, code))
        } else if !req_vol_ok(toks, FieldId::Ask5Volume) {
            Some(req_err(toks, FieldId::Ask5Volume, code))
        } else if !req_dec_ok(toks, FieldId::GainAmout) {
            Some(req_err(toks, FieldId::GainAmout, code))
        } else if !req_dec_ok(toks, FieldId::GainPercentage) {
            Some(req_err(toks, FieldId::GainPercentage, code))
        } else if !req_dec_ok(toks, FieldId::High) {
            Some(req_err(toks, FieldId::High, code))
        } else if !req_dec_ok(toks, FieldId::Low) {
            Some(req_err(toks, FieldId::Low, code))
        } else if !req_total_ok(toks, FieldId::TotalValue) {
            Some(req_err(toks, FieldId::TotalValue, code))
        } else if !req_dec_ok(toks, FieldId::Amplitude) {
            Some(req_err(toks, FieldId::Amplitude, code))
        } else if !req_dec_ok(toks, FieldId::HighLimit) {
            Some(req_err(toks, FieldId::HighLimit, code))
        } else if !req_dec_ok(toks, FieldId::LowLimit) {
            Some(req_err(toks, FieldId::LowLimit, code))
        } else {
            None
        }
    }
}

/// The record a decodable line denotes.
#[verifier::opaque]
pub open spec fn record_spec(s: Seq<char>) -> ItemDataView {
    let toks = line_tokens(s);
    ItemDataView {
        code: code_of(s),
        name: token_at(toks, FieldId::Name),
        now: dec_val(toks, FieldId::Now),
        close: dec_val(toks, FieldId::Close),
        open: dec_val(toks, FieldId::Open),
        volume: vol_val(toks, FieldId::Volume) as i64,
        bid_volume: vol_val(toks, FieldId::BidVolume) as i64,
        ask_volume: vol_val(toks, FieldId::AskVolume) as i64,
        bid1: dec_val(toks, FieldId::Bid1),
        bid1_volume: vol_val(toks, FieldId::Bid1Volume) as i64,
        bid2: dec_val(toks, FieldId::Bid2),
        bid2_volume: vol_val(toks, FieldId::Bid2Volume) as i64,
        bid3: dec_val(toks, FieldId::Bid3),
        bid3_volume: vol_val(toks, FieldId::Bid3Volume) as i64,
        bid4: dec_val(toks, FieldId::Bid4),
        bid4_volume: vol_val(toks, FieldId::Bid4Volume) as i64,
        bid5: dec_val(toks, FieldId::Bid5),
        bid5_volume: vol_val(toks, FieldId::Bid5Volume) as i64,
        ask1: dec_val(toks, FieldId::Ask1),
        ask1_volume: vol_val(toks, FieldId::Ask1Volume) as i64,
        ask2: dec_val(toks, FieldId::Ask2),
        ask2_volume: vol_val(toks, FieldId::Ask2Volume) as i64,
        ask3: dec_val(toks, FieldId::Ask3),
        ask3_volume: vol_val(toks, FieldId::Ask3Volume) as i64,
        ask4: dec_val(toks, FieldId::Ask4),
        ask4_volume: vol_val(toks, FieldId::Ask4Volume) as i64,
        ask5: dec_val(toks, FieldId::Ask5),
        ask5_volume: vol_val(toks, FieldId::Ask5Volume) as i64,
        datatime: opt_ts_val(toks, FieldId::Datatime),
        gain_amout: dec_val(toks, FieldId::GainAmout),
        gain_percentage: dec_val(toks, FieldId::GainPercentage),
        high: dec_val(toks, FieldId::High),
        low: dec_val(toks, FieldId::Low),
        total_value: total_val(toks, FieldId::TotalValue),
        turnover: opt_dec_val(toks, FieldId::Turnover),
        pe: opt_zero_val(toks, FieldId::Pe),
        pb: opt_zero_val(toks, FieldId::Pb),
        amplitude: dec_val(toks, FieldId::Amplitude),
        traded_market_value: opt_zero_val(toks, FieldId::TradedMarketValue),
        market_value: opt_zero_val(toks, FieldId::MarketValue),
        high_limit: dec_val(toks, FieldId::HighLimit),
        low_limit: dec_val(toks, FieldId::LowLimit),
        quantity_relative_ratio: opt_dec_val(toks, FieldId::QuantityRelativeRatio),
        entrust_different: opt_dec_val(toks, FieldId::EntrustDifferent),
        average_price: opt_dec_val(toks, FieldId::AveragePrice),
    }
}

/// The soft diagnostics a decodable line produces, in the order its
/// optional fields stand in the schema.
#[verifier::opaque]
pub open spec fn line_diags(s: Seq<char>) -> Seq<DiagView> {
    let toks = line_tokens(s);
    let code = code_of(s);
    opt_ts_diags(toks, FieldId::Datatime, code) + opt_num_diags(toks, FieldId::Turnover, code)
        + opt_num_diags(toks, FieldId::Pe, code) + opt_num_diags(
        toks,
        FieldId::TradedMarketValue,
        code,
    ) + opt_num_diags(toks, FieldId::MarketValue, code) + opt_num_diags(toks, FieldId::Pb, code)
        + opt_num_diags(toks, FieldId::QuantityRelativeRatio, code) + opt_num_diags(
        toks,
        FieldId::EntrustDifferent,
        code,
    ) + opt_num_diags(toks, FieldId::AveragePrice, code)
}

/// The log entry recording a rejected line.
pub open spec fn rejected_diag(e: DecodeErrorView) -> DiagView {
    DiagView {
        line: e.line,
        field: e.field,
        severity: Severity::Error,
        kind: DiagKind::Rejected,
        raw: e.raw,
    }
}

/// The records a batch of trimmed pieces decodes to, in input order;
/// empty pieces are skipped and rejected lines are dropped.
pub open spec fn batch_records_spec(ps: Seq<Seq<char>>) -> Seq<ItemDataView>
    decreases ps.len(),
{
    if ps.len() == 0 {
        Seq::empty()
    } else {
        let p = trim_spec(ps[0]);
        let rest = batch_records_spec(ps.drop_first());
        if p.len() == 0 {
            rest
        } else if line_err(p) is None {
            seq![record_spec(p)] + rest
        } else {
            rest
        }
    }
}

/// The diagnostic log a batch produces, in input order: each decoded
/// line's soft diagnostics, and one rejection entry per dropped line.
pub open spec fn batch_log_spec(ps: Seq<Seq<char>>) -> Seq<DiagView>
    decreases ps.len(),
{
    if ps.len() == 0 {
        Seq::empty()
    } else {
        let p = trim_spec(ps[0]);
        let rest = batch_log_spec(ps.drop_first());
        if p.len() == 0 {
            rest
        } else {
            match line_err(p) {
                None => line_diags(p) + rest,
                Some(e) => seq![rejected_diag(e)] + rest,
            }
        }
    }
}

/// Takes a required non-empty text field or raises its decode error.
fn take_text(tokens: &Vec<String>, code: &String, f: FieldId) -> (r: Result<String, DecodeError>)
    ensures
        ({
            let toks = tokens.deep_view();
            match r {
                Ok(t) => req_text_ok(toks, f) && t@ == token_at(toks, f),
                Err(e) => !req_text_ok(toks, f) && e@ == req_err(toks, f, code@),
            }
        }),
{
    let p: usize = f.position();
    if p >= tokens.len() {
        Err(
            DecodeError {
                kind: DecodeErrorKind::RequiredAbsent,
                line: code.clone(),
                field: Some(f),
                position: p,
                raw: String::new(),
            },
        )
    } else {
        let t: &String = &tokens[p];
        proof {
            assert(t@ == tokens.deep_view()[p as int]);
        }
        if t.as_str().unicode_len() == 0 {
            Err(
                DecodeError {
                    kind: DecodeErrorKind::RequiredMalformed,
                    line: code.clone(),
                    field: Some(f),
                    position: p,
                    raw: t.clone(),
                },
            )
        } else {
            Ok(t.clone())
        }
    }
}

/// Takes a required decimal field or raises its decode error.
fn take_dec(tokens: &Vec<String>, code: &String, f: FieldId) -> (r: Result<Decimal, DecodeError>)
    ensures
        ({
            let toks = tokens.deep_view();
            match r {
                Ok(d) => req_dec_ok(toks, f) && d == dec_val(toks, f) && d.wf() && -i64::MAX
                    <= d.mantissa,
                Err(e) => !req_dec_ok(toks, f) && e@ == req_err(toks, f, code@),
            }
        }),
{
    let p: usize = f.position();
    if p >= tokens.len() {
        Err(
            DecodeError {
                kind: DecodeErrorKind::RequiredAbsent,
                line: code.clone(),
                field: Some(f),
                position: p,
                raw: String::new(),
            },
        )
    } else {
        let t: &String = &tokens[p];
        proof {
            assert(t@ == tokens.deep_view()[p as int]);
        }
        match parse_decimal(t.as_str()) {
            Some(d) => Ok(d),
            None => Err(
                DecodeError {
                    kind: DecodeErrorKind::RequiredMalformed,
                    line: code.clone(),
                    field: Some(f),
                    position: p,
                    raw: t.clone(),
                },
            ),
        }
    }
}

/// Takes a required volume field, already scaled a hundredfold, or
/// raises its decode error.
fn take_vol(tokens: &Vec<String>, code: &String, f: FieldId) -> (r: Result<i64, DecodeError>)
    ensures
        ({
            let toks = tokens.deep_view();
            match r {
                Ok(v) => req_vol_ok(toks, f) && v == vol_val(toks, f),
                Err(e) => !req_vol_ok(toks, f) && e@ == req_err(toks, f, code@),
            }
        }),
{
    let p: usize = f.position();
    if p >= tokens.len() {
        Err(
            DecodeError {
                kind: DecodeErrorKind::RequiredAbsent,
                line: code.clone(),
                field: Some(f),
                position: p,
                raw: String::new(),
            },
        )
    } else {
        let t: &String = &tokens[p];
        proof {
            assert(t@ == tokens.deep_view()[p as int]);
        }
        match parse_volume(t.as_str()) {
            Some(v) => Ok(v),
            None => Err(
                DecodeError {
                    kind: DecodeErrorKind::RequiredMalformed,
                    line: code.clone(),
                    field: Some(f),
                    position: p,
                    raw: t.clone(),
                },
            ),
        }
    }
}

/// Takes the market-total field, already scaled ten-thousandfold, or
/// raises its decode error.
fn take_total(tokens: &Vec<String>, code: &String, f: FieldId) -> (r: Result<Decimal, DecodeError>)
    ensures
        ({
            let toks = tokens.deep_view();
            match r {
                Ok(d) => req_total_ok(toks, f) && d == total_val(toks, f),
                Err(e) => !req_total_ok(toks, f) && e@ == req_err(toks, f, code@),
            }
        }),
{
    let p: usize = f.position();
    if p >= tokens.len() {
        Err(
            DecodeError {
                kind: DecodeErrorKind::RequiredAbsent,
                line: code.clone(),
                field: Some(f),
                position: p,
                raw: String::new(),
            },
        )
    } else {
        let t: &String = &tokens[p];
        proof {
            assert(t@ == tokens.deep_view()[p as int]);
        }
        match parse_decimal(t.as_str()) {
            Some(d) => match dec_mul_10k(d) {
                Some(scaled) => Ok(scaled),
                None => Err(
                    DecodeError {
                        kind: DecodeErrorKind::RequiredMalformed,
                        line: code.clone(),
                        field: Some(f),
                        position: p,
                        raw: t.clone(),
                    },
                ),
            },
            None => Err(
                DecodeError {
                    kind: DecodeErrorKind::RequiredMalformed,
                    line: code.clone(),
                    field: Some(f),
                    position: p,
                    raw: t.clone(),
                },
            ),
        }
    }
}

/// Reads an optional decimal field; absence or a malformed token
/// yields null and logs one diagnostic.
fn opt_dec(
    tokens: &Vec<String>,
    code: &String,
    f: FieldId,
    diags: &mut Vec<Diagnostic>,
) -> (r: Option<Decimal>)
    ensures
        r == opt_dec_val(tokens.deep_view(), f),
        diag_views(final(diags)@) == diag_views(old(diags)@) + opt_num_diags(
            tokens.deep_view(),
            f,
            code@,
        ),
{
    let p: usize = f.position();
    if p >= tokens.len() {
        diags.push(
            Diagnostic {
                line: code.clone(),
                field: Some(f),
                severity: Severity::Info,
                kind: DiagKind::Absent,
                raw: String::new(),
            },
        );
        proof {
            assert(diag_views(diags@) =~~= diag_views(old(diags)@) + opt_num_diags(
                tokens.deep_view(),
                f,
                code@,
            ));
        }
        None
    } else {
        let t: &String = &tokens[p];
        proof {
            assert(t@ == tokens.deep_view()[p as int]);
        }
        match parse_decimal(t.as_str()) {
            Some(d) => {
                proof {
                    assert(diag_views(diags@) =~~= diag_views(old(diags)@) + opt_num_diags(
                        tokens.deep_view(),
                        f,
                        code@,
                    ));
                }
                Some(d)
            },
            None => {
                diags.push(
                    Diagnostic {
                        line: code.clone(),
                        field: Some(f),
                        severity: Severity::Warning,
                        kind: DiagKind::Malformed,
                        raw: t.clone(),
                    },
                );
                proof {
                    assert(diag_views(diags@) =~~= diag_views(old(diags)@) + opt_num_diags(
                        tokens.deep_view(),
                        f,
                        code@,
                    ));
                }
                None
            },
        }
    }
}

/// Reads an optional decimal field under the zero-means-absent
/// convention: a parsed zero becomes null without any diagnostic.
fn opt_zero(
    tokens: &Vec<String>,
    code: &String,
    f: FieldId,
    diags: &mut Vec<Diagnostic>,
) -> (r: Option<Decimal>)
    ensures
        r == opt_zero_val(tokens.deep_view(), f),
        diag_views(final(diags)@) == diag_views(old(diags)@) + opt_num_diags(
            tokens.deep_view(),
            f,
            code@,
        ),
{
    match opt_dec(tokens, code, f, diags) {
        Some(d) => {
            if d.mantissa == 0 {
                None
            } else {
                Some(d)
            }
        },
        None => None,
    }
}

/// Reads the optional timestamp field; absence or a token that fails
/// the fixed pattern yields null and logs one diagnostic.
fn opt_ts(
    tokens: &Vec<String>,
    code: &String,
    f: FieldId,
    diags: &mut Vec<Diagnostic>,
) -> (r: Option<DateTime>)
    ensures
        r == opt_ts_val(tokens.deep_view(), f),
        diag_views(final(diags)@) == diag_views(old(diags)@) + opt_ts_diags(
            tokens.deep_view(),
            f,
            code@,
        ),
{
    let p: usize = f.position();
    if p >= tokens.len() {
        diags.push(
            Diagnostic {
                line: code.clone(),
                field: Some(f),
                severity: Severity::Info,
                kind: DiagKind::Absent,
                raw: String::new(),
            },
        );
        proof {
            assert(diag_views(diags@) =~~= diag_views(old(diags)@) + opt_ts_diags(
                tokens.deep_view(),
                f,
                code@,
            ));
        }
        None
    } else {
        let t: &String = &tokens[p];
        proof {
            assert(t@ == tokens.deep_view()[p as int]);
        }
        match parse_timestamp(t.as_str()) {
            Some(dt) => {
                proof {
                    assert(diag_views(diags@) =~~= diag_views(old(diags)@) + opt_ts_diags(
                        tokens.deep_view(),
                        f,
                        code@,
                    ));
                }
                Some(dt)
            },
            None => {
                diags.push(
                    Diagnostic {
                        line: code.clone(),
                        field: Some(f),
                        severity: Severity::Warning,
                        kind: DiagKind::Malformed,
                        raw: t.clone(),
                    },
                );
                proof {
                    assert(diag_views(diags@) =~~= diag_views(old(diags)@) + opt_ts_diags(
                        tokens.deep_view(),
                        f,
                        code@,
                    ));
                }
                None
            },
        }
    }
}

impl Tencent {
    /// The decoder for this vendor's response format.
    pub fn new() -> (r: Tencent)
        ensures
            r == (Tencent {  }),
    {
        Tencent {  }
    }

    /// Decodes one trimmed response line into a record and its soft
    /// diagnostics, or into the line's decode error.
    pub fn parse(input: &str) -> (r: Result<DecodedLine, DecodeError>)
        ensures
            match r {
                Ok(out) => line_err(input@) is None && out.record@ == record_spec(input@)
                    && diag_views(out.diagnostics@) == line_diags(input@),
                Err(e) => line_err(input@) == Some(e@),
            },
    {
        proof {
            reveal(line_err);
            reveal(record_spec);
            reveal(line_diags);
        }
        let n: usize = input.unicode_len();
        if n < 2 || input.get_char(0) != 'v' || input.get_char(1) != '_' {
            return Err(
                DecodeError {
                    kind: DecodeErrorKind::BadPrefix,
                    line: String::from_str(input),
                    field: None,
                    position: 0,
                    raw: String::new(),
                },
            );
        }
        let e: usize = match find_char(input, '=') {
            Some(e) => e,
            None => {
                return Err(
                    DecodeError {
                        kind: DecodeErrorKind::MissingSeparator,
                        line: String::from_str(input),
                        field: None,
                        position: 0,
                        raw: String::new(),
                    },
                );
            },
        };
        proof {
            lemma_find_spec(input@, '=');
        }
        if e == 2 {
            return Err(
                DecodeError {
                    kind: DecodeErrorKind::EmptyCode,
                    line: String::from_str(input),
                    field: None,
                    position: 0,
                    raw: String::new(),
                },
            );
        }
        let code: String = String::from_str(input.substring_char(2, e));
        if !(e < n - 2 && input.get_char(e + 1) == '"' && input.get_char(n - 1) == '"') {
            return Err(
                DecodeError {
                    kind: DecodeErrorKind::MissingPayload,
                    line: code,
                    field: None,
                    position: 0,
                    raw: String::new(),
                },
            );
        }
        let payload: &str = input.substring_char(e + 2, n - 1);
        let tokens: Vec<String> = split_str(payload, '~');
        proof {
            assert(tokens.deep_view() =~~= line_tokens(input@));
        }
        let mut diags: Vec<Diagnostic> = Vec::new();
        let name: String = match take_text(&tokens, &code, FieldId::Name) {
            Ok(v) => v,
            Err(er) => {
                return Err(er);
            },
        };
        let now: Decimal = match take_dec(&tokens, &code, FieldId::Now) {
            Ok(v) => v,
            Err(er) => {
                return Err(er);
            },
        };
        let close: Decimal = match take_dec(&tokens, &code, FieldId::Close) {
            Ok(v) => v,
            Err(er) => {
                return Err(er);
            },
        };
        let open: Decimal = match take_dec(&tokens, &code, FieldId::Open) {
            Ok(v) => v,
            Err(er) => {
                return Err(er);
            },
        };
        let volume: i64 = match take_vol(&tokens, &code, FieldId::Volume) {
            Ok(v) => v,
            Err(er) => {
                return Err(er);
            },
        };
        let bid_volume: i64 = match take_vol(&tokens, &code, FieldId::BidVolume) {
            Ok(v) => v,
            Err(er) => {
                return Err(er);
            },
        };
        let ask_volume: i64 = match take_vol(&tokens, &code, FieldId::AskVolume) {
            Ok(v) => v,
            Err(er) => {
                return Err(er);
            },
        };
        let bid1: Decimal = match take_dec(&tokens, &code, FieldId::Bid1) {
            Ok(v) => v,
            Err(er) => {
                return Err(er);
            },
        };
        let bid1_volume: i64 = match take_vol(&tokens, &code, FieldId::Bid1Volume) {
            Ok(v) => v,
            Err(er) => {
                return Err(er);
            },
        };
        let bid2: Decimal = match take_dec(&tokens, &code, FieldId::Bid2) {
            Ok(v) => v,
            Err(er) => {
                return Err(er);
            },
        };
        let bid2_volume: i64 = match take_vol(&tokens, &code, FieldId::Bid2Volume) {
            Ok(v) => v,
            Err(er) => {
                return Err(er);
            },
        };
        let bid3: Decimal = match take_dec(&tokens, &code, FieldId::Bid3) {
            Ok(v) => v,
            Err(er) => {
                return Err(er);
            },
        };
        let bid3_volume: i64 = match take_vol(&tokens, &code, FieldId::Bid3Volume) {
            Ok(v) => v,
            Err(er) => {
                return Err(er);
            },
        };
        let bid4: Decimal = match take_dec(&tokens, &code, FieldId::Bid4) {
            Ok(v) => v,
            Err(er) => {
                return Err(er);
            },
        };
        let bid4_volume: i64 = match take_vol(&tokens, &code, FieldId::Bid4Volume) {
            Ok(v) => v,
            Err(er) => {
                return Err(er);
            },
        };
        let bid5: Decimal = match take_dec(&tokens, &code, FieldId::Bid5) {
            Ok(v) => v,
            Err(er) => {
                return Err(er);
            },
        };
        let bid5_volume: i64 = match take_vol(&tokens, &code, FieldId::Bid5Volume) {
            Ok(v) => v,
            Err(er) => {
                return Err(er);
            },
        };
        let ask1: Decimal = match take_dec(&tokens, &code, FieldId::Ask1) {
            Ok(v) => v,
            Err(er) => {
                return Err(er);
            },
        };
        let ask1_volume: i64 = match take_vol(&tokens, &code, FieldId::Ask1Volume) {
            Ok(v) => v,
            Err(er) => {
                return Err(er);
            },
        };
        let ask2: Decimal = match take_dec(&tokens, &code, FieldId::Ask2) {
            Ok(v) => v,
            Err(er) => {
                return Err(er);
            },
        };
        let ask2_volume: i64 = match take_vol(&tokens, &code, FieldId::Ask2Volume) {
            Ok(v) => v,
            Err(er) => {
                return Err(er);
            },
        };
        let ask3: Decimal = match take_dec(&tokens, &code, FieldId::Ask3) {
            Ok(v) => v,
            Err(er) => {
                return Err(er);
            },
        };
        let ask3_volume: i64 = match take_vol(&tokens, &code, FieldId::Ask3Volume) {
            Ok(v) => v,
            Err(er) => {
                return Err(er);
            },
        };
        let ask4: Decimal = match take_dec(&tokens, &code, FieldId::Ask4) {
            Ok(v) => v,
            Err(er) => {
                return Err(er);
            },
        };
        let ask4_volume: i64 = match take_vol(&tokens, &code, FieldId::Ask4Volume) {
            Ok(v) => v,
            Err(er) => {
                return Err(er);
            },
        };
        let ask5: Decimal = match take_dec(&tokens, &code, FieldId::Ask5) {
            Ok(v) => v,
            Err(er) => {
                return Err(er);
            },
        };
        let ask5_volume: i64 = match take_vol(&tokens, &code, FieldId::Ask5Volume) {
            Ok(v) => v,
            Err(er) => {
                return Err(er);
            },
        };
        let datatime: Option<DateTime> = opt_ts(&tokens, &code, FieldId::Datatime, &mut diags);
        let gain_amout: Decimal = match take_dec(&tokens, &code, FieldId::GainAmout) {
            Ok(v) => v,
            Err(er) => {
                return Err(er);
            },
        };
        let gain_percentage: Decimal = match take_dec(&tokens, &code, FieldId::GainPercentage) {
            Ok(v) => v,
            Err(er) => {
                return Err(er);
            },
        };
        let high: Decimal = match take_dec(&tokens, &code, FieldId::High) {
            Ok(v) => v,
            Err(er) => {
                return Err(er);
            },
        };
        let low: Decimal = match take_dec(&tokens, &code, FieldId::Low) {
            Ok(v) => v,
            Err(er) => {
                return Err(er);
            },
        };
        let total_value: Decimal = match take_total(&tokens, &code, FieldId::TotalValue) {
            Ok(v) => v,
            Err(er) => {
                return Err(er);
            },
        };
        let turnover: Option<Decimal> = opt_dec(&tokens, &code, FieldId::Turnover, &mut diags);
        let pe: Option<Decimal> = opt_zero(&tokens, &code, FieldId::Pe, &mut diags);
        let amplitude: Decimal = match take_dec(&tokens, &code, FieldId::Amplitude) {
            Ok(v) => v,
            Err(er) => {
                return Err(er);
            },
        };
        let traded_market_value: Option<Decimal> = opt_zero(
            &tokens,
            &code,
            FieldId::TradedMarketValue,
            &mut diags,
        );
        let market_value: Option<Decimal> = opt_zero(
            &tokens,
            &code,
            FieldId::MarketValue,
            &mut diags,
        );
        let pb: Option<Decimal> = opt_zero(&tokens, &code, FieldId::Pb, &mut diags);
        let high_limit: Decimal = match take_dec(&tokens, &code, FieldId::HighLimit) {
            Ok(v) => v,
            Err(er) => {
                return Err(er);
            },
        };
        let low_limit: Decimal = match take_dec(&tokens, &code, FieldId::LowLimit) {
            Ok(v) => v,
            Err(er) => {
                return Err(er);
            },
        };
        let quantity_relative_ratio: Option<Decimal> = opt_dec(
            &tokens,
            &code,
            FieldId::QuantityRelativeRatio,
            &mut diags,
        );
        let entrust_different: Option<Decimal> = opt_dec(
            &tokens,
            &code,
            FieldId::EntrustDifferent,
            &mut diags,
        );
        let average_price: Option<Decimal> = opt_dec(
            &tokens,
            &code,
            FieldId::AveragePrice,
            &mut diags,
        );
        let record = ItemData {
            code,
            name,
            now,
            close,
            open,
            volume,
            bid_volume,
            ask_volume,
            bid1,
            bid1_volume,
            bid2,
            bid2_volume,
            bid3,
            bid3_volume,
            bid4,
            bid4_volume,
            bid5,
            bid5_volume,
            ask1,
            ask1_volume,
            ask2,
            ask2_volume,
            ask3,
            ask3_volume,
            ask4,
            ask4_volume,
            ask5,
            ask5_volume,
            datatime,
            gain_amout,
            gain_percentage,
            high,
            low,
            total_value,
            turnover,
            pe,
            pb,
            amplitude,
            traded_market_value,
            market_value,
            high_limit,
            low_limit,
            quantity_relative_ratio,
            entrust_different,
            average_price,
        };
        proof {
            assert(record@ =~~= record_spec(input@));
            assert(diag_views(diags@) =~~= line_diags(input@));
        }
        Ok(DecodedLine { record, diagnostics: diags })
    }

    /// Splits a response body on semicolons, trims each piece, and
    /// decodes the pieces independently: records come back in input
    /// order, one bad line never drops its siblings, and every anomaly
    /// lands in the log.
    #[verifier::rlimit(100)]
    pub fn format_response_data(&self, data: &str) -> (r: Batch)
        ensures
            record_views(r.records@) == batch_records_spec(split_spec(data@, ';')),
            diag_views(r.log@) == batch_log_spec(split_spec(data@, ';')),
    {
        let ghost ps: Seq<Seq<char>> = split_spec(data@, ';');
        let pieces: Vec<String> = split_str(data, ';');
        let mut records: Vec<ItemData> = Vec::new();
        let mut log: Vec<Diagnostic> = Vec::new();
        let n: usize = pieces.len();
        let mut i: usize = 0;
        proof {
            assert(ps.skip(0) =~~= ps);
            assert(record_views(records@) =~~= Seq::<ItemDataView>::empty());
            assert(diag_views(log@) =~~= Seq::<DiagView>::empty());
        }
        while i < n
            invariant
                n == pieces.len(),
                0 <= i <= n,
                ps == split_spec(data@, ';'),
                pieces.deep_view() =~~= ps,
                batch_records_spec(ps) =~~= record_views(records@) + batch_records_spec(
                    ps.skip(i as int),
                ),
                batch_log_spec(ps) =~~= diag_views(log@) + batch_log_spec(ps.skip(i as int)),
            decreases n - i,
        {
            proof {
                assert(ps.skip(i as int).drop_first() =~~= ps.skip(i + 1));
                assert(ps.skip(i as int)[0] == ps[i as int]);
                assert(pieces.deep_view()[i as int] == pieces@[i as int]@);
            }
            let piece: &String = &pieces[i];
            let trimmed: &str = trim_str(piece.as_str());
            if trimmed.unicode_len() == 0 {
            } else {
                match Tencent::parse(trimmed) {
                    Ok(out) => {
                        let DecodedLine { record, diagnostics } = out;
                        let mut diagnostics = diagnostics;
                        proof {
                            assert(record_views(records@.push(record)) =~~= record_views(records@)
                                + seq![record@]);
                            assert(diag_views(log@ + diagnostics@) =~~= diag_views(log@)
                                + diag_views(diagnostics@));
                        }
                        records.push(record);
                        log.append(&mut diagnostics);
                    },
                    Err(er) => {
                        let ghost ev: DecodeErrorView = er@;
                        let entry = Diagnostic {
                            line: er.line,
                            field: er.field,
                            severity: Severity::Error,
                            kind: DiagKind::Rejected,
                            raw: er.raw,
                        };
                        proof {
                            assert(entry@ =~~= rejected_diag(ev));
                            assert(diag_views(log@.push(entry)) =~~= diag_views(log@) + seq![
                                entry@,
                            ]);
                        }
                        log.push(entry);
                    },
                }
            }
            i = i + 1;
            proof {
                assert(batch_records_spec(ps) =~~= record_views(records@) + batch_records_spec(
                    ps.skip(i as int),
                ));
                assert(batch_log_spec(ps) =~~= diag_views(log@) + batch_log_spec(ps.skip(i as int)));
            }
        }
        proof {
            assert(ps.skip(n as int) =~~= Seq::<Seq<char>>::empty());
            assert(batch_records_spec(ps) =~~= record_views(records@));
            assert(batch_log_spec(ps) =~~= diag_views(log@));
        }
        Batch { records, log }
    }
}

} // verus!
