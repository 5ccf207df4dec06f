//! Laws of the decoder, stated over its specification functions and
//! proved once and for all: volume scaling, zero-as-null
//! normalization, batch isolation, and tolerance of absent or
//! malformed optional fields.
use vstd::prelude::*;

use crate::decimal::{
    int_token_value, lemma_int_value_bounds, vol_token_valid, vol_token_value,
};
use crate::record::{DiagView, FieldId, Severity};
use crate::tencent::{
    absent_diag, batch_log_spec, batch_records_spec, code_of, dec_val, line_diags, line_err,
    line_tokens, malformed_diag, opt_num_diags, opt_ts_diags, present, record_spec, rejected_diag,
    req_dec_ok, req_vol_ok, token_at, vol_val,
};
use crate::text::trim_spec;
use crate::datetime::ts_token_valid;

verus! {

/// Law: every valid volume token decodes to exactly a hundred times
/// its integer reading, the zero token included.
pub proof fn lemma_volume_scaling(s: Seq<char>)
    requires
        vol_token_valid(s),
    ensures
        vol_token_value(s) == 100 * int_token_value(s),
        -i64::MAX <= vol_token_value(s) <= i64::MAX,
{
    lemma_int_value_bounds(s);
}

/// Law: in every decoded record the volume field carries a hundred
/// times the integer reading of its token.
pub proof fn lemma_record_volume_scaling(s: Seq<char>)
    requires
        line_err(s) is None,
    ensures
        record_spec(s).volume == 100 * int_token_value(token_at(line_tokens(s), FieldId::Volume)),
        record_spec(s).bid_volume == 100 * int_token_value(
            token_at(line_tokens(s), FieldId::BidVolume),
        ),
        record_spec(s).ask_volume == 100 * int_token_value(
            token_at(line_tokens(s), FieldId::AskVolume),
        ),
{
    reveal(line_err);
    reveal(record_spec);
    lemma_volume_scaling(token_at(line_tokens(s), FieldId::Volume));
    lemma_volume_scaling(token_at(line_tokens(s), FieldId::BidVolume));
    lemma_volume_scaling(token_at(line_tokens(s), FieldId::AskVolume));
}

/// Law: an accepted record keeps the data-model invariants: its
/// identifier and name are never empty, and every volume is a
/// non-negative share count after scaling.
pub proof fn lemma_record_invariants(s: Seq<char>)
    requires
        line_err(s) is None,
    ensures
        record_spec(s).code.len() > 0,
        record_spec(s).name.len() > 0,
        record_spec(s).volume >= 0,
        record_spec(s).bid_volume >= 0,
        record_spec(s).ask_volume >= 0,
        record_spec(s).bid1_volume >= 0,
        record_spec(s).bid2_volume >= 0,
        record_spec(s).bid3_volume >= 0,
        record_spec(s).bid4_volume >= 0,
        record_spec(s).bid5_volume >= 0,
        record_spec(s).ask1_volume >= 0,
        record_spec(s).ask2_volume >= 0,
        record_spec(s).ask3_volume >= 0,
        record_spec(s).ask4_volume >= 0,
        record_spec(s).ask5_volume >= 0,
{
    reveal(line_err);
    reveal(record_spec);
    crate::text::lemma_find_spec(s, '=');
    let toks = line_tokens(s);
    lemma_vol_field_bounds(toks, FieldId::Volume);
    lemma_vol_field_bounds(toks, FieldId::BidVolume);
    lemma_vol_field_bounds(toks, FieldId::AskVolume);
    lemma_vol_field_bounds(toks, FieldId::Bid1Volume);
    lemma_vol_field_bounds(toks, FieldId::Bid2Volume);
    lemma_vol_field_bounds(toks, FieldId::Bid3Volume);
    lemma_vol_field_bounds(toks, FieldId::Bid4Volume);
    lemma_vol_field_bounds(toks, FieldId::Bid5Volume);
    lemma_vol_field_bounds(toks, FieldId::Ask1Volume);
    lemma_vol_field_bounds(toks, FieldId::Ask2Volume);
    lemma_vol_field_bounds(toks, FieldId::Ask3Volume);
    lemma_vol_field_bounds(toks, FieldId::Ask4Volume);
    lemma_vol_field_bounds(toks, FieldId::Ask5Volume);
}

/// A valid volume field decodes to a non-negative share count within
/// the machine range.
proof fn lemma_vol_field_bounds(toks: Seq<Seq<char>>, f: FieldId)
    requires
        req_vol_ok(toks, f),
    ensures
        0 <= vol_val(toks, f) <= i64::MAX,
{
    lemma_int_value_bounds(token_at(toks, f));
}

/// Law: the four zero-means-absent fields of a decoded record are
/// never an exact zero; a token that parses to zero yields null.
pub proof fn lemma_zero_as_null(s: Seq<char>)
    requires
        line_err(s) is None,
    ensures
        record_spec(s).pe is Some ==> record_spec(s).pe->0.mantissa != 0,
        record_spec(s).pb is Some ==> record_spec(s).pb->0.mantissa != 0,
        record_spec(s).traded_market_value is Some ==> record_spec(
            s,
        ).traded_market_value->0.mantissa != 0,
        record_spec(s).market_value is Some ==> record_spec(s).market_value->0.mantissa != 0,
        req_dec_ok(line_tokens(s), FieldId::Pe) && dec_val(line_tokens(s), FieldId::Pe).mantissa
            == 0 ==> record_spec(s).pe is None,
        req_dec_ok(line_tokens(s), FieldId::Pb) && dec_val(line_tokens(s), FieldId::Pb).mantissa
            == 0 ==> record_spec(s).pb is None,
        req_dec_ok(line_tokens(s), FieldId::TradedMarketValue) && dec_val(
            line_tokens(s),
            FieldId::TradedMarketValue,
        ).mantissa == 0 ==> record_spec(s).traded_market_value is None,
        req_dec_ok(line_tokens(s), FieldId::MarketValue) && dec_val(
            line_tokens(s),
            FieldId::MarketValue,
        ).mantissa == 0 ==> record_spec(s).market_value is None,
{
    reveal(line_err);
    reveal(record_spec);
}

/// Law: a line is never rejected over an optional field: every
/// rejection either names no field or names a required one.
pub proof fn lemma_optional_never_fatal(s: Seq<char>)
    requires
        line_err(s) is Some,
    ensures
        line_err(s)->0.field != Some(FieldId::Datatime),
        line_err(s)->0.field != Some(FieldId::Turnover),
        line_err(s)->0.field != Some(FieldId::Pe),
        line_err(s)->0.field != Some(FieldId::Pb),
        line_err(s)->0.field != Some(FieldId::TradedMarketValue),
        line_err(s)->0.field != Some(FieldId::MarketValue),
        line_err(s)->0.field != Some(FieldId::QuantityRelativeRatio),
        line_err(s)->0.field != Some(FieldId::EntrustDifferent),
        line_err(s)->0.field != Some(FieldId::AveragePrice),
{
    reveal(line_err);
}

/// Law: a token sequence too short for an optional field still
/// decodes; the missing field is null and its log entry is
/// informational, not a warning.
pub proof fn lemma_absent_optional_tolerated(s: Seq<char>)
    requires
        line_err(s) is None,
    ensures
        ({
            let toks = line_tokens(s);
            let code = code_of(s);
            &&& (!present(toks, FieldId::Datatime) ==> record_spec(s).datatime is None
                && opt_ts_diags(toks, FieldId::Datatime, code) == seq![
                absent_diag(code, FieldId::Datatime),
            ])
            &&& (!present(toks, FieldId::Turnover) ==> record_spec(s).turnover is None
                && opt_num_diags(toks, FieldId::Turnover, code) == seq![
                absent_diag(code, FieldId::Turnover),
            ])
            &&& (!present(toks, FieldId::Pe) ==> record_spec(s).pe is None && opt_num_diags(
                toks,
                FieldId::Pe,
                code,
            ) == seq![absent_diag(code, FieldId::Pe)])
            &&& (!present(toks, FieldId::Pb) ==> record_spec(s).pb is None && opt_num_diags(
                toks,
                FieldId::Pb,
                code,
            ) == seq![absent_diag(code, FieldId::Pb)])
            &&& (!present(toks, FieldId::TradedMarketValue) ==> record_spec(
                s,
            ).traded_market_value is None && opt_num_diags(toks, FieldId::TradedMarketValue, code)
                == seq![absent_diag(code, FieldId::TradedMarketValue)])
            &&& (!present(toks, FieldId::MarketValue) ==> record_spec(s).market_value is None
                && opt_num_diags(toks, FieldId::MarketValue, code) == seq![
                absent_diag(code, FieldId::MarketValue),
            ])
            &&& (!present(toks, FieldId::QuantityRelativeRatio) ==> record_spec(
                s,
            ).quantity_relative_ratio is None && opt_num_diags(
                toks,
                FieldId::QuantityRelativeRatio,
                code,
            ) == seq![absent_diag(code, FieldId::QuantityRelativeRatio)])
            &&& (!present(toks, FieldId::EntrustDifferent) ==> record_spec(
                s,
            ).entrust_different is None && opt_num_diags(toks, FieldId::EntrustDifferent, code)
                == seq![absent_diag(code, FieldId::EntrustDifferent)])
            &&& (!present(toks, FieldId::AveragePrice) ==> record_spec(s).average_price is None
                && opt_num_diags(toks, FieldId::AveragePrice, code) == seq![
                absent_diag(code, FieldId::AveragePrice),
            ])
        }),
        forall|code: Seq<char>, f: FieldId| (#[trigger] absent_diag(code, f)).severity
            == Severity::Info,
{
    reveal(record_spec);
}

/// Law: a timestamp token that fails the fixed pattern never
/// invalidates its line; the record carries a null timestamp and the
/// log one non-fatal warning for the field.
pub proof fn lemma_timestamp_tolerance(s: Seq<char>)
    requires
        line_err(s) is None,
    ensures
        ({
            let toks = line_tokens(s);
            present(toks, FieldId::Datatime) && !ts_token_valid(token_at(toks, FieldId::Datatime))
                ==> record_spec(s).datatime is None && opt_ts_diags(
                toks,
                FieldId::Datatime,
                code_of(s),
            ) == seq![
                malformed_diag(code_of(s), FieldId::Datatime, token_at(toks, FieldId::Datatime)),
            ]
        }),
        forall|code: Seq<char>, f: FieldId, raw: Seq<char>|
            (#[trigger] malformed_diag(code, f, raw)).severity == Severity::Warning,
{
    reveal(record_spec);
}

/// A line that decodes is not blank: it starts with the prefix mark.
proof fn lemma_clean_line_nonempty(p: Seq<char>)
    requires
        line_err(p) is None,
    ensures
        p.len() >= 2,
{
    reveal(line_err);
}

/// Law: a batch of clean lines decodes to one record per line, in
/// input order, with an empty log.
pub proof fn lemma_batch_all_clean(ps: Seq<Seq<char>>)
    requires
        forall|j: int|
            0 <= j < ps.len() ==> line_err(#[trigger] trim_spec(ps[j])) is None && line_diags(
                trim_spec(ps[j]),
            ) == Seq::<DiagView>::empty(),
    ensures
        batch_records_spec(ps) =~= Seq::new(
            ps.len(),
            |i: int| record_spec(trim_spec(ps[i])),
        ),
        batch_log_spec(ps) =~= Seq::<DiagView>::empty(),
    decreases ps.len(),
{
    if ps.len() > 0 {
        lemma_clean_line_nonempty(trim_spec(ps[0]));
        let rest = ps.drop_first();
        assert forall|j: int| 0 <= j < rest.len() implies line_err(
            #[trigger] trim_spec(rest[j]),
        ) is None && line_diags(trim_spec(rest[j])) == Seq::<DiagView>::empty() by {
            assert(rest[j] == ps[j + 1]);
        }
        lemma_batch_all_clean(rest);
        assert forall|i: int| 0 <= i < rest.len() implies record_spec(trim_spec(rest[i]))
            == record_spec(trim_spec(ps[i + 1])) by {
            assert(rest[i] == ps[i + 1]);
        }
    }
}

/// Law: one malformed line among clean lines costs exactly that line:
/// the clean records come back in input order, and the log holds
/// exactly one entry, keyed to the rejected line.
pub proof fn lemma_batch_isolation(ps: Seq<Seq<char>>, k: int)
    requires
        0 <= k < ps.len(),
        trim_spec(ps[k]).len() > 0,
        line_err(trim_spec(ps[k])) is Some,
        forall|j: int|
            0 <= j < ps.len() && j != k ==> line_err(#[trigger] trim_spec(ps[j])) is None
                && line_diags(trim_spec(ps[j])) == Seq::<DiagView>::empty(),
    ensures
        batch_records_spec(ps) =~= Seq::new(
            (ps.len() - 1) as nat,
            |i: int|
                record_spec(
                    trim_spec(
                        ps[if i < k {
                            i
                        } else {
                            i + 1
                        }],
                    ),
                ),
        ),
        batch_log_spec(ps) =~= seq![rejected_diag(line_err(trim_spec(ps[k]))->0)],
    decreases ps.len(),
{
    let rest = ps.drop_first();
    if k == 0 {
        assert forall|j: int| 0 <= j < rest.len() implies line_err(
            #[trigger] trim_spec(rest[j]),
        ) is None && line_diags(trim_spec(rest[j])) == Seq::<DiagView>::empty() by {
            assert(rest[j] == ps[j + 1]);
        }
        lemma_batch_all_clean(rest);
        assert forall|i: int| 0 <= i < rest.len() implies record_spec(trim_spec(rest[i]))
            == record_spec(trim_spec(ps[i + 1])) by {
            assert(rest[i] == ps[i + 1]);
        }
    } else {
        lemma_clean_line_nonempty(trim_spec(ps[0]));
        assert forall|j: int| 0 <= j < rest.len() && j != k - 1 implies line_err(
            #[trigger] trim_spec(rest[j]),
        ) is None && line_diags(trim_spec(rest[j])) == Seq::<DiagView>::empty() by {
            assert(rest[j] == ps[j + 1]);
        }
        assert(rest[k - 1] == ps[k]);
        lemma_batch_isolation(rest, k - 1);
    }
}

} // verus!
