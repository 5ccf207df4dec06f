//! The decoded quote record, the diagnostic log entries, and the
//! line-level decode errors, together with their mathematical views.
use vstd::prelude::*;

use crate::datetime::DateTime;
use crate::decimal::Decimal;

verus! {

/// The record fields the positional schema maps tokens to.
#[derive(Clone, Copy, Debug, PartialEq, Eq, Structural)]
pub enum FieldId {
    Name,
    Now,
    Close,
    Open,
    Volume,
    BidVolume,
    AskVolume,
    Bid1,
    Bid1Volume,
    Bid2,
    Bid2Volume,
    Bid3,
    Bid3Volume,
    Bid4,
    Bid4Volume,
    Bid5,
    Bid5Volume,
    Ask1,
    Ask1Volume,
    Ask2,
    Ask2Volume,
    Ask3,
    Ask3Volume,
    Ask4,
    Ask4Volume,
    Ask5,
    Ask5Volume,
    Datatime,
    GainAmout,
    GainPercentage,
    High,
    Low,
    TotalValue,
    Turnover,
    Pe,
    Amplitude,
    TradedMarketValue,
    MarketValue,
    Pb,
    HighLimit,
    LowLimit,
    QuantityRelativeRatio,
    EntrustDifferent,
    AveragePrice,
}

/// The fixed token position of each field: the declarative schema
/// table of the vendor format.
pub open spec fn field_pos(f: FieldId) -> int {
    match f {
        FieldId::Name => 1,
        FieldId::Now => 3,
        FieldId::Close => 4,
        FieldId::Open => 5,
        FieldId::Volume => 6,
        FieldId::BidVolume => 7,
        FieldId::AskVolume => 8,
        FieldId::Bid1 => 9,
        FieldId::Bid1Volume => 10,
        FieldId::Bid2 => 11,
        FieldId::Bid2Volume => 12,
        FieldId::Bid3 => 13,
        FieldId::Bid3Volume => 14,
        FieldId::Bid4 => 15,
        FieldId::Bid4Volume => 16,
        FieldId::Bid5 => 17,
        FieldId::Bid5Volume => 18,
        FieldId::Ask1 => 19,
        FieldId::Ask1Volume => 20,
        FieldId::Ask2 => 21,
        FieldId::Ask2Volume => 22,
        FieldId::Ask3 => 23,
        FieldId::Ask3Volume => 24,
        FieldId::Ask4 => 25,
        FieldId::Ask4Volume => 26,
        FieldId::Ask5 => 27,
        FieldId::Ask5Volume => 28,
        FieldId::Datatime => 30,
        FieldId::GainAmout => 31,
        FieldId::GainPercentage => 32,
        FieldId::High => 33,
        FieldId::Low => 34,
        FieldId::TotalValue => 37,
        FieldId::Turnover => 38,
        FieldId::Pe => 39,
        FieldId::Amplitude => 43,
        FieldId::TradedMarketValue => 44,
        FieldId::MarketValue => 45,
        FieldId::Pb => 46,
        FieldId::HighLimit => 47,
        FieldId::LowLimit => 48,
        FieldId::QuantityRelativeRatio => 49,
        FieldId::EntrustDifferent => 50,
        FieldId::AveragePrice => 51,
    }
}

impl FieldId {
    /// The field's token position, decided executably.
    pub fn position(self) -> (r: usize)
        ensures
            r == field_pos(self),
    {
        match self {
            FieldId::Name => 1,
            FieldId::Now => 3,
            FieldId::Close => 4,
            FieldId::Open => 5,
            FieldId::Volume => 6,
            FieldId::BidVolume => 7,
            FieldId::AskVolume => 8,
            FieldId::Bid1 => 9,
            FieldId::Bid1Volume => 10,
            FieldId::Bid2 => 11,
            FieldId::Bid2Volume => 12,
            FieldId::Bid3 => 13,
            FieldId::Bid3Volume => 14,
            FieldId::Bid4 => 15,
            FieldId::Bid4Volume => 16,
            FieldId::Bid5 => 17,
            FieldId::Bid5Volume => 18,
            FieldId::Ask1 => 19,
            FieldId::Ask1Volume => 20,
            FieldId::Ask2 => 21,
            FieldId::Ask2Volume => 22,
            FieldId::Ask3 => 23,
            FieldId::Ask3Volume => 24,
            FieldId::Ask4 => 25,
            FieldId::Ask4Volume => 26,
            FieldId::Ask5 => 27,
            FieldId::Ask5Volume => 28,
            FieldId::Datatime => 30,
            FieldId::GainAmout => 31,
            FieldId::GainPercentage => 32,
            FieldId::High => 33,
            FieldId::Low => 34,
            FieldId::TotalValue => 37,
            FieldId::Turnover => 38,
            FieldId::Pe => 39,
            FieldId::Amplitude => 43,
            FieldId::TradedMarketValue => 44,
            FieldId::MarketValue => 45,
            FieldId::Pb => 46,
            FieldId::HighLimit => 47,
            FieldId::LowLimit => 48,
            FieldId::QuantityRelativeRatio => 49,
            FieldId::EntrustDifferent => 50,
            FieldId::AveragePrice => 51,
        }
    }
}

/// One instrument's decoded snapshot. Volumes are share counts after
/// the hundredfold scale; the market total is in base currency units.
#[derive(Debug)]
pub struct ItemData {
    pub code: String,
    pub name: String,
    pub now: Decimal,
    pub close: Decimal,
    pub open: Decimal,
    pub volume: i64,
    pub bid_volume: i64,
    pub ask_volume: i64,
    pub bid1: Decimal,
    pub bid1_volume: i64,
    pub bid2: Decimal,
    pub bid2_volume: i64,
    pub bid3: Decimal,
    pub bid3_volume: i64,
    pub bid4: Decimal,
    pub bid4_volume: i64,
    pub bid5: Decimal,
    pub bid5_volume: i64,
    pub ask1: Decimal,
    pub ask1_volume: i64,
    pub ask2: Decimal,
    pub ask2_volume: i64,
    pub ask3: Decimal,
    pub ask3_volume: i64,
    pub ask4: Decimal,
    pub ask4_volume: i64,
    pub ask5: Decimal,
    pub ask5_volume: i64,
    pub datatime: Option<DateTime>,
    pub gain_amout: Decimal,
    pub gain_percentage: Decimal,
    pub high: Decimal,
    pub low: Decimal,
    pub total_value: Decimal,
    pub turnover: Option<Decimal>,
    pub pe: Option<Decimal>,
    pub pb: Option<Decimal>,
    pub amplitude: Decimal,
    pub traded_market_value: Option<Decimal>,
    pub market_value: Option<Decimal>,
    pub high_limit: Decimal,
    pub low_limit: Decimal,
    pub quantity_relative_ratio: Option<Decimal>,
    pub entrust_different: Option<Decimal>,
    pub average_price: Option<Decimal>,
}

/// The mathematical view of a record: strings as character sequences.
#[verifier::ext_equal]
pub ghost struct ItemDataView {
    pub code: Seq<char>,
    pub name: Seq<char>,
    pub now: Decimal,
    pub close: Decimal,
    pub open: Decimal,
    pub volume: i64,
    pub bid_volume: i64,
    pub ask_volume: i64,
    pub bid1: Decimal,
    pub bid1_volume: i64,
    pub bid2: Decimal,
    pub bid2_volume: i64,
    pub bid3: Decimal,
    pub bid3_volume: i64,
    pub bid4: Decimal,
    pub bid4_volume: i64,
    pub bid5: Decimal,
    pub bid5_volume: i64,
    pub ask1: Decimal,
    pub ask1_volume: i64,
    pub ask2: Decimal,
    pub ask2_volume: i64,
    pub ask3: Decimal,
    pub ask3_volume: i64,
    pub ask4: Decimal,
    pub ask4_volume: i64,
    pub ask5: Decimal,
    pub ask5_volume: i64,
    pub datatime: Option<DateTime>,
    pub gain_amout: Decimal,
    pub gain_percentage: Decimal,
    pub high: Decimal,
    pub low: Decimal,
    pub total_value: Decimal,
    pub turnover: Option<Decimal>,
    pub pe: Option<Decimal>,
    pub pb: Option<Decimal>,
    pub amplitude: Decimal,
    pub traded_market_value: Option<Decimal>,
    pub market_value: Option<Decimal>,
    pub high_limit: Decimal,
    pub low_limit: Decimal,
    pub quantity_relative_ratio: Option<Decimal>,
    pub entrust_different: Option<Decimal>,
    pub average_price: Option<Decimal>,
}

impl View for ItemData {
    type V = ItemDataView;

    open spec fn view(&self) -> ItemDataView {
        ItemDataView {
            code: self.code@,
            name: self.name@,
            now: self.now,
            close: self.close,
            open: self.open,
            volume: self.volume,
            bid_volume: self.bid_volume,
            ask_volume: self.ask_volume,
            bid1: self.bid1,
            bid1_volume: self.bid1_volume,
            bid2: self.bid2,
            bid2_volume: self.bid2_volume,
            bid3: self.bid3,
            bid3_volume: self.bid3_volume,
            bid4: self.bid4,
            bid4_volume: self.bid4_volume,
            bid5: self.bid5,
            bid5_volume: self.bid5_volume,
            ask1: self.ask1,
            ask1_volume: self.ask1_volume,
            ask2: self.ask2,
            ask2_volume: self.ask2_volume,
            ask3: self.ask3,
            ask3_volume: self.ask3_volume,
            ask4: self.ask4,
            ask4_volume: self.ask4_volume,
            ask5: self.ask5,
            ask5_volume: self.ask5_volume,
            datatime: self.datatime,
            gain_amout: self.gain_amout,
            gain_percentage: self.gain_percentage,
            high: self.high,
            low: self.low,
            total_value: self.total_value,
            turnover: self.turnover,
            pe: self.pe,
            pb: self.pb,
            amplitude: self.amplitude,
            traded_market_value: self.traded_market_value,
            market_value: self.market_value,
            high_limit: self.high_limit,
            low_limit: self.low_limit,
            quantity_relative_ratio: self.quantity_relative_ratio,
            entrust_different: self.entrust_different,
            average_price: self.average_price,
        }
    }
}

/// How bad a diagnostic is: absent optional fields are informational,
/// malformed optional fields are warnings, rejected lines are errors.
#[derive(Clone, Copy, Debug, PartialEq, Eq, Structural)]
pub enum Severity {
    Info,
    Warning,
    Error,
}

/// What a diagnostic reports.
#[derive(Clone, Copy, Debug, PartialEq, Eq, Structural)]
pub enum DiagKind {
    /// An optional field's position lies beyond the line's tokens.
    Absent,
    /// An optional field's token failed its coercion.
    Malformed,
    /// A whole line was dropped by a line-level decode error.
    Rejected,
}

/// One entry of the batch diagnostic log.
#[derive(Debug)]
pub struct Diagnostic {
    /// The offending line's identifier, or its raw text when no
    /// identifier could be extracted.
    pub line: String,
    /// The field concerned, if the anomaly is tied to one.
    pub field: Option<FieldId>,
    pub severity: Severity,
    pub kind: DiagKind,
    /// The offending token, empty when the field was absent.
    pub raw: String,
}

/// The mathematical view of a diagnostic.
#[verifier::ext_equal]
pub ghost struct DiagView {
    pub line: Seq<char>,
    pub field: Option<FieldId>,
    pub severity: Severity,
    pub kind: DiagKind,
    pub raw: Seq<char>,
}

impl View for Diagnostic {
    type V = DiagView;

    open spec fn view(&self) -> DiagView {
        DiagView {
            line: self.line@,
            field: self.field,
            severity: self.severity,
            kind: self.kind,
            raw: self.raw@,
        }
    }
}

/// Why a whole line was rejected.
#[derive(Clone, Copy, Debug, PartialEq, Eq, Structural)]
pub enum DecodeErrorKind {
    /// The line does not start with the vendor prefix mark.
    BadPrefix,
    /// No separator between identifier and payload.
    MissingSeparator,
    /// The identifier between prefix and separator is empty.
    EmptyCode,
    /// The payload is not enclosed in quotes after the separator.
    MissingPayload,
    /// A required field's position lies beyond the line's tokens.
    RequiredAbsent,
    /// A required field's token failed its coercion.
    RequiredMalformed,
}

/// A line-level decode error: the whole line is dropped, the batch
/// goes on.
#[derive(Debug)]
pub struct DecodeError {
    pub kind: DecodeErrorKind,
    /// The line's identifier, or its raw text when no identifier could
    /// be extracted.
    pub line: String,
    /// The required field that failed, for the field-level kinds.
    pub field: Option<FieldId>,
    /// The failing token's position, for the field-level kinds.
    pub position: usize,
    /// The failing token, for a malformed required field.
    pub raw: String,
}

/// The mathematical view of a decode error.
#[verifier::ext_equal]
pub ghost struct DecodeErrorView {
    pub kind: DecodeErrorKind,
    pub line: Seq<char>,
    pub field: Option<FieldId>,
    pub position: int,
    pub raw: Seq<char>,
}

impl View for DecodeError {
    type V = DecodeErrorView;

    open spec fn view(&self) -> DecodeErrorView {
        DecodeErrorView {
            kind: self.kind,
            line: self.line@,
            field: self.field,
            position: self.position as int,
            raw: self.raw@,
        }
    }
}

/// The views of a sequence of diagnostics, in order.
pub open spec fn diag_views(s: Seq<Diagnostic>) -> Seq<DiagView> {
    s.map_values(|d: Diagnostic| d@)
}

/// The views of a sequence of records, in order.
pub open spec fn record_views(s: Seq<ItemData>) -> Seq<ItemDataView> {
    s.map_values(|r: ItemData| r@)
}

} // verus!
