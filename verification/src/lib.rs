//! Decoder for a vendor's tilde-delimited real-time securities quotes.
//!
//! The library turns one HTTP response body into structured quote
//! records plus a diagnostic log; it performs no I/O itself.
pub mod datetime;
pub mod decimal;
pub mod laws;
pub mod record;
pub mod tencent;
pub mod text;

use vstd::prelude::*;

verus! {

/// The quote sources this crate can decode.
#[derive(Clone, Copy, Debug, PartialEq, Eq, Structural)]
pub enum RtData {
    Tencent,
}

impl RtData {
    /// The decoder for this source.
    pub fn init(&self) -> (r: tencent::Tencent)
        ensures
            r == (tencent::Tencent {  }),
    {
        match self {
            RtData::Tencent => tencent::Tencent::new(),
        }
    }
}

} // verus!
