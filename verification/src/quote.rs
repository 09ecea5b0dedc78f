//! The swap-quote request shape and the one piece of quote handling that is
//! not fabricated response data: resolving the requested slippage against
//! the default.

use vstd::prelude::*;

verus! {

/// The default slippage, in basis points, for requests that name none.
pub const DEFAULT_SLIPPAGE_BPS: u64 = 100;

/// A swap-quote request: which token to buy with how many lamports.
pub struct JupiterQuoteRequest {
    pub input_mint: String,
    pub output_mint: String,
    pub amount_lamports: u64,
    pub slippage_bps: Option<u64>,
}

/// The slippage a quote request asks for, or the default when it names none.
pub fn quote_slippage_bps(req: &JupiterQuoteRequest) -> (r: u64)
    ensures
        r == match req.slippage_bps {
            Option::Some(s) => s,
            Option::None => DEFAULT_SLIPPAGE_BPS,
        },
{
    match req.slippage_bps {
        Option::Some(s) => s,
        Option::None => DEFAULT_SLIPPAGE_BPS,
    }
}

} // verus!
