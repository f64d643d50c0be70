//! The quoting engine: a pure function of the cached state and a trade intent.
use vstd::prelude::*;
use crate::address::{Address, usd_star_mint, usd_star_mint_bytes, usdc_mint, usdc_mint_bytes};
use crate::state::{VenueState, BPS_DENOMINATOR, RATE_SCALE};
use vstd::arithmetic::div_mod::{lemma_div_is_ordered, lemma_div_is_ordered_by_denominator};

verus! {

/// Whether the trade fixes the input amount or the output amount.
#[derive(Clone, Copy, Debug, PartialEq, Eq, Structural)]
pub enum SwapMode {
    ExactIn,
    ExactOut,
}

/// A trade intent to price.
#[derive(Clone, Copy, Debug)]
pub struct QuoteParams {
    pub amount: u64,
    pub input_mint: Address,
    pub output_mint: Address,
    pub swap_mode: SwapMode,
}

/// The priced trade.
#[derive(Clone, Copy, Debug)]
pub struct Quote {
    pub in_amount: u64,
    /// Output after the fee.
    pub out_amount: u64,
    pub fee_amount: u64,
    /// The fee is taken out of the output, so it is in the output mint.
    pub fee_mint: Address,
    pub fee_bps: u16,
    /// Always 0: the venue trades at an administered rate, not along a curve.
    pub price_impact_bps: u64,
}

/// Why a trade could not be priced.
#[derive(Clone, Copy, Debug, PartialEq, Eq, Structural)]
pub enum QuoteError {
    /// Exact-out trades are not supported.
    UnsupportedMode,
    /// The two mints are not the venue's stable and yielding mints.
    InvalidMintPair,
    /// The input amount is zero.
    ZeroAmount,
    /// No snapshot has been taken into the cache yet.
    StaleOrMissingSnapshot,
    /// The net output exceeds the vault's balance of the yielding asset.
    InsufficientLiquidity,
    /// The net output or the fee does not fit in a `u64`.
    AmountOverflow,
}

/// The venue's two mints, in either order.
pub open spec fn is_venue_pair(input: Seq<u8>, output: Seq<u8>) -> bool {
    (input == usd_star_mint_bytes() && output == usdc_mint_bytes()) || (input == usdc_mint_bytes()
        && output == usd_star_mint_bytes())
}

/// Output before the fee: stable in, yielding out divides by the rate;
/// yielding in, stable out multiplies by it.
pub open spec fn gross_output(to_yielding: bool, amount: int, rate: int) -> int {
    if to_yielding {
        amount * RATE_SCALE as int / rate
    } else {
        amount * rate / RATE_SCALE as int
    }
}

/// The fee on `gross`, rounded down.
pub open spec fn fee_of(gross: int, fee_bps: int) -> int {
    gross * fee_bps / BPS_DENOMINATOR as int
}

/// The outcome of pricing `p` against `state`. Only a yielding output draws
/// on a balance, the vault's: the bank mints the stable asset against the
/// yielding asset deposited, so no balance bounds a stable output.
pub open spec fn quote_spec(state: Option<VenueState>, p: QuoteParams) -> Result<Quote, QuoteError> {
    if p.swap_mode is ExactOut {
        Err(QuoteError::UnsupportedMode)
    } else if !is_venue_pair(p.input_mint@, p.output_mint@) {
        Err(QuoteError::InvalidMintPair)
    } else if p.amount == 0 {
        Err(QuoteError::ZeroAmount)
    } else {
        match state {
            None => Err(QuoteError::StaleOrMissingSnapshot),
            Some(s) => {
                let to_yielding = p.input_mint@ == usd_star_mint_bytes();
                let gross = gross_output(to_yielding, p.amount as int, s.rate as int);
                let fee = fee_of(gross, s.fee_bps as int);
                let net = gross - fee;
                if to_yielding && net > s.yielding_reserve {
                    Err(QuoteError::InsufficientLiquidity)
                } else if net > u64::MAX || fee > u64::MAX {
                    Err(QuoteError::AmountOverflow)
                } else {
                    Ok(
                        Quote {
                            in_amount: p.amount,
                            out_amount: net as u64,
                            fee_amount: fee as u64,
                            fee_mint: p.output_mint,
                            fee_bps: s.fee_bps,
                            price_impact_bps: 0,
                        },
                    )
                }
            },
        }
    }
}

/// Prices a trade against the cached state.
pub fn quote_from_state(state: &Option<VenueState>, params: &QuoteParams) -> (r: Result<
    Quote,
    QuoteError,
>)
    requires
        state matches Some(s) ==> s.wf(),
    ensures
        r == quote_spec(*state, *params),
{
    if let SwapMode::ExactOut = params.swap_mode {
        return Err(QuoteError::UnsupportedMode);
    }
    let stable = usd_star_mint();
    let yielding = usdc_mint();
    let from_stable = params.input_mint.same_as(&stable);
    let from_yielding = params.input_mint.same_as(&yielding);
    let to_stable = params.output_mint.same_as(&stable);
    let to_yielding = params.output_mint.same_as(&yielding);
    if !((from_stable && to_yielding) || (from_yielding && to_stable)) {
        return Err(QuoteError::InvalidMintPair);
    }
    if params.amount == 0 {
        return Err(QuoteError::ZeroAmount);
    }
    match state {
        None => Err(QuoteError::StaleOrMissingSnapshot),
        Some(s) => {
            let amount = params.amount as u128;
            let rate = s.rate as u128;
            let gross: u128 = if from_stable {
                proof {
                    assert(amount * 1000000000 <= 0xffff_ffff_ffff_ffff * 1000000000)
                        by (nonlinear_arith)
                        requires
                            amount <= 0xffff_ffff_ffff_ffff,
                    ;
                }
                proof {
                    lemma_div_is_ordered_by_denominator(
                        (amount * 1000000000) as int,
                        1,
                        rate as int,
                    );
                }
                amount * (RATE_SCALE as u128) / rate
            } else {
                proof {
                    assert(amount * rate <= 0xffff_ffff_ffff_ffff * 0xffff_ffff_ffff_ffff)
                        by (nonlinear_arith)
                        requires
                            amount <= 0xffff_ffff_ffff_ffff,
                            rate <= 0xffff_ffff_ffff_ffff,
                    ;
                }
                proof {
                    lemma_div_is_ordered(
                        (amount * rate) as int,
                        u64::MAX as int * u64::MAX as int,
                        1000000000,
                    );
                }
                amount * rate / (RATE_SCALE as u128)
            };
            let bps = s.fee_bps as u128;
            proof {
                assert(gross <= 0x10_0000_0000_0000_0000_0000_0000);
                assert(gross * bps <= gross * 10000 && gross * 10000 <= 0x10_0000_0000_0000_0000_0000_0000
                    * 10000) by (nonlinear_arith)
                    requires
                        bps <= 10000,
                        gross <= 0x10_0000_0000_0000_0000_0000_0000,
                ;
            }
            let fee = gross * bps / (BPS_DENOMINATOR as u128);
            let net = gross - fee;
            if from_stable && net > s.yielding_reserve as u128 {
                return Err(QuoteError::InsufficientLiquidity);
            }
            if net > u64::MAX as u128 || fee > u64::MAX as u128 {
                return Err(QuoteError::AmountOverflow);
            }
            Ok(
                Quote {
                    in_amount: params.amount,
                    out_amount: net as u64,
                    fee_amount: fee as u64,
                    fee_mint: params.output_mint,
                    fee_bps: s.fee_bps,
                    price_impact_bps: 0,
                },
            )
        },
    }
}

} // verus!
