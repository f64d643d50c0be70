//! Properties that relate the adapter's calls to one another.
use vstd::prelude::*;
use crate::accounts::associated_token_address_of;
use crate::address::usd_star_mint_bytes;
use crate::amm::BankinecoAmm;
use crate::quote::{Quote, QuoteError, QuoteParams, fee_of, gross_output, is_venue_pair, quote_spec};
use crate::address::Address;
use crate::state::{UpdateError, VenueState, lookup, snapshot_state};

verus! {

/// Quoting is a function of the cached snapshot and the intent alone: equal
/// snapshots and equal intents give equal results.
pub proof fn lemma_quote_deterministic(
    a: BankinecoAmm,
    b: BankinecoAmm,
    p: QuoteParams,
    q: QuoteParams,
)
    requires
        a.cached() == b.cached(),
        p == q,
    ensures
        quote_spec(a.cached(), p) == quote_spec(b.cached(), q),
{
}

/// An exact-in intent is refused with `InvalidMintPair` exactly when its
/// mints are not the venue's two mints, in either order.
pub proof fn lemma_mint_pair_checked(state: Option<VenueState>, p: QuoteParams)
    requires
        p.swap_mode is ExactIn,
    ensures
        (quote_spec(state, p) == Err::<Quote, QuoteError>(QuoteError::InvalidMintPair))
            <==> !is_venue_pair(p.input_mint@, p.output_mint@),
{
}

/// Both orders of the venue's pair are priced: an exact-in intent for a
/// positive amount against a well-formed snapshot succeeds whenever the net
/// output and the fee fit in a `u64` and, for a yielding output, the vault's
/// balance covers the net output. The quote then pays the gross output less
/// the fee.
pub proof fn lemma_venue_pair_quoted(s: VenueState, p: QuoteParams)
    requires
        s.wf(),
        p.swap_mode is ExactIn,
        p.amount > 0,
        is_venue_pair(p.input_mint@, p.output_mint@),
        ({
            let g = gross_output(p.input_mint@ == usd_star_mint_bytes(), p.amount as int, s.rate as int);
            let f = fee_of(g, s.fee_bps as int);
            &&& g - f <= u64::MAX
            &&& f <= u64::MAX
            &&& p.input_mint@ == usd_star_mint_bytes() ==> g - f <= s.yielding_reserve
        }),
    ensures
        ({
            let g = gross_output(p.input_mint@ == usd_star_mint_bytes(), p.amount as int, s.rate as int);
            let f = fee_of(g, s.fee_bps as int);
            quote_spec(Some(s), p) matches Ok(q) && q.out_amount == g - f && q.fee_amount == f
                && q.in_amount == p.amount && q.fee_mint == p.output_mint
        }),
{
    lemma_fee_within_gross(s, p);
}

/// The fee is never negative and never more than the gross output.
proof fn lemma_fee_within_gross(s: VenueState, p: QuoteParams)
    requires
        s.wf(),
    ensures
        ({
            let g = gross_output(p.input_mint@ == usd_star_mint_bytes(), p.amount as int, s.rate as int);
            0 <= fee_of(g, s.fee_bps as int) <= g
        }),
{
    let to_yielding = p.input_mint@ == usd_star_mint_bytes();
    let g = gross_output(to_yielding, p.amount as int, s.rate as int);
    let bps = s.fee_bps as int;
    assert(g >= 0) by (nonlinear_arith)
        requires
            g == gross_output(to_yielding, p.amount as int, s.rate as int),
            p.amount >= 0,
            s.rate > 0,
    ;
    assert(0 <= g * bps / 10000 <= g) by (nonlinear_arith)
        requires
            g >= 0,
            0 <= bps <= 10000,
    ;
}

/// For a priceable intent on the venue's pair, `InsufficientLiquidity` comes
/// exactly when the output is the yielding asset and the net output exceeds
/// the vault's balance of it; a stable output draws on no balance. Every
/// quote that succeeds stays within that balance.
pub proof fn lemma_insufficient_liquidity_exact(s: VenueState, p: QuoteParams)
    requires
        s.wf(),
        p.swap_mode is ExactIn,
        p.amount > 0,
        is_venue_pair(p.input_mint@, p.output_mint@),
    ensures
        ({
            let to_yielding = p.input_mint@ == usd_star_mint_bytes();
            let g = gross_output(to_yielding, p.amount as int, s.rate as int);
            let net = g - fee_of(g, s.fee_bps as int);
            &&& (quote_spec(Some(s), p) == Err::<Quote, QuoteError>(
                QuoteError::InsufficientLiquidity,
            )) <==> (to_yielding && net > s.yielding_reserve)
            &&& (to_yielding && quote_spec(Some(s), p) is Ok) ==> quote_spec(
                Some(s),
                p,
            ).unwrap().out_amount <= s.yielding_reserve
        }),
{
    lemma_fee_within_gross(s, p);
}

/// Every exact-out intent is refused with `UnsupportedMode`.
pub proof fn lemma_exact_out_unsupported(state: Option<VenueState>, p: QuoteParams)
    requires
        p.swap_mode is ExactOut,
    ensures
        quote_spec(state, p) == Err::<Quote, QuoteError>(QuoteError::UnsupportedMode),
{
}

/// Signer and writable flags of the swap instruction's entries, slot by slot.
pub open spec fn slot_flags() -> Seq<(bool, bool)> {
    seq![
        (true, true),
        (false, true),
        (false, true),
        (false, false),
        (false, true),
        (false, true),
        (false, true),
        (false, true),
        (false, true),
        (false, true),
        (false, true),
        (false, false),
        (false, false),
        (false, false),
        (false, false),
    ]
}

/// The swap account list has fifteen entries whose flags follow the fixed
/// table, whatever the swap's direction and addresses.
pub proof fn lemma_swap_metas_shape(
    amm: BankinecoAmm,
    user: Seq<u8>,
    source: Seq<u8>,
    destination: Seq<u8>,
)
    ensures
        amm.swap_metas_spec(user, source, destination).len() == 15,
        forall|i: int|
            0 <= i < 15 ==> (#[trigger] amm.swap_metas_spec(user, source, destination)[i].1,
            amm.swap_metas_spec(user, source, destination)[i].2) == slot_flags()[i],
{
    let m = amm.swap_metas_spec(user, source, destination);
    assert forall|i: int| 0 <= i < 15 implies (#[trigger] m[i].1, m[i].2) == slot_flags()[i] by {
    }
}

/// Reversing a swap whose two mints are both, or both not, the stable mint
/// exchanges the yielding and bank mint slots and the user's two token
/// accounts, rederives the vault's and the team's token accounts for the new
/// yielding mint, and leaves every other slot as it was.
pub proof fn lemma_reverse_swaps_mint_slots(
    amm: BankinecoAmm,
    user: Seq<u8>,
    source: Seq<u8>,
    destination: Seq<u8>,
)
    requires
        (source == usd_star_mint_bytes()) == (destination == usd_star_mint_bytes()),
    ensures
        ({
            let f = amm.swap_metas_spec(user, source, destination);
            let b = amm.swap_metas_spec(user, destination, source);
            &&& b[4] == f[5]
            &&& b[5] == f[4]
            &&& b[6] == f[7]
            &&& b[7] == f[6]
            &&& b[8] == (associated_token_address_of(amm.vault_spec(), f[5].0), false, true)
            &&& b[10] == (associated_token_address_of(amm.team_spec(), f[5].0), false, true)
            &&& forall|i: int|
                0 <= i < 15 && i != 4 && i != 5 && i != 6 && i != 7 && i != 8 && i != 10
                    ==> #[trigger] b[i] == f[i]
        }),
{
    let f = amm.swap_metas_spec(user, source, destination);
    let b = amm.swap_metas_spec(user, destination, source);
    assert forall|i: int|
        0 <= i < 15 && i != 4 && i != 5 && i != 6 && i != 7 && i != 8 && i != 10 implies #[trigger] b[i]
        == f[i] by {
    }
}

/// For the venue's own pair the two directions of a swap name the same
/// accounts: the yielding slot always holds the yielding mint.
pub proof fn lemma_venue_pair_directions_agree(
    amm: BankinecoAmm,
    user: Seq<u8>,
    source: Seq<u8>,
    destination: Seq<u8>,
)
    requires
        is_venue_pair(source, destination),
    ensures
        amm.swap_metas_spec(user, source, destination) == amm.swap_metas_spec(
            user,
            destination,
            source,
        ),
{
}

/// A snapshot that lacks any watched account is refused with
/// `MissingAccount`; `update` then leaves the adapter as it was.
pub proof fn lemma_missing_account_refused(amm: BankinecoAmm, entries: Seq<(Address, Vec<u8>)>)
    requires
        exists|i: int| 0 <= i < 3 && lookup(entries, #[trigger] amm.watched_spec()[i]) is None,
    ensures
        snapshot_state(entries, amm.vault_spec(), amm.oracle_spec(), amm.reserve_spec()) == Err::<
            VenueState,
            UpdateError,
        >(UpdateError::MissingAccount),
{
    let i = choose|i: int| 0 <= i < 3 && lookup(entries, #[trigger] amm.watched_spec()[i]) is None;
    assert(i == 0 || i == 1 || i == 2);
}

} // verus!
