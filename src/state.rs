//! The venue state cache: typed state decoded from a snapshot of raw accounts.
//!
//! The vault program does not publish its account layouts with this adapter.
//! The vault and oracle layouts here are assumed: the Anchor account tag for
//! the account's name, then the fields right after it. They must be checked
//! against the deployed program before use.
use vstd::prelude::*;
use crate::address::Address;
use crate::bytes::{le_value, read_le, has_tag};

verus! {

/// Assumed Anchor account tag of the vault's configuration account (the
/// first eight bytes of SHA-256 of "account:Vault").
pub const VAULT_TAG: [u8; 8] = [211, 8, 232, 43, 2, 152, 117, 119];

/// Assumed Anchor account tag of the exchange-rate oracle account (the first
/// eight bytes of SHA-256 of "account:Oracle").
pub const ORACLE_TAG: [u8; 8] = [139, 194, 131, 179, 140, 179, 229, 244];

/// Basis points in one whole: the largest fee a vault may charge.
pub const BPS_DENOMINATOR: u64 = 10_000;

/// Fixed-point scale of the oracle rate: `RATE_SCALE` means one stable unit
/// per yielding unit.
pub const RATE_SCALE: u64 = 1_000_000_000;

/// Size of an SPL token account.
pub const TOKEN_ACCOUNT_LEN: usize = 165;

/// Offset of the `amount` field in an SPL token account.
pub const TOKEN_AMOUNT_OFFSET: usize = 64;

/// What a quote needs of the venue, decoded from its accounts.
#[derive(Clone, Copy, Debug, PartialEq, Eq, Structural)]
pub struct VenueState {
    /// Fee charged on the gross output, in basis points.
    pub fee_bps: u16,
    /// Stable units per yielding unit, scaled by `RATE_SCALE`.
    pub rate: u64,
    /// The vault's balance of the yielding asset. No stable balance is kept:
    /// the bank mints the stable asset against the yielding asset deposited,
    /// so no balance bounds a stable output.
    pub yielding_reserve: u64,
}

impl VenueState {
    pub open spec fn wf(&self) -> bool {
        self.rate > 0 && self.fee_bps <= BPS_DENOMINATOR
    }
}

/// Why a snapshot could not be taken into the cache.
#[derive(Clone, Copy, Debug, PartialEq, Eq, Structural)]
pub enum UpdateError {
    /// A watched account is absent from the snapshot.
    MissingAccount,
    /// A watched account's bytes do not have the expected layout.
    DecodeError,
}

/// The data of the first entry whose address is `key`.
pub open spec fn lookup(entries: Seq<(Address, Vec<u8>)>, key: Seq<u8>) -> Option<Seq<u8>>
    decreases entries.len(),
{
    if entries.len() == 0 {
        None
    } else if entries[0].0@ == key {
        Some(entries[0].1@)
    } else {
        lookup(entries.drop_first(), key)
    }
}

/// Vault account, in the assumed layout: tag, then the fee in basis points
/// as a little-endian `u16`.
pub open spec fn decode_fee_bps(d: Seq<u8>) -> Option<u16> {
    if d.len() >= 10 && d.subrange(0, 8) == VAULT_TAG@ && le_value(d.subrange(8, 10))
        <= BPS_DENOMINATOR {
        Some(le_value(d.subrange(8, 10)) as u16)
    } else {
        None
    }
}

/// Oracle account, in the assumed layout: tag, then the non-zero rate as a
/// little-endian `u64`.
pub open spec fn decode_rate(d: Seq<u8>) -> Option<u64> {
    if d.len() >= 16 && d.subrange(0, 8) == ORACLE_TAG@ && le_value(d.subrange(8, 16)) > 0 {
        Some(le_value(d.subrange(8, 16)) as u64)
    } else {
        None
    }
}

/// SPL token account: the `amount` field (this layout is the token
/// program's own).
pub open spec fn decode_token_amount(d: Seq<u8>) -> Option<u64> {
    if d.len() >= TOKEN_ACCOUNT_LEN {
        Some(le_value(d.subrange(TOKEN_AMOUNT_OFFSET as int, TOKEN_AMOUNT_OFFSET + 8)) as u64)
    } else {
        None
    }
}

/// The state that a snapshot describes, given the addresses of the vault,
/// the oracle and the vault's yielding-asset token account.
pub open spec fn snapshot_state(
    entries: Seq<(Address, Vec<u8>)>,
    vault: Seq<u8>,
    oracle: Seq<u8>,
    reserve: Seq<u8>,
) -> Result<VenueState, UpdateError> {
    let v = lookup(entries, vault);
    let o = lookup(entries, oracle);
    let t = lookup(entries, reserve);
    if v.is_none() || o.is_none() || t.is_none() {
        Err(UpdateError::MissingAccount)
    } else {
        match (decode_fee_bps(v.unwrap()), decode_rate(o.unwrap()), decode_token_amount(t.unwrap())) {
            (Some(f), Some(r), Some(a)) => Ok(VenueState { fee_bps: f, rate: r, yielding_reserve: a }),
            _ => Err(UpdateError::DecodeError),
        }
    }
}

/// Index of the first entry whose address is `key`.
pub fn find_account(entries: &Vec<(Address, Vec<u8>)>, key: &Address) -> (r: Option<usize>)
    ensures
        match r {
            Some(i) => i < entries@.len() && lookup(entries@, key@) == Some(entries@[i as int].1@),
            None => lookup(entries@, key@).is_none(),
        },
{
    let n = entries.len();
    let mut i: usize = 0;
    assert(entries@.subrange(0, n as int) =~= entries@);
    while i < n
        invariant
            n == entries@.len(),
            i <= n,
            lookup(entries@, key@) == lookup(entries@.subrange(i as int, n as int), key@),
        decreases n - i,
    {
        let rest = Ghost(entries@.subrange(i as int, n as int));
        assert(rest@[0] == entries@[i as int]);
        if entries[i].0.same_as(key) {
            return Some(i);
        }
        assert(rest@.drop_first() =~= entries@.subrange(i + 1, n as int));
        i += 1;
    }
    None
}

pub fn decode_fee_bps_exec(d: &Vec<u8>) -> (r: Option<u16>)
    ensures
        r == decode_fee_bps(d@),
        r matches Some(f) ==> f <= BPS_DENOMINATOR,
{
    if d.len() >= 10 && has_tag(d, &VAULT_TAG) {
        let v = read_le(d, 8, 2);
        if v <= BPS_DENOMINATOR {
            return Some(v as u16);
        }
    }
    None
}

pub fn decode_rate_exec(d: &Vec<u8>) -> (r: Option<u64>)
    ensures
        r == decode_rate(d@),
        r matches Some(v) ==> v > 0,
{
    if d.len() >= 16 && has_tag(d, &ORACLE_TAG) {
        let v = read_le(d, 8, 8);
        if v > 0 {
            return Some(v);
        }
    }
    None
}

pub fn decode_token_amount_exec(d: &Vec<u8>) -> (r: Option<u64>)
    ensures
        r == decode_token_amount(d@),
{
    if d.len() >= TOKEN_ACCOUNT_LEN {
        Some(read_le(d, TOKEN_AMOUNT_OFFSET, 8))
    } else {
        None
    }
}

/// Decodes the venue state out of a snapshot of raw accounts.
pub fn decode_snapshot(
    entries: &Vec<(Address, Vec<u8>)>,
    vault: &Address,
    oracle: &Address,
    reserve: &Address,
) -> (r: Result<VenueState, UpdateError>)
    ensures
        r == snapshot_state(entries@, vault@, oracle@, reserve@),
        r matches Ok(s) ==> s.wf(),
{
    let vi = find_account(entries, vault);
    let oi = find_account(entries, oracle);
    let ti = find_account(entries, reserve);
    match (vi, oi, ti) {
        (Some(vi), Some(oi), Some(ti)) => {
            let f = decode_fee_bps_exec(&entries[vi].1);
            let r = decode_rate_exec(&entries[oi].1);
            let a = decode_token_amount_exec(&entries[ti].1);
            match (f, r, a) {
                (Some(f), Some(r), Some(a)) => Ok(VenueState { fee_bps: f, rate: r, yielding_reserve: a }),
                _ => Err(UpdateError::DecodeError),
            }
        },
        _ => Err(UpdateError::MissingAccount),
    }
}

} // verus!
