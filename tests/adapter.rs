use std::str::FromStr;

use bankineco_amm::accounts::AccountMeta;
use bankineco_amm::address::{
    associated_token_program_id, main_usdc_vault, program_id, system_program_id,
    token_program_id, usd_star_bank, usd_star_mint, usdc_mint, Address,
};
use bankineco_amm::amm::{BankinecoAmm, SwapParams};
use bankineco_amm::bytes::{has_tag, read_le};
use bankineco_amm::quote::{QuoteError, QuoteParams, SwapMode};
use bankineco_amm::state::{UpdateError, ORACLE_TAG, VAULT_TAG};
use solana_pubkey::Pubkey;

fn addr(b: u8) -> Address {
    Address { bytes: [b; 32] }
}

fn pk(a: &Address) -> Pubkey {
    Pubkey::new_from_array(a.bytes)
}

fn vault_data(fee_bps: u16) -> Vec<u8> {
    let mut d = VAULT_TAG.to_vec();
    d.extend_from_slice(&fee_bps.to_le_bytes());
    d
}

fn oracle_data(rate: u64) -> Vec<u8> {
    let mut d = ORACLE_TAG.to_vec();
    d.extend_from_slice(&rate.to_le_bytes());
    d
}

fn token_account_data(amount: u64) -> Vec<u8> {
    let mut d = vec![0u8; 165];
    d[64..72].copy_from_slice(&amount.to_le_bytes());
    d
}

fn configured() -> BankinecoAmm {
    BankinecoAmm::from_config(main_usdc_vault(), addr(7), addr(9))
}

fn snapshot(amm: &BankinecoAmm, fee_bps: u16, rate: u64, reserve: u64) -> Vec<(Address, Vec<u8>)> {
    let watched = amm.get_accounts_to_update();
    vec![
        (watched[0], vault_data(fee_bps)),
        (watched[1], oracle_data(rate)),
        (watched[2], token_account_data(reserve)),
    ]
}

fn exact_in(amount: u64, input: Address, output: Address) -> QuoteParams {
    QuoteParams { amount, input_mint: input, output_mint: output, swap_mode: SwapMode::ExactIn }
}

fn flags(metas: &[AccountMeta]) -> Vec<(bool, bool)> {
    metas.iter().map(|m| (m.is_signer, m.is_writable)).collect()
}

fn keys(metas: &[AccountMeta]) -> Vec<[u8; 32]> {
    metas.iter().map(|m| m.pubkey.bytes).collect()
}

#[test]
fn end_to_end_flat_rate_quote() {
    let mut amm = configured();
    assert_eq!(amm.update(&snapshot(&amm, 10, 1_000_000_000, 1_000_000)), Ok(()));
    let q = amm.quote(&exact_in(100_000, usd_star_mint(), usdc_mint())).unwrap();
    assert_eq!(q.in_amount, 100_000);
    assert_eq!(q.out_amount, 99_900);
    assert_eq!(q.fee_amount, 100);
    assert_eq!(q.price_impact_bps, 0);
    assert_eq!(q.fee_mint.bytes, usdc_mint().bytes);
}

#[test]
fn yielding_to_stable_multiplies_by_rate() {
    let mut amm = configured();
    assert_eq!(amm.update(&snapshot(&amm, 10, 1_050_000_000, 0)), Ok(()));
    let q = amm.quote(&exact_in(1_000_000, usdc_mint(), usd_star_mint())).unwrap();
    assert_eq!(q.out_amount, 1_048_950);
    assert_eq!(q.fee_amount, 1_050);
    assert_eq!(q.fee_mint.bytes, usd_star_mint().bytes);
}

#[test]
fn stable_to_yielding_divides_by_rate() {
    let mut amm = configured();
    assert_eq!(amm.update(&snapshot(&amm, 0, 2_000_000_000, 1_000_000)), Ok(()));
    let q = amm.quote(&exact_in(1_001, usd_star_mint(), usdc_mint())).unwrap();
    assert_eq!(q.out_amount, 500);
    assert_eq!(q.fee_amount, 0);
}

#[test]
fn quote_is_deterministic() {
    let mut amm = configured();
    amm.update(&snapshot(&amm, 25, 1_010_000_000, 5_000_000)).unwrap();
    let p = exact_in(123_457, usd_star_mint(), usdc_mint());
    let a = amm.quote(&p).unwrap();
    let b = amm.quote(&p).unwrap();
    assert_eq!(
        (a.in_amount, a.out_amount, a.fee_amount, a.fee_mint.bytes, a.fee_bps, a.price_impact_bps),
        (b.in_amount, b.out_amount, b.fee_amount, b.fee_mint.bytes, b.fee_bps, b.price_impact_bps)
    );
}

#[test]
fn foreign_mint_pairs_are_rejected() {
    let mut amm = configured();
    amm.update(&snapshot(&amm, 10, 1_000_000_000, 1_000_000)).unwrap();
    let bad = [
        (usdc_mint(), usdc_mint()),
        (usd_star_mint(), usd_star_mint()),
        (addr(3), usdc_mint()),
        (usd_star_mint(), addr(3)),
        (addr(3), addr(4)),
    ];
    for (i, o) in bad {
        assert_eq!(amm.quote(&exact_in(10, i, o)).unwrap_err(), QuoteError::InvalidMintPair);
    }
    assert!(amm.quote(&exact_in(10, usd_star_mint(), usdc_mint())).is_ok());
    assert!(amm.quote(&exact_in(10, usdc_mint(), usd_star_mint())).is_ok());
}

#[test]
fn exact_out_is_unsupported() {
    let amm = configured();
    let mut p = exact_in(10, usd_star_mint(), usdc_mint());
    p.swap_mode = SwapMode::ExactOut;
    assert_eq!(amm.quote(&p).unwrap_err(), QuoteError::UnsupportedMode);
    p.input_mint = addr(1);
    assert_eq!(amm.quote(&p).unwrap_err(), QuoteError::UnsupportedMode);
    assert!(!amm.supports_exact_out());
}

#[test]
fn quote_before_update_is_stale() {
    let amm = configured();
    assert_eq!(
        amm.quote(&exact_in(10, usd_star_mint(), usdc_mint())).unwrap_err(),
        QuoteError::StaleOrMissingSnapshot
    );
}

#[test]
fn zero_amount_is_rejected() {
    let mut amm = configured();
    amm.update(&snapshot(&amm, 10, 1_000_000_000, 1_000_000)).unwrap();
    assert_eq!(
        amm.quote(&exact_in(0, usd_star_mint(), usdc_mint())).unwrap_err(),
        QuoteError::ZeroAmount
    );
}

#[test]
fn output_beyond_reserve_is_insufficient() {
    let mut amm = configured();
    amm.update(&snapshot(&amm, 0, 1_000_000_000, 1_000_000)).unwrap();
    assert!(amm.quote(&exact_in(1_000_000, usd_star_mint(), usdc_mint())).is_ok());
    assert_eq!(
        amm.quote(&exact_in(1_000_001, usd_star_mint(), usdc_mint())).unwrap_err(),
        QuoteError::InsufficientLiquidity
    );
}

#[test]
fn output_beyond_u64_overflows() {
    let mut amm = configured();
    amm.update(&snapshot(&amm, 0, 2_000_000_000, 0)).unwrap();
    assert_eq!(
        amm.quote(&exact_in(u64::MAX, usdc_mint(), usd_star_mint())).unwrap_err(),
        QuoteError::AmountOverflow
    );
}

#[test]
fn gross_beyond_u64_is_quoted_when_net_and_fee_fit() {
    let mut amm = configured();
    amm.update(&snapshot(&amm, 10, 999_999_999, u64::MAX)).unwrap();
    let q = amm.quote(&exact_in(u64::MAX, usd_star_mint(), usdc_mint())).unwrap();
    assert_eq!(q.out_amount, 18_428_297_348_064_139_412);
    assert_eq!(q.fee_amount, 18_446_744_092_156_295);
}

#[test]
fn stable_output_draws_on_no_balance() {
    let mut amm = configured();
    amm.update(&snapshot(&amm, 0, 1_000_000_000, 0)).unwrap();
    let q = amm.quote(&exact_in(5_000, usdc_mint(), usd_star_mint())).unwrap();
    assert_eq!(q.out_amount, 5_000);
    assert_eq!(
        amm.quote(&exact_in(5_000, usd_star_mint(), usdc_mint())).unwrap_err(),
        QuoteError::InsufficientLiquidity
    );
}

#[test]
fn missing_account_keeps_previous_snapshot() {
    let mut amm = configured();
    amm.update(&snapshot(&amm, 10, 1_000_000_000, 1_000_000)).unwrap();
    let mut partial = snapshot(&amm, 50, 2_000_000_000, 1_000_000);
    partial.remove(1);
    assert_eq!(amm.update(&partial), Err(UpdateError::MissingAccount));
    let q = amm.quote(&exact_in(100_000, usd_star_mint(), usdc_mint())).unwrap();
    assert_eq!(q.out_amount, 99_900);
    assert_eq!(q.fee_amount, 100);
}

#[test]
fn malformed_account_is_a_decode_error() {
    let mut amm = configured();
    let mut snap = snapshot(&amm, 10, 1_000_000_000, 1_000_000);
    snap[1].1[0] ^= 1;
    assert_eq!(amm.update(&snap), Err(UpdateError::DecodeError));
    let mut snap = snapshot(&amm, 10, 0, 1_000_000);
    assert_eq!(amm.update(&snap), Err(UpdateError::DecodeError));
    snap = snapshot(&amm, 10_001, 1_000_000_000, 1_000_000);
    assert_eq!(amm.update(&snap), Err(UpdateError::DecodeError));
    snap = snapshot(&amm, 10, 1_000_000_000, 1_000_000);
    snap[2].1.truncate(164);
    assert_eq!(amm.update(&snap), Err(UpdateError::DecodeError));
    assert_eq!(
        amm.quote(&exact_in(10, usd_star_mint(), usdc_mint())).unwrap_err(),
        QuoteError::StaleOrMissingSnapshot
    );
}

#[test]
fn missing_takes_precedence_over_decode() {
    let mut amm = configured();
    let mut snap = snapshot(&amm, 10, 1_000_000_000, 1_000_000);
    snap[0].1.clear();
    snap.remove(2);
    assert_eq!(amm.update(&snap), Err(UpdateError::MissingAccount));
}

#[test]
fn watched_accounts_are_vault_oracle_and_reserve() {
    let amm = configured();
    let watched = amm.get_accounts_to_update();
    assert_eq!(watched.len(), 3);
    assert_eq!(watched[0].bytes, main_usdc_vault().bytes);
    assert_eq!(watched[1].bytes, addr(7).bytes);
    let reserve = anchor_spl::associated_token::get_associated_token_address(
        &pk(&main_usdc_vault()),
        &pk(&usdc_mint()),
    );
    assert_eq!(watched[2].bytes, reserve.to_bytes());
    assert_ne!(watched[2].bytes, main_usdc_vault().bytes);
}

#[test]
fn watched_accounts_hold_each_address_once() {
    let amm = BankinecoAmm::new(Address::zeroed());
    let watched = amm.get_accounts_to_update();
    assert_eq!(watched.len(), 2);
    assert_eq!(watched[0].bytes, [0u8; 32]);
    assert_ne!(watched[1].bytes, [0u8; 32]);
    let amm = BankinecoAmm::from_config(addr(5), addr(5), addr(9));
    let watched = amm.get_accounts_to_update();
    assert_eq!(watched.len(), 2);
    assert_eq!(watched[0].bytes, addr(5).bytes);
    let mut amm = amm;
    let snap = vec![
        (watched[0], vault_data(10)),
        (watched[1], token_account_data(1_000_000)),
    ];
    assert_eq!(amm.update(&snap), Err(UpdateError::DecodeError));
}

#[test]
fn swap_accounts_have_fixed_layout_both_ways() {
    let amm = configured();
    let user = addr(42);
    let table = vec![
        (true, true),
        (false, true),
        (false, true),
        (false, false),
        (false, true),
        (false, true),
        (false, true),
        (false, true),
        (false, true),
        (false, true),
        (false, true),
        (false, false),
        (false, false),
        (false, false),
        (false, false),
    ];
    for (s, d) in [(usd_star_mint(), usdc_mint()), (usdc_mint(), usd_star_mint())] {
        let metas = amm.get_swap_and_account_metas(&SwapParams {
            source_mint: s,
            destination_mint: d,
            token_transfer_authority: user,
        });
        assert_eq!(metas.len(), 15);
        assert_eq!(flags(&metas), table);
        let ata = |o: &Address, m: &Address| {
            anchor_spl::associated_token::get_associated_token_address(&pk(o), &pk(m)).to_bytes()
        };
        let expected = vec![
            user.bytes,
            usd_star_bank().bytes,
            main_usdc_vault().bytes,
            addr(7).bytes,
            usdc_mint().bytes,
            usd_star_mint().bytes,
            ata(&user, &usdc_mint()),
            ata(&user, &usd_star_mint()),
            ata(&main_usdc_vault(), &usdc_mint()),
            addr(9).bytes,
            ata(&addr(9), &usdc_mint()),
            system_program_id().bytes,
            token_program_id().bytes,
            token_program_id().bytes,
            associated_token_program_id().bytes,
        ];
        assert_eq!(keys(&metas), expected);
        assert_ne!(metas[6].pubkey.bytes, user.bytes);
    }
}

#[test]
fn reversing_foreign_mints_swaps_mint_slots() {
    let amm = configured();
    let user = addr(42);
    let (a, b) = (addr(3), addr(4));
    let f = amm.get_swap_and_account_metas(&SwapParams {
        source_mint: a,
        destination_mint: b,
        token_transfer_authority: user,
    });
    let r = amm.get_swap_and_account_metas(&SwapParams {
        source_mint: b,
        destination_mint: a,
        token_transfer_authority: user,
    });
    let (f, r) = (keys(&f), keys(&r));
    assert_eq!((r[4], r[5]), (f[5], f[4]));
    assert_eq!((r[6], r[7]), (f[7], f[6]));
    assert_ne!(r[8], f[8]);
    assert_ne!(r[10], f[10]);
    for i in [0usize, 1, 2, 3, 9, 11, 12, 13, 14] {
        assert_eq!(r[i], f[i]);
    }
}

#[test]
fn registry_matches_the_well_known_addresses() {
    let s = |a: &str| Pubkey::from_str(a).unwrap().to_bytes();
    assert_eq!(program_id().bytes, s("save8RQVPMWNTzU18t3GBvBkN9hT7jsGjiCQ28FpD9H"));
    assert_eq!(usd_star_bank().bytes, s("save8RQVPMWNTzU18t3GBvBkN9hT7jsGjiCQ28FpD9H"));
    assert_eq!(usd_star_mint().bytes, s("star9agSpjiFe3M49B3RniVU4CMBBEK3Qnaqn3RGiFM"));
    assert_eq!(usdc_mint().bytes, s("EPjFWdd5AufqSSqeM2qN1xzybapC8G4wEGGkZwyTDt1v"));
    assert_eq!(main_usdc_vault().bytes, s("3bZ1qY6wfzyDH7QMPiRKLr6k8p1asdtyjvJyJsJBdv23"));
    assert_eq!(system_program_id().bytes, s("11111111111111111111111111111111"));
    assert_eq!(token_program_id().bytes, anchor_spl::token::ID.to_bytes());
    assert_eq!(
        associated_token_program_id().bytes,
        anchor_spl::associated_token::ID.to_bytes()
    );
}

#[test]
fn metadata_of_the_venue() {
    let amm = BankinecoAmm::new(main_usdc_vault());
    assert_eq!(amm.label(), "PerenaBankinecoAmm");
    assert_eq!(amm.program_id().bytes, program_id().bytes);
    assert_eq!(amm.key().bytes, main_usdc_vault().bytes);
    let mints = amm.get_reserve_mints();
    assert_eq!(mints.len(), 2);
    assert_eq!(mints[0].bytes, usd_star_mint().bytes);
    assert_eq!(mints[1].bytes, usdc_mint().bytes);
    assert!(!amm.has_dynamic_accounts());
    assert!(!amm.requires_update_for_reserve_mints());
    assert!(!amm.unidirectional());
    assert!(amm.is_active());
    assert_eq!(amm.get_accounts_len(), 32);
    assert!(amm.program_dependencies().is_empty());
    assert_eq!(amm.get_accounts_to_update()[1].bytes, [0u8; 32]);
}

#[test]
fn clone_does_not_share_the_snapshot() {
    let mut amm = configured();
    let copy = amm.clone();
    amm.update(&snapshot(&amm, 10, 1_000_000_000, 1_000_000)).unwrap();
    assert!(amm.quote(&exact_in(10, usd_star_mint(), usdc_mint())).is_ok());
    assert_eq!(
        copy.quote(&exact_in(10, usd_star_mint(), usdc_mint())).unwrap_err(),
        QuoteError::StaleOrMissingSnapshot
    );
}

#[test]
fn little_endian_reads_and_tags() {
    let d = vec![0x01, 0x02, 0x03, 0x04, 0x05, 0x06, 0x07, 0x08, 0xff];
    assert_eq!(read_le(&d, 0, 8), 0x0807060504030201);
    assert_eq!(read_le(&d, 7, 2), 0xff08);
    assert_eq!(read_le(&d, 3, 0), 0);
    assert!(has_tag(&VAULT_TAG.to_vec(), &VAULT_TAG));
    assert!(!has_tag(&VAULT_TAG[..7].to_vec(), &VAULT_TAG));
    assert!(!has_tag(&ORACLE_TAG.to_vec(), &VAULT_TAG));
}
