//! The ordered account list of the vault program's swap instruction.
use vstd::prelude::*;
use crate::address::{
    Address, associated_token_program_id, associated_token_program_id_bytes, system_program_id,
    system_program_id_bytes, token_program_id, token_program_id_bytes,
};
use solana_pubkey::Pubkey;

verus! {

/// The associated token account of `owner` for `mint`, as the SPL
/// associated token account program derives it.
pub uninterp spec fn associated_token_address_of(owner: Seq<u8>, mint: Seq<u8>) -> Seq<u8>;

/// Relies on anchor_spl::associated_token::get_associated_token_address:
/// a program-derived address computed from the two addresses alone. It panics
/// only where no bump seed yields an off-curve address, which the derivation
/// treats as statistically impossible.
#[verifier::external_body]
pub(crate) fn associated_token_address(owner: &Address, mint: &Address) -> (r: Address)
    ensures
        r@ == associated_token_address_of(owner@, mint@),
{
    let ata = anchor_spl::associated_token::get_associated_token_address(
        &Pubkey::new_from_array(owner.bytes),
        &Pubkey::new_from_array(mint.bytes),
    );
    Address { bytes: ata.to_bytes() }
}

/// One account of an instruction: its address and how the instruction uses it.
#[derive(Clone, Copy, Debug)]
pub struct AccountMeta {
    pub pubkey: Address,
    pub is_signer: bool,
    pub is_writable: bool,
}

/// What an account entry says: address, signer, writable.
pub type MetaView = (Seq<u8>, bool, bool);

impl View for AccountMeta {
    type V = MetaView;

    open spec fn view(&self) -> MetaView {
        (self.pubkey@, self.is_signer, self.is_writable)
    }
}

/// A writable account, signing when `is_signer`.
pub fn meta_writable(pubkey: Address, is_signer: bool) -> (r: AccountMeta)
    ensures
        r@ == (pubkey@, is_signer, true),
{
    AccountMeta { pubkey, is_signer, is_writable: true }
}

/// A read-only account that does not sign.
pub fn meta_readonly(pubkey: Address) -> (r: AccountMeta)
    ensures
        r@ == (pubkey@, false, false),
{
    AccountMeta { pubkey, is_signer: false, is_writable: false }
}

/// The addresses a swap instruction of the vault program refers to.
#[derive(Clone, Copy, Debug)]
pub struct BankinecoSwapAction {
    pub user: Address,
    pub bank: Address,
    pub vault: Address,
    pub oracle: Address,
    pub yielding_mint: Address,
    pub bank_mint: Address,
    pub team: Address,
    pub system_program: Address,
    pub token_program: Address,
    pub yielding_mint_program: Address,
    pub associated_token_program: Address,
}

/// The fifteen entries of the swap instruction, in the program's order.
pub open spec fn swap_metas(
    user: Seq<u8>,
    bank: Seq<u8>,
    vault: Seq<u8>,
    oracle: Seq<u8>,
    yielding_mint: Seq<u8>,
    bank_mint: Seq<u8>,
    team: Seq<u8>,
    yielding_mint_program: Seq<u8>,
) -> Seq<MetaView> {
    seq![
        (user, true, true),
        (bank, false, true),
        (vault, false, true),
        (oracle, false, false),
        (yielding_mint, false, true),
        (bank_mint, false, true),
        (associated_token_address_of(user, yielding_mint), false, true),
        (associated_token_address_of(user, bank_mint), false, true),
        (associated_token_address_of(vault, yielding_mint), false, true),
        (team, false, true),
        (associated_token_address_of(team, yielding_mint), false, true),
        (system_program_id_bytes(), false, false),
        (token_program_id_bytes(), false, false),
        (yielding_mint_program, false, false),
        (associated_token_program_id_bytes(), false, false),
    ]
}

/// The views of a list of account entries.
pub open spec fn metas_view(v: Seq<AccountMeta>) -> Seq<MetaView> {
    v.map_values(|m: AccountMeta| m@)
}

impl BankinecoSwapAction {
    /// The account list of the swap instruction. The system, token and
    /// associated token programs are the well-known ones, whatever the
    /// action's own fields for them hold.
    pub fn account_metas(&self) -> (r: Vec<AccountMeta>)
        ensures
            metas_view(r@) == swap_metas(
                self.user@,
                self.bank@,
                self.vault@,
                self.oracle@,
                self.yielding_mint@,
                self.bank_mint@,
                self.team@,
                self.yielding_mint_program@,
            ),
    {
        let yielding_user_ta = associated_token_address(&self.user, &self.yielding_mint);
        let bank_mint_user_ta = associated_token_address(&self.user, &self.bank_mint);
        let yielding_vault_ta = associated_token_address(&self.vault, &self.yielding_mint);
        let fee_team_ta = associated_token_address(&self.team, &self.yielding_mint);
        let r = vec![
            meta_writable(self.user, true),
            meta_writable(self.bank, false),
            meta_writable(self.vault, false),
            meta_readonly(self.oracle),
            meta_writable(self.yielding_mint, false),
            meta_writable(self.bank_mint, false),
            meta_writable(yielding_user_ta, false),
            meta_writable(bank_mint_user_ta, false),
            meta_writable(yielding_vault_ta, false),
            meta_writable(self.team, false),
            meta_writable(fee_team_ta, false),
            meta_readonly(system_program_id()),
            meta_readonly(token_program_id()),
            meta_readonly(self.yielding_mint_program),
            meta_readonly(associated_token_program_id()),
        ];
        assert(metas_view(r@) =~= swap_metas(
            self.user@,
            self.bank@,
            self.vault@,
            self.oracle@,
            self.yielding_mint@,
            self.bank_mint@,
            self.team@,
            self.yielding_mint_program@,
        ));
        r
    }
}

} // verus!
