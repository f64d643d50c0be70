//! The adapter: venue identity, the cached snapshot, and the host-facing calls.
use vstd::prelude::*;
use crate::accounts::{
    AccountMeta, BankinecoSwapAction, MetaView, associated_token_address, associated_token_address_of,
    metas_view, swap_metas,
};
use crate::address::{
    Address, associated_token_program_id, program_id, program_id_bytes, system_program_id,
    token_program_id, token_program_id_bytes, usd_star_bank, usd_star_bank_bytes, usd_star_mint,
    usd_star_mint_bytes, usdc_mint, usdc_mint_bytes,
};
use crate::quote::{Quote, QuoteError, QuoteParams, quote_from_state, quote_spec};
use crate::state::{UpdateError, VenueState, decode_snapshot, snapshot_state};

verus! {

/// The addresses a swap names besides the venue's own.
#[derive(Clone, Copy, Debug)]
pub struct SwapParams {
    pub source_mint: Address,
    pub destination_mint: Address,
    pub token_transfer_authority: Address,
}

/// The adapter for one vault. Copying it copies the cached snapshot by value.
#[derive(Clone, Copy, Debug)]
pub struct BankinecoAmm {
    bank: Address,
    vault: Address,
    team: Address,
    oracle: Address,
    yielding_mint_program: Address,
    state: Option<VenueState>,
}

/// The all-zero address of an unconfigured account.
pub open spec fn zero_address() -> Seq<u8> {
    Seq::new(32, |i: int| 0u8)
}

/// The yielding and bank mints of a swap, in that order: a swap from the
/// stable mint yields its destination, any other yields its source.
pub open spec fn swap_mints(source: Seq<u8>, destination: Seq<u8>) -> (Seq<u8>, Seq<u8>) {
    if source == usd_star_mint_bytes() {
        (destination, source)
    } else {
        (source, destination)
    }
}

impl BankinecoAmm {
    pub closed spec fn bank_spec(&self) -> Seq<u8> {
        self.bank@
    }

    pub closed spec fn vault_spec(&self) -> Seq<u8> {
        self.vault@
    }

    pub closed spec fn team_spec(&self) -> Seq<u8> {
        self.team@
    }

    pub closed spec fn oracle_spec(&self) -> Seq<u8> {
        self.oracle@
    }

    pub closed spec fn yielding_mint_program_spec(&self) -> Seq<u8> {
        self.yielding_mint_program@
    }

    /// The snapshot last taken into the cache, if any.
    pub closed spec fn cached(&self) -> Option<VenueState> {
        self.state
    }

    /// A cached snapshot, when there is one, is well formed.
    pub open spec fn wf(&self) -> bool {
        self.cached() matches Some(s) ==> s.wf()
    }

    /// Whether the two adapters are for the same venue, with the same
    /// configuration.
    pub open spec fn same_identity(&self, other: BankinecoAmm) -> bool {
        &&& self.bank_spec() == other.bank_spec()
        &&& self.vault_spec() == other.vault_spec()
        &&& self.team_spec() == other.team_spec()
        &&& self.oracle_spec() == other.oracle_spec()
        &&& self.yielding_mint_program_spec() == other.yielding_mint_program_spec()
    }

    /// The venue's yielding-asset token account.
    pub open spec fn reserve_spec(&self) -> Seq<u8> {
        associated_token_address_of(self.vault_spec(), usdc_mint_bytes())
    }

    /// The accounts a quote needs: vault, oracle, and the vault's
    /// yielding-asset token account.
    pub open spec fn watched_spec(&self) -> Seq<Seq<u8>> {
        seq![self.vault_spec(), self.oracle_spec(), self.reserve_spec()]
    }

    /// The swap instruction's accounts for a swap between `source` and
    /// `destination` on behalf of `user`.
    pub open spec fn swap_metas_spec(
        &self,
        user: Seq<u8>,
        source: Seq<u8>,
        destination: Seq<u8>,
    ) -> Seq<MetaView> {
        let (yielding, bank_mint) = swap_mints(source, destination);
        swap_metas(
            user,
            self.bank_spec(),
            self.vault_spec(),
            self.oracle_spec(),
            yielding,
            bank_mint,
            self.team_spec(),
            self.yielding_mint_program_spec(),
        )
    }

    /// An adapter for `vault` whose oracle and team are not configured.
    pub fn new(vault: Address) -> (r: BankinecoAmm)
        ensures
            r.wf(),
            r.vault_spec() == vault@,
            r.bank_spec() == usd_star_bank_bytes(),
            r.oracle_spec() == zero_address(),
            r.team_spec() == zero_address(),
            r.yielding_mint_program_spec() == token_program_id_bytes(),
            r.cached() is None,
    {
        BankinecoAmm::from_config(vault, Address::zeroed(), Address::zeroed())
    }

    /// An adapter for `vault` with its oracle and team fee addresses.
    pub fn from_config(vault: Address, oracle: Address, team: Address) -> (r: BankinecoAmm)
        ensures
            r.wf(),
            r.vault_spec() == vault@,
            r.bank_spec() == usd_star_bank_bytes(),
            r.oracle_spec() == oracle@,
            r.team_spec() == team@,
            r.yielding_mint_program_spec() == token_program_id_bytes(),
            r.cached() is None,
    {
        BankinecoAmm {
            bank: usd_star_bank(),
            vault,
            team,
            oracle,
            yielding_mint_program: token_program_id(),
            state: None,
        }
    }

    pub fn label(&self) -> (r: String)
        ensures
            r@ == "PerenaBankinecoAmm"@,
    {
        "PerenaBankinecoAmm".to_string()
    }

    pub fn program_id(&self) -> (r: Address)
        ensures
            r@ == program_id_bytes(),
    {
        program_id()
    }

    /// The vault: the adapter's own key.
    pub fn key(&self) -> (r: Address)
        ensures
            r@ == self.vault_spec(),
    {
        self.vault
    }

    /// The stable mint, then the yielding mint.
    pub fn get_reserve_mints(&self) -> (r: Vec<Address>)
        ensures
            r@.map_values(|a: Address| a@) == seq![usd_star_mint_bytes(), usdc_mint_bytes()],
    {
        let r = vec![usd_star_mint(), usdc_mint()];
        assert(r@.map_values(|a: Address| a@) =~= seq![usd_star_mint_bytes(), usdc_mint_bytes()]);
        r
    }

    /// The accounts whose data `update` needs: the set of the vault, the
    /// oracle and the reserve account, each address once, vault first.
    pub fn get_accounts_to_update(&self) -> (r: Vec<Address>)
        ensures
            r@.map_values(|a: Address| a@).no_duplicates(),
            r@.map_values(|a: Address| a@).to_set() == self.watched_spec().to_set(),
            r@.len() >= 1 && r@[0]@ == self.vault_spec(),
    {
        let reserve = associated_token_address(&self.vault, &usdc_mint());
        let mut r: Vec<Address> = vec![self.vault];
        let oracle_new = !self.oracle.same_as(&self.vault);
        if oracle_new {
            r.push(self.oracle);
        }
        let reserve_new = !reserve.same_as(&self.vault) && !reserve.same_as(&self.oracle);
        if reserve_new {
            r.push(reserve);
        }
        let ghost v = r@.map_values(|a: Address| a@);
        let ghost w = self.watched_spec();
        assert forall|x: Seq<u8>| v.to_set().contains(x) <==> w.to_set().contains(x) by {
            if v.contains(x) {
                let i = choose|i: int| 0 <= i < v.len() && v[i] == x;
                assert(w[0] == v[0]);
                if i == 1 && oracle_new {
                    assert(w[1] == x);
                } else if i >= 1 {
                    assert(w[2] == x);
                }
                assert(w.contains(x));
            }
            if w.contains(x) {
                let j = choose|j: int| 0 <= j < w.len() && w[j] == x;
                if j == 0 {
                    assert(v[0] == x);
                } else if j == 1 {
                    if oracle_new {
                        assert(v[1] == x);
                    } else {
                        assert(v[0] == x);
                    }
                } else if !reserve_new {
                    if reserve@ == self.vault@ {
                        assert(v[0] == x);
                    } else {
                        assert(oracle_new && v[1] == x);
                    }
                } else {
                    assert(v[v.len() - 1] == x);
                }
                assert(v.contains(x));
            }
        }
        assert(v.to_set() =~= w.to_set());
        r
    }

    /// Replaces the cached snapshot with the one `accounts` describes. On
    /// failure the adapter is left as it was.
    pub fn update(&mut self, accounts: &Vec<(Address, Vec<u8>)>) -> (r: Result<(), UpdateError>)
        requires
            old(self).wf(),
        ensures
            final(self).wf(),
            match snapshot_state(
                accounts@,
                old(self).vault_spec(),
                old(self).oracle_spec(),
                old(self).reserve_spec(),
            ) {
                Ok(s) => r is Ok && final(self).same_identity(*old(self)) && final(self).cached()
                    == Some(s),
                Err(e) => r == Err::<(), UpdateError>(e) && *final(self) == *old(self),
            },
    {
        let reserve = associated_token_address(&self.vault, &usdc_mint());
        match decode_snapshot(accounts, &self.vault, &self.oracle, &reserve) {
            Ok(s) => {
                self.state = Some(s);
                Ok(())
            },
            Err(e) => Err(e),
        }
    }

    /// Prices a trade against the cached snapshot.
    pub fn quote(&self, params: &QuoteParams) -> (r: Result<Quote, QuoteError>)
        requires
            self.wf(),
        ensures
            r == quote_spec(self.cached(), *params),
    {
        quote_from_state(&self.state, params)
    }

    /// The accounts of the swap instruction for `params`.
    pub fn get_swap_and_account_metas(&self, params: &SwapParams) -> (r: Vec<AccountMeta>)
        ensures
            metas_view(r@) == self.swap_metas_spec(
                params.token_transfer_authority@,
                params.source_mint@,
                params.destination_mint@,
            ),
    {
        let from_stable = params.source_mint.same_as(&usd_star_mint());
        let (yielding_mint, bank_mint) = if from_stable {
            (params.destination_mint, params.source_mint)
        } else {
            (params.source_mint, params.destination_mint)
        };
        let action = BankinecoSwapAction {
            user: params.token_transfer_authority,
            bank: self.bank,
            vault: self.vault,
            oracle: self.oracle,
            yielding_mint,
            bank_mint,
            team: self.team,
            system_program: system_program_id(),
            token_program: token_program_id(),
            yielding_mint_program: self.yielding_mint_program,
            associated_token_program: associated_token_program_id(),
        };
        action.account_metas()
    }

    pub fn has_dynamic_accounts(&self) -> (r: bool)
        ensures
            !r,
    {
        false
    }

    /// Whether `update` must run before `get_reserve_mints`.
    pub fn requires_update_for_reserve_mints(&self) -> (r: bool)
        ensures
            !r,
    {
        false
    }

    pub fn supports_exact_out(&self) -> (r: bool)
        ensures
            !r,
    {
        false
    }

    /// Whether trades go only from the first reserve mint to the second.
    pub fn unidirectional(&self) -> (r: bool)
        ensures
            !r,
    {
        false
    }

    /// An upper bound on the accounts a swap adds to a transaction.
    pub fn get_accounts_len(&self) -> (r: usize)
        ensures
            r == 32,
    {
        32
    }

    /// The programs a swap depends on besides the vault program: none.
    pub fn program_dependencies(&self) -> (r: Vec<(Address, String)>)
        ensures
            r@.len() == 0,
    {
        Vec::new()
    }

    pub fn is_active(&self) -> (r: bool)
        ensures
            r,
    {
        true
    }
}

} // verus!
