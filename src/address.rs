//! On-chain addresses and the registry of well-known ones.
use vstd::prelude::*;

verus! {

/// A 32-byte on-chain address.
#[derive(Clone, Copy, Debug)]
pub struct Address {
    pub bytes: [u8; 32],
}

impl View for Address {
    type V = Seq<u8>;

    open spec fn view(&self) -> Seq<u8> {
        self.bytes@
    }
}

impl Address {
    /// The all-zero address, used where an address is not configured.
    pub fn zeroed() -> (r: Address)
        ensures
            r@ == Seq::new(32, |i: int| 0u8),
    {
        let r = Address { bytes: [0u8; 32] };
        assert(r@ =~= Seq::new(32, |i: int| 0u8));
        r
    }

    /// Byte-wise equality of two addresses.
    pub fn same_as(&self, other: &Address) -> (r: bool)
        ensures
            r == (self@ == other@),
    {
        let mut i: usize = 0;
        while i < 32
            invariant
                0 <= i <= 32,
                self@.len() == 32,
                other@.len() == 32,
                forall|j: int| 0 <= j < i ==> self@[j] == other@[j],
            decreases 32 - i,
        {
            if self.bytes[i] != other.bytes[i] {
                assert(self@[i as int] != other@[i as int]);
                return false;
            }
            i += 1;
        }
        assert(self@ =~= other@);
        true
    }
}

/// The vault program (save8RQVPMWNTzU18t3GBvBkN9hT7jsGjiCQ28FpD9H).
pub open spec fn program_id_bytes() -> Seq<u8> {
    seq![
        12u8, 245u8, 102u8, 61u8, 217u8, 188u8, 195u8, 218u8,
        206u8, 29u8, 172u8, 251u8, 22u8, 110u8, 22u8, 212u8,
        13u8, 20u8, 60u8, 231u8, 199u8, 158u8, 203u8, 129u8,
        194u8, 57u8, 229u8, 74u8, 187u8, 10u8, 135u8, 232u8,
    ]
}

/// The vault program.
pub fn program_id() -> (r: Address)
    ensures
        r@ == program_id_bytes(),
{
    let r = Address {
        bytes: [
            12, 245, 102, 61, 217, 188, 195, 218, 206, 29, 172, 251, 22, 110, 22, 212,
            13, 20, 60, 231, 199, 158, 203, 129, 194, 57, 229, 74, 187, 10, 135, 232,
        ],
    };
    assert(r@ =~= program_id_bytes());
    r
}

/// The bank's stable mint, USD* (star9agSpjiFe3M49B3RniVU4CMBBEK3Qnaqn3RGiFM).
pub open spec fn usd_star_mint_bytes() -> Seq<u8> {
    seq![
        13u8, 9u8, 93u8, 190u8, 135u8, 153u8, 95u8, 149u8,
        60u8, 27u8, 94u8, 58u8, 32u8, 167u8, 130u8, 124u8,
        150u8, 157u8, 208u8, 228u8, 203u8, 99u8, 252u8, 41u8,
        160u8, 227u8, 239u8, 15u8, 132u8, 98u8, 27u8, 92u8,
    ]
}

/// The bank's stable mint, USD*.
pub fn usd_star_mint() -> (r: Address)
    ensures
        r@ == usd_star_mint_bytes(),
{
    let r = Address {
        bytes: [
            13, 9, 93, 190, 135, 153, 95, 149, 60, 27, 94, 58, 32, 167, 130, 124,
            150, 157, 208, 228, 203, 99, 252, 41, 160, 227, 239, 15, 132, 98, 27, 92,
        ],
    };
    assert(r@ =~= usd_star_mint_bytes());
    r
}

/// The yielding asset's mint, USDC (EPjFWdd5AufqSSqeM2qN1xzybapC8G4wEGGkZwyTDt1v).
pub open spec fn usdc_mint_bytes() -> Seq<u8> {
    seq![
        198u8, 250u8, 122u8, 243u8, 190u8, 219u8, 173u8, 58u8,
        61u8, 101u8, 243u8, 106u8, 171u8, 201u8, 116u8, 49u8,
        177u8, 187u8, 228u8, 194u8, 210u8, 246u8, 224u8, 228u8,
        124u8, 166u8, 2u8, 3u8, 69u8, 47u8, 93u8, 97u8,
    ]
}

/// The yielding asset's mint, USDC.
pub fn usdc_mint() -> (r: Address)
    ensures
        r@ == usdc_mint_bytes(),
{
    let r = Address {
        bytes: [
            198, 250, 122, 243, 190, 219, 173, 58, 61, 101, 243, 106, 171, 201, 116, 49,
            177, 187, 228, 194, 210, 246, 224, 228, 124, 166, 2, 3, 69, 47, 93, 97,
        ],
    };
    assert(r@ =~= usdc_mint_bytes());
    r
}

/// The USD* bank account (save8RQVPMWNTzU18t3GBvBkN9hT7jsGjiCQ28FpD9H).
pub open spec fn usd_star_bank_bytes() -> Seq<u8> {
    seq![
        12u8, 245u8, 102u8, 61u8, 217u8, 188u8, 195u8, 218u8,
        206u8, 29u8, 172u8, 251u8, 22u8, 110u8, 22u8, 212u8,
        13u8, 20u8, 60u8, 231u8, 199u8, 158u8, 203u8, 129u8,
        194u8, 57u8, 229u8, 74u8, 187u8, 10u8, 135u8, 232u8,
    ]
}

/// The USD* bank account.
pub fn usd_star_bank() -> (r: Address)
    ensures
        r@ == usd_star_bank_bytes(),
{
    let r = Address {
        bytes: [
            12, 245, 102, 61, 217, 188, 195, 218, 206, 29, 172, 251, 22, 110, 22, 212,
            13, 20, 60, 231, 199, 158, 203, 129, 194, 57, 229, 74, 187, 10, 135, 232,
        ],
    };
    assert(r@ =~= usd_star_bank_bytes());
    r
}

/// The main USDC vault (3bZ1qY6wfzyDH7QMPiRKLr6k8p1asdtyjvJyJsJBdv23).
pub open spec fn main_usdc_vault_bytes() -> Seq<u8> {
    seq![
        38u8, 145u8, 81u8, 248u8, 2u8, 18u8, 130u8, 4u8,
        79u8, 27u8, 130u8, 228u8, 170u8, 249u8, 106u8, 63u8,
        179u8, 249u8, 96u8, 200u8, 226u8, 112u8, 52u8, 214u8,
        62u8, 255u8, 50u8, 186u8, 94u8, 20u8, 57u8, 144u8,
    ]
}

/// The main USDC vault.
pub fn main_usdc_vault() -> (r: Address)
    ensures
        r@ == main_usdc_vault_bytes(),
{
    let r = Address {
        bytes: [
            38, 145, 81, 248, 2, 18, 130, 4, 79, 27, 130, 228, 170, 249, 106, 63,
            179, 249, 96, 200, 226, 112, 52, 214, 62, 255, 50, 186, 94, 20, 57, 144,
        ],
    };
    assert(r@ =~= main_usdc_vault_bytes());
    r
}

/// The SPL token program (TokenkegQfeZyiNwAJbNbGKPFXCWuBvf9Ss623VQ5DA).
pub open spec fn token_program_id_bytes() -> Seq<u8> {
    seq![
        6u8, 221u8, 246u8, 225u8, 215u8, 101u8, 161u8, 147u8,
        217u8, 203u8, 225u8, 70u8, 206u8, 235u8, 121u8, 172u8,
        28u8, 180u8, 133u8, 237u8, 95u8, 91u8, 55u8, 145u8,
        58u8, 140u8, 245u8, 133u8, 126u8, 255u8, 0u8, 169u8,
    ]
}

/// The SPL token program.
pub fn token_program_id() -> (r: Address)
    ensures
        r@ == token_program_id_bytes(),
{
    let r = Address {
        bytes: [
            6, 221, 246, 225, 215, 101, 161, 147, 217, 203, 225, 70, 206, 235, 121, 172,
            28, 180, 133, 237, 95, 91, 55, 145, 58, 140, 245, 133, 126, 255, 0, 169,
        ],
    };
    assert(r@ =~= token_program_id_bytes());
    r
}

/// The associated token account program (ATokenGPvbdGVxr1b2hvZbsiqW5xWH25efTNsLJA8knL).
pub open spec fn associated_token_program_id_bytes() -> Seq<u8> {
    seq![
        140u8, 151u8, 37u8, 143u8, 78u8, 36u8, 137u8, 241u8,
        187u8, 61u8, 16u8, 41u8, 20u8, 142u8, 13u8, 131u8,
        11u8, 90u8, 19u8, 153u8, 218u8, 255u8, 16u8, 132u8,
        4u8, 142u8, 123u8, 216u8, 219u8, 233u8, 248u8, 89u8,
    ]
}

/// The associated token account program.
pub fn associated_token_program_id() -> (r: Address)
    ensures
        r@ == associated_token_program_id_bytes(),
{
    let r = Address {
        bytes: [
            140, 151, 37, 143, 78, 36, 137, 241, 187, 61, 16, 41, 20, 142, 13, 131,
            11, 90, 19, 153, 218, 255, 16, 132, 4, 142, 123, 216, 219, 233, 248, 89,
        ],
    };
    assert(r@ =~= associated_token_program_id_bytes());
    r
}

/// The system program (11111111111111111111111111111111).
pub open spec fn system_program_id_bytes() -> Seq<u8> {
    seq![
        0u8, 0u8, 0u8, 0u8, 0u8, 0u8, 0u8, 0u8,
        0u8, 0u8, 0u8, 0u8, 0u8, 0u8, 0u8, 0u8,
        0u8, 0u8, 0u8, 0u8, 0u8, 0u8, 0u8, 0u8,
        0u8, 0u8, 0u8, 0u8, 0u8, 0u8, 0u8, 0u8,
    ]
}

/// The system program.
pub fn system_program_id() -> (r: Address)
    ensures
        r@ == system_program_id_bytes(),
{
    let r = Address {
        bytes: [
            0, 0, 0, 0, 0, 0, 0, 0, 0, 0, 0, 0, 0, 0, 0, 0,
            0, 0, 0, 0, 0, 0, 0, 0, 0, 0, 0, 0, 0, 0, 0, 0,
        ],
    };
    assert(r@ =~= system_program_id_bytes());
    r
}

} // verus!
