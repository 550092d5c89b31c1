//! The fixed accounts of the chain that both instructions name, as the
//! chain's own crates publish them.

use crate::accounts::AuxiliaryAccounts;
use crate::address::{address_from, lemma_address_by_bytes, lemma_address_from, Address};
use vstd::prelude::*;

verus! {

/// The bytes of the system program's identifier: 32 zero bytes.
pub open spec fn system_program_bytes() -> Seq<u8> {
    Seq::new(32, |i: int| 0u8)
}

/// The bytes of the rent sysvar's identifier.
pub open spec fn rent_sysvar_bytes() -> Seq<u8> {
    seq![
        6u8, 167u8, 213u8, 23u8, 25u8, 44u8, 92u8, 81u8,
        33u8, 140u8, 201u8, 76u8, 61u8, 74u8, 241u8, 127u8,
        88u8, 218u8, 238u8, 8u8, 155u8, 161u8, 253u8, 68u8,
        227u8, 219u8, 217u8, 138u8, 0u8, 0u8, 0u8, 0u8,
    ]
}

/// The bytes of the token program's identifier.
pub open spec fn token_program_bytes() -> Seq<u8> {
    seq![
        6u8, 221u8, 246u8, 225u8, 215u8, 101u8, 161u8, 147u8,
        217u8, 203u8, 225u8, 70u8, 206u8, 235u8, 121u8, 172u8,
        28u8, 180u8, 133u8, 237u8, 95u8, 91u8, 55u8, 145u8,
        58u8, 140u8, 245u8, 133u8, 126u8, 255u8, 0u8, 169u8,
    ]
}

/// Calls `solana_program::system_program::id`. Trusted: the identifier
/// that the crate declares, in base58 a run of thirty-two `1`, is 32 zero
/// bytes.
#[verifier::external_body]
fn system_program_address() -> (a: Address)
    ensures
        a@ == system_program_bytes(),
{
    Address { bytes: solana_program::system_program::id().to_bytes() }
}

/// Calls `solana_program::sysvar::rent::id`. Trusted: the identifier that
/// the crate declares, in base58 `SysvarRent111111111111111111111111111111111`,
/// is the 32 bytes of `rent_sysvar_bytes`.
#[verifier::external_body]
fn rent_sysvar_address() -> (a: Address)
    ensures
        a@ == rent_sysvar_bytes(),
{
    Address { bytes: solana_program::sysvar::rent::id().to_bytes() }
}

/// Reads `anchor_spl::token::ID`. Trusted: the identifier that the crate
/// publishes, in base58 `TokenkegQfeZyiNwAJbNbGKPFXCWuBvf9Ss623VQ5DA`, is
/// the 32 bytes of `token_program_bytes`.
#[verifier::external_body]
fn token_program_address() -> (a: Address)
    ensures
        a@ == token_program_bytes(),
{
    Address { bytes: anchor_spl::token::ID.to_bytes() }
}

/// The fixed accounts as the chain publishes them: the system program,
/// the rent sysvar and the token program.
pub open spec fn well_known_accounts() -> AuxiliaryAccounts {
    AuxiliaryAccounts {
        system_registry: address_from(system_program_bytes()),
        rent_params: address_from(rent_sysvar_bytes()),
        token_sub_program: address_from(token_program_bytes()),
    }
}

impl AuxiliaryAccounts {
    /// The fixed accounts as the chain publishes them.
    pub fn well_known() -> (aux: AuxiliaryAccounts)
        ensures
            aux == well_known_accounts(),
    {
        let system_registry = system_program_address();
        let rent_params = rent_sysvar_address();
        let token_sub_program = token_program_address();
        proof {
            lemma_address_from(system_program_bytes());
            lemma_address_from(rent_sysvar_bytes());
            lemma_address_from(token_program_bytes());
            assert(system_program_bytes().take(32) =~= system_program_bytes());
            assert(rent_sysvar_bytes().take(32) =~= rent_sysvar_bytes());
            assert(token_program_bytes().take(32) =~= token_program_bytes());
            lemma_address_by_bytes(system_registry, address_from(system_program_bytes()));
            lemma_address_by_bytes(rent_params, address_from(rent_sysvar_bytes()));
            lemma_address_by_bytes(token_sub_program, address_from(token_program_bytes()));
        }
        AuxiliaryAccounts { system_registry, rent_params, token_sub_program }
    }
}

} // verus!
