//! The instructions that mint one NFT: the entry points that take plain
//! identifiers and text, with one creator who holds the whole share.

use crate::accounts::{
    create_master_edition_refs, list_create_master_edition_refs, AuxiliaryAccounts,
};
use crate::address::Address;
use crate::error::BuildError;
use crate::instruction::{
    assemble, default_builder, Instruction, InstructionBuilder, InstructionView,
};
use crate::params::{CreateMasterEditionParams, CreateMetadataParams, CreateMetadataView, Creator};
use crate::payload::{
    create_master_edition_payload, encode_create_master_edition, schema_v3, Schema,
};
use crate::well_known::well_known_accounts;
use vstd::prelude::*;
use vstd::slice::slice_to_vec;
use vstd::utf8::encode_utf8;

verus! {

/// The royalty written for every token minted here: 100 basis points.
pub const ROYALTY_BASIS_POINTS: u8 = 100;

/// The share of a sole creator, in percent.
pub const WHOLE_SHARE: u8 = 100;

/// The accounts of one mint, as far as the two instructions name them.
#[derive(Clone, Copy, Debug, PartialEq, Eq)]
pub struct MintNFT {
    pub payer: Address,
    pub mint: Address,
    pub metadata: Address,
    pub master_edition: Address,
    pub token_metadata_program: Address,
}

/// The parameters of "create metadata account" for a token with one
/// verified creator who holds the whole share.
pub open spec fn sole_creator_params(
    metadata_account: Address,
    mint: Address,
    mint_authority: Address,
    payer: Address,
    update_authority: Address,
    name: Seq<u8>,
    symbol: Seq<u8>,
    uri: Seq<u8>,
    creator: Address,
) -> CreateMetadataView {
    CreateMetadataView {
        metadata_account: Some(metadata_account),
        mint: Some(mint),
        mint_authority: Some(mint_authority),
        payer: Some(payer),
        update_authority: Some(update_authority),
        name,
        symbol,
        uri,
        royalty_basis_points: ROYALTY_BASIS_POINTS,
        creators: seq![Creator { address: creator, verified: true, share_percent: WHOLE_SHARE }],
    }
}

/// The parameters of "create master edition" with a supply limit.
pub open spec fn limited_edition_params(
    edition: Address,
    mint: Address,
    update_authority: Address,
    mint_authority: Address,
    metadata: Address,
    payer: Address,
    max_supply: u64,
) -> CreateMasterEditionParams {
    CreateMasterEditionParams {
        edition: Some(edition),
        mint: Some(mint),
        update_authority: Some(update_authority),
        mint_authority: Some(mint_authority),
        metadata: Some(metadata),
        payer: Some(payer),
        max_supply: Some(max_supply),
    }
}

/// What `create_metadata_accounts_v3` gives for text already in bytes.
pub open spec fn metadata_instruction(
    program_id: Address,
    metadata_account: Address,
    mint: Address,
    mint_authority: Address,
    payer: Address,
    update_authority: Address,
    name: Seq<u8>,
    symbol: Seq<u8>,
    uri: Seq<u8>,
    creator: Address,
) -> Result<InstructionView, BuildError> {
    default_builder(program_id, well_known_accounts()).create_metadata_outcome(
        sole_creator_params(
            metadata_account,
            mint,
            mint_authority,
            payer,
            update_authority,
            name,
            symbol,
            uri,
            creator,
        ),
    )
}

/// What `create_master_edition_v3` gives: the target program, the nine
/// accounts with the chain's fixed ones, and the payload with the supply
/// limit present.
pub open spec fn master_edition_instruction(
    program_id: Address,
    edition: Address,
    mint: Address,
    update_authority: Address,
    mint_authority: Address,
    metadata: Address,
    payer: Address,
    max_supply: u64,
) -> InstructionView {
    InstructionView {
        target_program: program_id,
        accounts: create_master_edition_refs(
            edition,
            mint,
            update_authority,
            mint_authority,
            payer,
            metadata,
            well_known_accounts(),
        ),
        data: create_master_edition_payload(schema_v3(), Some(max_supply)),
    }
}

/// The two instructions of `mint_nft`, in the order in which they are to
/// run: the payer is mint authority, update authority and sole creator,
/// and the edition is limited to the one token.
pub open spec fn mint_instructions(
    accounts: MintNFT,
    name: Seq<u8>,
    symbol: Seq<u8>,
    uri: Seq<u8>,
) -> Result<(InstructionView, InstructionView), BuildError> {
    match metadata_instruction(
        accounts.token_metadata_program,
        accounts.metadata,
        accounts.mint,
        accounts.payer,
        accounts.payer,
        accounts.payer,
        name,
        symbol,
        uri,
        accounts.payer,
    ) {
        Ok(create_metadata) => Ok(
            (
                create_metadata,
                master_edition_instruction(
                    accounts.token_metadata_program,
                    accounts.master_edition,
                    accounts.mint,
                    accounts.payer,
                    accounts.payer,
                    accounts.metadata,
                    accounts.payer,
                    0,
                ),
            ),
        ),
        Err(e) => Err(e),
    }
}

/// Builds "create metadata account" for a token whose sole, verified
/// creator is `creator`, with the chain's fixed accounts. A name, symbol
/// or uri of more than 255 bytes is refused.
pub fn create_metadata_accounts_v3(
    program_id: Address,
    metadata_account: Address,
    mint: Address,
    mint_authority: Address,
    payer: Address,
    update_authority: Address,
    name: String,
    symbol: String,
    uri: String,
    creator: Address,
) -> (r: Result<Instruction, BuildError>)
    ensures
        match r {
            Ok(ix) => metadata_instruction(
                program_id,
                metadata_account,
                mint,
                mint_authority,
                payer,
                update_authority,
                encode_utf8(name@),
                encode_utf8(symbol@),
                encode_utf8(uri@),
                creator,
            ) == Ok::<InstructionView, BuildError>(ix@),
            Err(e) => metadata_instruction(
                program_id,
                metadata_account,
                mint,
                mint_authority,
                payer,
                update_authority,
                encode_utf8(name@),
                encode_utf8(symbol@),
                encode_utf8(uri@),
                creator,
            ) == Err::<InstructionView, BuildError>(e),
        },
{
    let builder = InstructionBuilder::new(program_id, AuxiliaryAccounts::well_known());
    let mut creators: Vec<Creator> = Vec::new();
    creators.push(Creator { address: creator, verified: true, share_percent: WHOLE_SHARE });
    let params = CreateMetadataParams {
        metadata_account: Some(metadata_account),
        mint: Some(mint),
        mint_authority: Some(mint_authority),
        payer: Some(payer),
        update_authority: Some(update_authority),
        name: slice_to_vec(name.as_str().as_bytes()),
        symbol: slice_to_vec(symbol.as_str().as_bytes()),
        uri: slice_to_vec(uri.as_str().as_bytes()),
        royalty_basis_points: ROYALTY_BASIS_POINTS,
        creators,
    };
    proof {
        assert(params@.creators =~= seq![
            Creator { address: creator, verified: true, share_percent: WHOLE_SHARE },
        ]);
        assert(params@ == sole_creator_params(
            metadata_account,
            mint,
            mint_authority,
            payer,
            update_authority,
            encode_utf8(name@),
            encode_utf8(symbol@),
            encode_utf8(uri@),
            creator,
        ));
    }
    builder.build_create_metadata_instruction(&params)
}

/// Builds "create master edition" with the supply limit `max_supply` and
/// the chain's fixed accounts.
pub fn create_master_edition_v3(
    program_id: Address,
    edition: Address,
    mint: Address,
    update_authority: Address,
    mint_authority: Address,
    metadata: Address,
    payer: Address,
    max_supply: u64,
) -> (ix: Instruction)
    ensures
        ix@ == master_edition_instruction(
            program_id,
            edition,
            mint,
            update_authority,
            mint_authority,
            metadata,
            payer,
            max_supply,
        ),
        default_builder(program_id, well_known_accounts()).create_master_edition_outcome(
            limited_edition_params(
                edition,
                mint,
                update_authority,
                mint_authority,
                metadata,
                payer,
                max_supply,
            ),
        ) == Ok::<InstructionView, BuildError>(ix@),
{
    let aux = AuxiliaryAccounts::well_known();
    let params = CreateMasterEditionParams {
        edition: Some(edition),
        mint: Some(mint),
        update_authority: Some(update_authority),
        mint_authority: Some(mint_authority),
        metadata: Some(metadata),
        payer: Some(payer),
        max_supply: Some(max_supply),
    };
    let accounts = list_create_master_edition_refs(
        edition,
        mint,
        update_authority,
        mint_authority,
        payer,
        metadata,
        &aux,
    );
    let data = encode_create_master_edition(&params, &Schema::v3());
    assemble(program_id, accounts, data)
}

/// Builds the two instructions that give a freshly minted token its
/// metadata and its master edition, in the order in which they are to run.
pub fn mint_nft(accounts: &MintNFT, name: String, symbol: String, uri: String) -> (r: Result<
    (Instruction, Instruction),
    BuildError,
>)
    ensures
        match r {
            Ok((create_metadata, create_master_edition)) => mint_instructions(
                *accounts,
                encode_utf8(name@),
                encode_utf8(symbol@),
                encode_utf8(uri@),
            ) == Ok::<(InstructionView, InstructionView), BuildError>(
                (create_metadata@, create_master_edition@),
            ),
            Err(e) => mint_instructions(
                *accounts,
                encode_utf8(name@),
                encode_utf8(symbol@),
                encode_utf8(uri@),
            ) == Err::<(InstructionView, InstructionView), BuildError>(e),
        },
{
    let create_metadata = match create_metadata_accounts_v3(
        accounts.token_metadata_program,
        accounts.metadata,
        accounts.mint,
        accounts.payer,
        accounts.payer,
        accounts.payer,
        name,
        symbol,
        uri,
        accounts.payer,
    ) {
        Ok(ix) => ix,
        Err(e) => {
            return Err(e);
        },
    };
    let create_master_edition = create_master_edition_v3(
        accounts.token_metadata_program,
        accounts.master_edition,
        accounts.mint,
        accounts.payer,
        accounts.payer,
        accounts.metadata,
        accounts.payer,
        0,
    );
    Ok((create_metadata, create_master_edition))
}

} // verus!
