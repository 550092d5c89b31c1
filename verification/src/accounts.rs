//! The ordered account references of each instruction. Position encodes
//! role: the lists are fixed in length and order.

use crate::address::Address;
use crate::error::BuildError;
use crate::params::{CreateMasterEditionParams, CreateMetadataParams, CreateMetadataView};
use vstd::prelude::*;

verus! {

/// An account as an instruction refers to it.
#[derive(Clone, Copy, Debug, PartialEq, Eq)]
pub struct AccountRef {
    pub address: Address,
    pub is_signer: bool,
    pub is_writable: bool,
}

/// The fixed accounts that both instructions name.
#[derive(Clone, Copy, Debug, PartialEq, Eq)]
pub struct AuxiliaryAccounts {
    pub system_registry: Address,
    pub rent_params: Address,
    pub token_sub_program: Address,
}

/// A reference to an account that the instruction may write.
pub open spec fn writable(address: Address, is_signer: bool) -> AccountRef {
    AccountRef { address, is_signer, is_writable: true }
}

/// A reference to an account that the instruction only reads.
pub open spec fn readonly(address: Address, is_signer: bool) -> AccountRef {
    AccountRef { address, is_signer, is_writable: false }
}

/// The signer and writable flags of a list, in order.
pub open spec fn flags(list: Seq<AccountRef>) -> Seq<(bool, bool)> {
    list.map_values(|a: AccountRef| (a.is_signer, a.is_writable))
}

/// The signer and writable flags that "create metadata account" asks for.
pub open spec fn create_metadata_flags() -> Seq<(bool, bool)> {
    seq![
        (false, true),
        (false, false),
        (true, false),
        (true, true),
        (true, false),
        (false, false),
        (false, false),
    ]
}

/// The signer and writable flags that "create master edition" asks for.
pub open spec fn create_master_edition_flags() -> Seq<(bool, bool)> {
    seq![
        (false, true),
        (false, true),
        (true, false),
        (true, false),
        (true, true),
        (false, false),
        (false, false),
        (false, false),
        (false, false),
    ]
}

/// The account list of "create metadata account" for these identifiers.
pub open spec fn create_metadata_refs(
    metadata_account: Address,
    mint: Address,
    mint_authority: Address,
    payer: Address,
    update_authority: Address,
    aux: AuxiliaryAccounts,
) -> Seq<AccountRef> {
    seq![
        writable(metadata_account, false),
        readonly(mint, false),
        readonly(mint_authority, true),
        writable(payer, true),
        readonly(update_authority, true),
        readonly(aux.system_registry, false),
        readonly(aux.rent_params, false),
    ]
}

/// The account list of "create master edition" for these identifiers.
pub open spec fn create_master_edition_refs(
    edition: Address,
    mint: Address,
    update_authority: Address,
    mint_authority: Address,
    payer: Address,
    metadata: Address,
    aux: AuxiliaryAccounts,
) -> Seq<AccountRef> {
    seq![
        writable(edition, false),
        writable(mint, false),
        readonly(update_authority, true),
        readonly(mint_authority, true),
        writable(payer, true),
        readonly(metadata, false),
        readonly(aux.token_sub_program, false),
        readonly(aux.system_registry, false),
        readonly(aux.rent_params, false),
    ]
}

/// The account list of "create metadata account", or `None` where an
/// identifier is missing.
pub open spec fn create_metadata_account_list(
    p: CreateMetadataView,
    aux: AuxiliaryAccounts,
) -> Option<Seq<AccountRef>> {
    if p.complete() {
        Some(
            create_metadata_refs(
                p.metadata_account->0,
                p.mint->0,
                p.mint_authority->0,
                p.payer->0,
                p.update_authority->0,
                aux,
            ),
        )
    } else {
        None
    }
}

/// The account list of "create master edition", or `None` where an
/// identifier is missing.
pub open spec fn create_master_edition_account_list(
    p: CreateMasterEditionParams,
    aux: AuxiliaryAccounts,
) -> Option<Seq<AccountRef>> {
    if p.complete() {
        Some(
            create_master_edition_refs(
                p.edition->0,
                p.mint->0,
                p.update_authority->0,
                p.mint_authority->0,
                p.payer->0,
                p.metadata->0,
                aux,
            ),
        )
    } else {
        None
    }
}

impl AccountRef {
    /// A reference to an account that the instruction may write.
    pub fn new(address: Address, is_signer: bool) -> (r: AccountRef)
        ensures
            r == writable(address, is_signer),
    {
        AccountRef { address, is_signer, is_writable: true }
    }

    /// A reference to an account that the instruction only reads.
    pub fn new_readonly(address: Address, is_signer: bool) -> (r: AccountRef)
        ensures
            r == readonly(address, is_signer),
    {
        AccountRef { address, is_signer, is_writable: false }
    }
}

/// Lists the accounts of "create metadata account" in the receiving
/// program's order.
pub fn list_create_metadata_refs(
    metadata_account: Address,
    mint: Address,
    mint_authority: Address,
    payer: Address,
    update_authority: Address,
    aux: &AuxiliaryAccounts,
) -> (list: Vec<AccountRef>)
    ensures
        list@ == create_metadata_refs(
            metadata_account,
            mint,
            mint_authority,
            payer,
            update_authority,
            *aux,
        ),
        flags(list@) == create_metadata_flags(),
{
    let mut list: Vec<AccountRef> = Vec::new();
    list.push(AccountRef::new(metadata_account, false));
    list.push(AccountRef::new_readonly(mint, false));
    list.push(AccountRef::new_readonly(mint_authority, true));
    list.push(AccountRef::new(payer, true));
    list.push(AccountRef::new_readonly(update_authority, true));
    list.push(AccountRef::new_readonly(aux.system_registry, false));
    list.push(AccountRef::new_readonly(aux.rent_params, false));
    proof {
        assert(list@ =~= create_metadata_refs(
            metadata_account,
            mint,
            mint_authority,
            payer,
            update_authority,
            *aux,
        ));
        lemma_create_metadata_flags(
            metadata_account,
            mint,
            mint_authority,
            payer,
            update_authority,
            *aux,
        );
    }
    list
}

/// Lists the accounts of "create master edition" in the receiving
/// program's order.
pub fn list_create_master_edition_refs(
    edition: Address,
    mint: Address,
    update_authority: Address,
    mint_authority: Address,
    payer: Address,
    metadata: Address,
    aux: &AuxiliaryAccounts,
) -> (list: Vec<AccountRef>)
    ensures
        list@ == create_master_edition_refs(
            edition,
            mint,
            update_authority,
            mint_authority,
            payer,
            metadata,
            *aux,
        ),
        flags(list@) == create_master_edition_flags(),
{
    let mut list: Vec<AccountRef> = Vec::new();
    list.push(AccountRef::new(edition, false));
    list.push(AccountRef::new(mint, false));
    list.push(AccountRef::new_readonly(update_authority, true));
    list.push(AccountRef::new_readonly(mint_authority, true));
    list.push(AccountRef::new(payer, true));
    list.push(AccountRef::new_readonly(metadata, false));
    list.push(AccountRef::new_readonly(aux.token_sub_program, false));
    list.push(AccountRef::new_readonly(aux.system_registry, false));
    list.push(AccountRef::new_readonly(aux.rent_params, false));
    proof {
        assert(list@ =~= create_master_edition_refs(
            edition,
            mint,
            update_authority,
            mint_authority,
            payer,
            metadata,
            *aux,
        ));
        lemma_create_master_edition_flags(
            edition,
            mint,
            update_authority,
            mint_authority,
            payer,
            metadata,
            *aux,
        );
    }
    list
}

/// Builds the account list of "create metadata account" from parameters:
/// an error where an identifier is missing, the list otherwise.
pub fn create_metadata_accounts(params: &CreateMetadataParams, aux: &AuxiliaryAccounts) -> (r:
    Result<Vec<AccountRef>, BuildError>)
    ensures
        match r {
            Ok(list) => create_metadata_account_list(params@, *aux) == Some(list@) && flags(list@)
                == create_metadata_flags(),
            Err(e) => e == BuildError::StructuralIncompleteness && !params@.complete(),
        },
{
    match (
        params.metadata_account,
        params.mint,
        params.mint_authority,
        params.payer,
        params.update_authority,
    ) {
        (
            Some(metadata_account),
            Some(mint),
            Some(mint_authority),
            Some(payer),
            Some(update_authority),
        ) => Ok(
            list_create_metadata_refs(
                metadata_account,
                mint,
                mint_authority,
                payer,
                update_authority,
                aux,
            ),
        ),
        _ => Err(BuildError::StructuralIncompleteness),
    }
}

/// Builds the account list of "create master edition" from parameters:
/// an error where an identifier is missing, the list otherwise.
pub fn create_master_edition_accounts(
    params: &CreateMasterEditionParams,
    aux: &AuxiliaryAccounts,
) -> (r: Result<Vec<AccountRef>, BuildError>)
    ensures
        match r {
            Ok(list) => create_master_edition_account_list(*params, *aux) == Some(list@) && flags(
                list@,
            ) == create_master_edition_flags(),
            Err(e) => e == BuildError::StructuralIncompleteness && !params.complete(),
        },
{
    match (
        params.edition,
        params.mint,
        params.update_authority,
        params.mint_authority,
        params.metadata,
        params.payer,
    ) {
        (
            Some(edition),
            Some(mint),
            Some(update_authority),
            Some(mint_authority),
            Some(metadata),
            Some(payer),
        ) => Ok(
            list_create_master_edition_refs(
                edition,
                mint,
                update_authority,
                mint_authority,
                payer,
                metadata,
                aux,
            ),
        ),
        _ => Err(BuildError::StructuralIncompleteness),
    }
}

/// Whatever the identifiers are, the list of "create metadata account" has
/// seven entries with the schema's signer and writable flags, in order.
pub proof fn lemma_create_metadata_flags(
    metadata_account: Address,
    mint: Address,
    mint_authority: Address,
    payer: Address,
    update_authority: Address,
    aux: AuxiliaryAccounts,
)
    ensures
        create_metadata_refs(
            metadata_account,
            mint,
            mint_authority,
            payer,
            update_authority,
            aux,
        ).len() == 7,
        flags(
            create_metadata_refs(
                metadata_account,
                mint,
                mint_authority,
                payer,
                update_authority,
                aux,
            ),
        ) == create_metadata_flags(),
{
    assert(flags(
        create_metadata_refs(metadata_account, mint, mint_authority, payer, update_authority, aux),
    ) =~= create_metadata_flags());
}

/// Whatever the identifiers are, the list of "create master edition" has
/// nine entries with the schema's signer and writable flags, in order.
pub proof fn lemma_create_master_edition_flags(
    edition: Address,
    mint: Address,
    update_authority: Address,
    mint_authority: Address,
    payer: Address,
    metadata: Address,
    aux: AuxiliaryAccounts,
)
    ensures
        create_master_edition_refs(
            edition,
            mint,
            update_authority,
            mint_authority,
            payer,
            metadata,
            aux,
        ).len() == 9,
        flags(
            create_master_edition_refs(
                edition,
                mint,
                update_authority,
                mint_authority,
                payer,
                metadata,
                aux,
            ),
        ) == create_master_edition_flags(),
{
    assert(flags(
        create_master_edition_refs(
            edition,
            mint,
            update_authority,
            mint_authority,
            payer,
            metadata,
            aux,
        ),
    ) =~= create_master_edition_flags());
}

} // verus!
