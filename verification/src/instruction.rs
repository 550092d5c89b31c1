//! The assembled instruction, and the builder that makes one from typed
//! parameters.

use crate::accounts::{
    create_master_edition_account_list, create_master_edition_accounts,
    create_metadata_account_list, create_metadata_accounts, AccountRef, AuxiliaryAccounts,
};
use crate::address::Address;
use crate::error::BuildError;
use crate::params::{
    check_creator_shares, shares_valid, CreateMasterEditionParams, CreateMetadataParams,
    CreateMetadataView,
};
use crate::payload::{
    create_master_edition_payload, create_metadata_payload, encode_create_master_edition,
    encode_create_metadata, schema_v3, OversizePolicy, Schema,
};
use vstd::prelude::*;

verus! {

/// An instruction ready for the invoker: the program to run, the accounts
/// in the program's order, and the payload. It cannot be changed once
/// assembled.
#[derive(Clone, Debug, PartialEq, Eq)]
pub struct Instruction {
    target_program: Address,
    accounts: Vec<AccountRef>,
    data: Vec<u8>,
}

/// What an instruction holds.
pub struct InstructionView {
    pub target_program: Address,
    pub accounts: Seq<AccountRef>,
    pub data: Seq<u8>,
}

/// Whether creators' shares are checked here or left to the receiving
/// program.
#[derive(Clone, Copy, Debug, PartialEq, Eq)]
pub enum SharePolicy {
    /// Shares are written as given; the receiving program judges them.
    Deferred,
    /// Creators whose shares do not add up to 100 are refused.
    Checked,
}

/// What every instruction of one caller has in common: the receiving
/// program, the fixed accounts, the instruction table, and the two
/// policies.
#[derive(Clone, Copy, Debug, PartialEq, Eq)]
pub struct InstructionBuilder {
    pub target_program: Address,
    pub auxiliary: AuxiliaryAccounts,
    pub schema: Schema,
    pub oversize: OversizePolicy,
    pub shares: SharePolicy,
}

impl View for Instruction {
    type V = InstructionView;

    closed spec fn view(&self) -> InstructionView {
        InstructionView {
            target_program: self.target_program,
            accounts: self.accounts@,
            data: self.data@,
        }
    }
}

/// Puts the three parts together, unchanged.
pub fn assemble(target_program: Address, accounts: Vec<AccountRef>, data: Vec<u8>) -> (ix:
    Instruction)
    ensures
        ix@ == (InstructionView { target_program, accounts: accounts@, data: data@ }),
{
    Instruction { target_program, accounts, data }
}

impl Instruction {
    /// The program that is to run the instruction.
    pub fn target_program(&self) -> (a: Address)
        ensures
            a == self@.target_program,
    {
        self.target_program
    }

    /// The accounts, in the receiving program's order.
    pub fn accounts(&self) -> (list: &Vec<AccountRef>)
        ensures
            list@ == self@.accounts,
    {
        &self.accounts
    }

    /// The payload.
    pub fn data(&self) -> (bytes: &Vec<u8>)
        ensures
            bytes@ == self@.data,
    {
        &self.data
    }

    /// Takes the instruction apart: program, accounts, payload.
    pub fn into_parts(self) -> (parts: (Address, Vec<AccountRef>, Vec<u8>))
        ensures
            parts.0 == self@.target_program,
            parts.1@ == self@.accounts,
            parts.2@ == self@.data,
    {
        (self.target_program, self.accounts, self.data)
    }
}

/// The builder that `InstructionBuilder::new` gives: the current
/// instruction table, oversized fields refused, shares left to the
/// receiving program.
pub open spec fn default_builder(
    target_program: Address,
    auxiliary: AuxiliaryAccounts,
) -> InstructionBuilder {
    InstructionBuilder {
        target_program,
        auxiliary,
        schema: schema_v3(),
        oversize: OversizePolicy::Reject,
        shares: SharePolicy::Deferred,
    }
}

impl InstructionBuilder {
    /// A builder for `target_program` with the fixed accounts `auxiliary`.
    pub fn new(target_program: Address, auxiliary: AuxiliaryAccounts) -> (b: InstructionBuilder)
        ensures
            b == default_builder(target_program, auxiliary),
    {
        InstructionBuilder {
            target_program,
            auxiliary,
            schema: Schema::v3(),
            oversize: OversizePolicy::Reject,
            shares: SharePolicy::Deferred,
        }
    }

    /// The same builder with another instruction table.
    pub fn with_schema(self, schema: Schema) -> (b: InstructionBuilder)
        ensures
            b == (InstructionBuilder { schema, ..self }),
    {
        InstructionBuilder { schema, ..self }
    }

    /// The same builder with another policy on oversized fields.
    pub fn with_oversize_policy(self, oversize: OversizePolicy) -> (b: InstructionBuilder)
        ensures
            b == (InstructionBuilder { oversize, ..self }),
    {
        InstructionBuilder { oversize, ..self }
    }

    /// The same builder with another policy on creators' shares.
    pub fn with_share_policy(self, shares: SharePolicy) -> (b: InstructionBuilder)
        ensures
            b == (InstructionBuilder { shares, ..self }),
    {
        InstructionBuilder { shares, ..self }
    }

    /// What building "create metadata account" from `p` gives: the first
    /// of missing identifier, refused shares and oversized field that
    /// applies, or else the instruction.
    pub open spec fn create_metadata_outcome(self, p: CreateMetadataView) -> Result<
        InstructionView,
        BuildError,
    > {
        if !p.complete() {
            Err(BuildError::StructuralIncompleteness)
        } else if self.shares is Checked && !shares_valid(p.creators) {
            Err(BuildError::InvalidCreatorShares)
        } else if self.oversize is Reject && !p.fits() {
            Err(BuildError::OversizedField)
        } else {
            Ok(
                InstructionView {
                    target_program: self.target_program,
                    accounts: create_metadata_account_list(p, self.auxiliary)->0,
                    data: create_metadata_payload(self.schema, p),
                },
            )
        }
    }

    /// What building "create master edition" from `p` gives: an error
    /// where an identifier is missing, or else the instruction.
    pub open spec fn create_master_edition_outcome(self, p: CreateMasterEditionParams) -> Result<
        InstructionView,
        BuildError,
    > {
        if !p.complete() {
            Err(BuildError::StructuralIncompleteness)
        } else {
            Ok(
                InstructionView {
                    target_program: self.target_program,
                    accounts: create_master_edition_account_list(p, self.auxiliary)->0,
                    data: create_master_edition_payload(self.schema, p.max_supply),
                },
            )
        }
    }

    /// Builds "create metadata account".
    pub fn build_create_metadata_instruction(&self, params: &CreateMetadataParams) -> (r: Result<
        Instruction,
        BuildError,
    >)
        ensures
            match r {
                Ok(ix) => self.create_metadata_outcome(params@) == Ok::<
                    InstructionView,
                    BuildError,
                >(ix@),
                Err(e) => self.create_metadata_outcome(params@) == Err::<
                    InstructionView,
                    BuildError,
                >(e),
            },
    {
        let accounts = match create_metadata_accounts(params, &self.auxiliary) {
            Ok(list) => list,
            Err(e) => {
                return Err(e);
            },
        };
        let checked = match self.shares {
            SharePolicy::Checked => true,
            SharePolicy::Deferred => false,
        };
        if checked && !check_creator_shares(&params.creators) {
            return Err(BuildError::InvalidCreatorShares);
        }
        match encode_create_metadata(params, &self.schema, self.oversize) {
            Ok(data) => Ok(assemble(self.target_program, accounts, data)),
            Err(e) => Err(e),
        }
    }

    /// Builds "create master edition".
    pub fn build_create_master_edition_instruction(
        &self,
        params: &CreateMasterEditionParams,
    ) -> (r: Result<Instruction, BuildError>)
        ensures
            match r {
                Ok(ix) => self.create_master_edition_outcome(*params) == Ok::<
                    InstructionView,
                    BuildError,
                >(ix@),
                Err(e) => self.create_master_edition_outcome(*params) == Err::<
                    InstructionView,
                    BuildError,
                >(e),
            },
    {
        match create_master_edition_accounts(params, &self.auxiliary) {
            Ok(accounts) => {
                let data = encode_create_master_edition(params, &self.schema);
                Ok(assemble(self.target_program, accounts, data))
            },
            Err(e) => Err(e),
        }
    }
}

/// Two builds share nothing: each outcome is fixed by the parameters of
/// its own call and by the part of the configuration that its
/// instruction names. Builders that agree in that part give the same
/// outcome, whatever else they hold and whatever else was built.
pub proof fn lemma_builds_share_nothing(
    b: InstructionBuilder,
    c: InstructionBuilder,
    p: CreateMetadataView,
    q: CreateMasterEditionParams,
)
    requires
        b.target_program == c.target_program,
        b.auxiliary.system_registry == c.auxiliary.system_registry,
        b.auxiliary.rent_params == c.auxiliary.rent_params,
    ensures
        b.schema.create_metadata == c.schema.create_metadata && b.oversize == c.oversize && b.shares
            == c.shares ==> b.create_metadata_outcome(p) == c.create_metadata_outcome(p),
        b.schema.create_master_edition == c.schema.create_master_edition
            && b.auxiliary.token_sub_program == c.auxiliary.token_sub_program
            ==> b.create_master_edition_outcome(q) == c.create_master_edition_outcome(q),
{
}

} // verus!
