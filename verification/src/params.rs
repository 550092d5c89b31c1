//! What a caller supplies for each instruction, and the mathematical view
//! of it that the contracts speak of.

use crate::address::Address;
use vstd::prelude::*;

verus! {

/// One creator of the token: who, whether verified, and the share in percent.
#[derive(Clone, Copy, Debug, PartialEq, Eq)]
pub struct Creator {
    pub address: Address,
    pub verified: bool,
    pub share_percent: u8,
}

/// Parameters of "create metadata account". An identifier left at `None`
/// is missing.
#[derive(Clone, Debug, PartialEq, Eq)]
pub struct CreateMetadataParams {
    pub metadata_account: Option<Address>,
    pub mint: Option<Address>,
    pub mint_authority: Option<Address>,
    pub payer: Option<Address>,
    pub update_authority: Option<Address>,
    pub name: Vec<u8>,
    pub symbol: Vec<u8>,
    pub uri: Vec<u8>,
    pub royalty_basis_points: u8,
    pub creators: Vec<Creator>,
}

/// `CreateMetadataParams` with its byte strings and list as sequences.
pub struct CreateMetadataView {
    pub metadata_account: Option<Address>,
    pub mint: Option<Address>,
    pub mint_authority: Option<Address>,
    pub payer: Option<Address>,
    pub update_authority: Option<Address>,
    pub name: Seq<u8>,
    pub symbol: Seq<u8>,
    pub uri: Seq<u8>,
    pub royalty_basis_points: u8,
    pub creators: Seq<Creator>,
}

/// Parameters of "create master edition". `max_supply` at `None` means
/// that editions are unlimited.
#[derive(Clone, Copy, Debug, PartialEq, Eq)]
pub struct CreateMasterEditionParams {
    pub edition: Option<Address>,
    pub mint: Option<Address>,
    pub update_authority: Option<Address>,
    pub mint_authority: Option<Address>,
    pub metadata: Option<Address>,
    pub payer: Option<Address>,
    pub max_supply: Option<u64>,
}

/// The sum of the creators' shares.
pub open spec fn share_sum(creators: Seq<Creator>) -> nat
    decreases creators.len(),
{
    if creators.len() == 0 {
        0
    } else {
        share_sum(creators.drop_last()) + creators.last().share_percent as nat
    }
}

/// Creators, where any are listed, share out exactly 100 percent.
pub open spec fn shares_valid(creators: Seq<Creator>) -> bool {
    creators.len() == 0 || share_sum(creators) == 100
}

impl View for CreateMetadataParams {
    type V = CreateMetadataView;

    open spec fn view(&self) -> CreateMetadataView {
        CreateMetadataView {
            metadata_account: self.metadata_account,
            mint: self.mint,
            mint_authority: self.mint_authority,
            payer: self.payer,
            update_authority: self.update_authority,
            name: self.name@,
            symbol: self.symbol@,
            uri: self.uri@,
            royalty_basis_points: self.royalty_basis_points,
            creators: self.creators@,
        }
    }
}

impl CreateMetadataView {
    /// No account identifier is missing.
    pub open spec fn complete(self) -> bool {
        &&& self.metadata_account is Some
        &&& self.mint is Some
        &&& self.mint_authority is Some
        &&& self.payer is Some
        &&& self.update_authority is Some
    }

    /// Every length-prefixed field is within what one byte can say.
    pub open spec fn fits(self) -> bool {
        &&& self.name.len() <= 255
        &&& self.symbol.len() <= 255
        &&& self.uri.len() <= 255
        &&& self.creators.len() <= 255
    }
}

impl CreateMasterEditionParams {
    /// No account identifier is missing.
    pub open spec fn complete(self) -> bool {
        &&& self.edition is Some
        &&& self.mint is Some
        &&& self.update_authority is Some
        &&& self.mint_authority is Some
        &&& self.metadata is Some
        &&& self.payer is Some
    }
}

impl CreateMetadataParams {
    /// Whether every account identifier is there.
    pub fn is_complete(&self) -> (b: bool)
        ensures
            b == self@.complete(),
    {
        self.metadata_account.is_some() && self.mint.is_some() && self.mint_authority.is_some()
            && self.payer.is_some() && self.update_authority.is_some()
    }

    /// Whether every length-prefixed field can be written without loss.
    pub fn fits_prefixes(&self) -> (b: bool)
        ensures
            b == self@.fits(),
    {
        self.name.len() <= 255 && self.symbol.len() <= 255 && self.uri.len() <= 255
            && self.creators.len() <= 255
    }
}

impl CreateMasterEditionParams {
    /// Whether every account identifier is there.
    pub fn is_complete(&self) -> (b: bool)
        ensures
            b == self.complete(),
    {
        self.edition.is_some() && self.mint.is_some() && self.update_authority.is_some()
            && self.mint_authority.is_some() && self.metadata.is_some() && self.payer.is_some()
    }
}

/// Whether the creators' shares are in order: none listed, or a total of 100.
pub fn check_creator_shares(creators: &Vec<Creator>) -> (ok: bool)
    ensures
        ok == shares_valid(creators@),
{
    let n = creators.len();
    if n == 0 {
        return true;
    }
    let mut total: u128 = 0;
    let mut i: usize = 0;
    while i < n
        invariant
            i <= n,
            n == creators@.len(),
            total == share_sum(creators@.take(i as int)),
            total <= 255 * i,
        decreases n - i,
    {
        proof {
            let next = creators@.take(i + 1);
            assert(next.drop_last() =~= creators@.take(i as int));
            assert(next.last() == creators@[i as int]);
        }
        total = total + creators[i].share_percent as u128;
        i += 1;
    }
    assert(creators@.take(n as int) =~= creators@);
    total == 100
}

} // verus!
