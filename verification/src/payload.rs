//! The payload bytes of each instruction: a discriminant, then the fields
//! in the receiving program's order and widths.

use crate::error::BuildError;
use crate::params::{CreateMasterEditionParams, CreateMetadataParams, CreateMetadataView, Creator};
use crate::wire::{
    bool_byte, length_byte, length_prefixed, optional_u64, put_bool, put_bytes, put_optional_u64,
};
use vstd::prelude::*;

verus! {

/// The discriminant of "create metadata account" in the receiving
/// program's current instruction table.
pub const CREATE_METADATA_ACCOUNT_V3: u8 = 33;

/// The discriminant of "create master edition" in the receiving program's
/// current instruction table.
pub const CREATE_MASTER_EDITION_V3: u8 = 37;

/// The receiving program's instruction table, as far as this library
/// writes to it: one discriminant byte for each instruction.
#[derive(Clone, Copy, Debug, PartialEq, Eq)]
pub struct Schema {
    pub create_metadata: u8,
    pub create_master_edition: u8,
}

/// What to do with a field that is longer than its length byte can say.
#[derive(Clone, Copy, Debug, PartialEq, Eq)]
pub enum OversizePolicy {
    /// Refuse to encode.
    Reject,
    /// Write the low eight bits of the length and every byte of the field.
    /// A decoder then reads a shorter field: for receivers that count on
    /// the wrapped length, and for nothing else.
    Truncate,
}

/// The fields that the payload of "create metadata account" carries.
pub struct MetadataRecord {
    pub name: Seq<u8>,
    pub symbol: Seq<u8>,
    pub uri: Seq<u8>,
    pub royalty_basis_points: u8,
    pub creators: Seq<Creator>,
    pub update_authority_is_signer: bool,
    pub is_mutable: bool,
}

impl MetadataRecord {
    /// Every length-prefixed field is within what one byte can say.
    pub open spec fn fits(self) -> bool {
        &&& self.name.len() <= 255
        &&& self.symbol.len() <= 255
        &&& self.uri.len() <= 255
        &&& self.creators.len() <= 255
    }
}

/// The current instruction table.
pub open spec fn schema_v3() -> Schema {
    Schema {
        create_metadata: CREATE_METADATA_ACCOUNT_V3,
        create_master_edition: CREATE_MASTER_EDITION_V3,
    }
}

/// One creator on the wire: address, verified flag, share.
pub open spec fn creator_entry(c: Creator) -> Seq<u8> {
    c.address@ + seq![bool_byte(c.verified), c.share_percent]
}

/// The creators' entries one after another.
pub open spec fn creator_entries(creators: Seq<Creator>) -> Seq<u8>
    decreases creators.len(),
{
    if creators.len() == 0 {
        Seq::empty()
    } else {
        creator_entry(creators[0]) + creator_entries(creators.skip(1))
    }
}

/// The creators behind their count byte.
pub open spec fn creator_list(creators: Seq<Creator>) -> Seq<u8> {
    seq![length_byte(creators.len())] + creator_entries(creators)
}

/// The five bytes that close the payload: the two flags, and an absence
/// byte each for collection, uses and collection details.
pub open spec fn closing_bytes(update_authority_is_signer: bool, is_mutable: bool) -> Seq<u8> {
    seq![bool_byte(update_authority_is_signer), bool_byte(is_mutable), 0u8, 0u8, 0u8]
}

/// What follows the three strings: the royalty, the creators behind their
/// count, and the closing bytes.
pub open spec fn after_strings_bytes(m: MetadataRecord) -> Seq<u8> {
    seq![m.royalty_basis_points] + creator_list(m.creators) + closing_bytes(
        m.update_authority_is_signer,
        m.is_mutable,
    )
}

/// The payload of "create metadata account" for the fields `m`: the
/// discriminant, the three strings, the royalty, the creators, and the
/// closing bytes.
pub open spec fn metadata_payload(schema: Schema, m: MetadataRecord) -> Seq<u8> {
    seq![schema.create_metadata] + length_prefixed(m.name) + length_prefixed(m.symbol)
        + length_prefixed(m.uri) + seq![m.royalty_basis_points] + creator_list(m.creators)
        + closing_bytes(m.update_authority_is_signer, m.is_mutable)
}

/// The fields that parameters put on the wire. The update authority signs
/// and the metadata stays mutable.
pub open spec fn record_of(p: CreateMetadataView) -> MetadataRecord {
    MetadataRecord {
        name: p.name,
        symbol: p.symbol,
        uri: p.uri,
        royalty_basis_points: p.royalty_basis_points,
        creators: p.creators,
        update_authority_is_signer: true,
        is_mutable: true,
    }
}

/// The payload of "create metadata account" for the parameters `p`.
pub open spec fn create_metadata_payload(schema: Schema, p: CreateMetadataView) -> Seq<u8> {
    metadata_payload(schema, record_of(p))
}

/// The payload of "create master edition": the discriminant, then the
/// optional supply limit.
pub open spec fn create_master_edition_payload(schema: Schema, max_supply: Option<u64>) -> Seq<u8> {
    seq![schema.create_master_edition] + optional_u64(max_supply)
}

/// What encoding the parameters `p` gives under `policy`.
pub open spec fn create_metadata_encoding(
    schema: Schema,
    policy: OversizePolicy,
    p: CreateMetadataView,
) -> Result<Seq<u8>, BuildError> {
    if policy is Reject && !p.fits() {
        Err(BuildError::OversizedField)
    } else {
        Ok(create_metadata_payload(schema, p))
    }
}

impl Schema {
    /// The current instruction table.
    pub fn v3() -> (s: Schema)
        ensures
            s == schema_v3(),
    {
        Schema {
            create_metadata: CREATE_METADATA_ACCOUNT_V3,
            create_master_edition: CREATE_MASTER_EDITION_V3,
        }
    }
}

/// The entries of a list with one more creator end in that creator's entry.
pub proof fn lemma_creator_entries_push(creators: Seq<Creator>, c: Creator)
    ensures
        creator_entries(creators.push(c)) == creator_entries(creators) + creator_entry(c),
    decreases creators.len(),
{
    let longer = creators.push(c);
    if creators.len() == 0 {
        assert(longer.skip(1) =~= Seq::<Creator>::empty());
        assert(creator_entries(longer.skip(1)) =~= Seq::<u8>::empty());
        assert(creator_entries(longer) =~= creator_entries(creators) + creator_entry(c));
    } else {
        lemma_creator_entries_push(creators.skip(1), c);
        assert(longer.skip(1) =~= creators.skip(1).push(c));
        assert(creator_entries(longer) =~= creator_entries(creators) + creator_entry(c));
    }
}

/// Appends a field behind its length byte.
pub fn put_length_prefixed(out: &mut Vec<u8>, field: &[u8])
    ensures
        final(out)@ == old(out)@ + length_prefixed(field@),
{
    let ghost start = out@;
    out.push((field.len() % 256) as u8);
    put_bytes(out, field);
    assert(out@ =~= start + length_prefixed(field@));
}

/// Appends one creator's entry.
pub fn put_creator(out: &mut Vec<u8>, creator: &Creator)
    ensures
        final(out)@ == old(out)@ + creator_entry(*creator),
{
    let ghost start = out@;
    creator.address.write_to(out);
    put_bool(out, creator.verified);
    out.push(creator.share_percent);
    assert(out@ =~= start + creator_entry(*creator));
}

/// Appends the creators behind their count byte.
pub fn put_creator_list(out: &mut Vec<u8>, creators: &Vec<Creator>)
    ensures
        final(out)@ == old(out)@ + creator_list(creators@),
{
    let ghost start = out@;
    let n = creators.len();
    out.push((n % 256) as u8);
    let ghost counted = out@;
    let mut i: usize = 0;
    assert(creator_entries(creators@.take(0)) =~= Seq::<u8>::empty());
    while i < n
        invariant
            i <= n,
            n == creators@.len(),
            out@ == counted + creator_entries(creators@.take(i as int)),
        decreases n - i,
    {
        let ghost before = out@;
        put_creator(out, &creators[i]);
        proof {
            let done = creators@.take(i as int);
            lemma_creator_entries_push(done, creators@[i as int]);
            assert(done.push(creators@[i as int]) =~= creators@.take(i + 1));
            assert(out@ =~= counted + creator_entries(creators@.take(i + 1)));
        }
        i += 1;
    }
    assert(creators@.take(n as int) =~= creators@);
    assert(out@ =~= start + creator_list(creators@));
}

/// Encodes the payload of "create metadata account". Under
/// `OversizePolicy::Reject` a field or list longer than 255 is an error;
/// under `OversizePolicy::Truncate` nothing is.
pub fn encode_create_metadata(
    params: &CreateMetadataParams,
    schema: &Schema,
    policy: OversizePolicy,
) -> (r: Result<Vec<u8>, BuildError>)
    ensures
        match r {
            Ok(data) => create_metadata_encoding(*schema, policy, params@) == Ok::<
                Seq<u8>,
                BuildError,
            >(data@),
            Err(e) => create_metadata_encoding(*schema, policy, params@) == Err::<
                Seq<u8>,
                BuildError,
            >(e),
        },
{
    let reject = match policy {
        OversizePolicy::Reject => true,
        OversizePolicy::Truncate => false,
    };
    if reject && !params.fits_prefixes() {
        return Err(BuildError::OversizedField);
    }
    let mut data: Vec<u8> = Vec::new();
    data.push(schema.create_metadata);
    put_length_prefixed(&mut data, params.name.as_slice());
    put_length_prefixed(&mut data, params.symbol.as_slice());
    put_length_prefixed(&mut data, params.uri.as_slice());
    data.push(params.royalty_basis_points);
    put_creator_list(&mut data, &params.creators);
    put_bool(&mut data, true);
    put_bool(&mut data, true);
    data.push(0);
    data.push(0);
    data.push(0);
    assert(data@ =~= create_metadata_payload(*schema, params@));
    Ok(data)
}

/// Encodes the payload of "create master edition".
pub fn encode_create_master_edition(params: &CreateMasterEditionParams, schema: &Schema) -> (data:
    Vec<u8>)
    ensures
        data@ == create_master_edition_payload(*schema, params.max_supply),
{
    let mut data: Vec<u8> = Vec::new();
    data.push(schema.create_master_edition);
    put_optional_u64(&mut data, params.max_supply);
    assert(data@ =~= create_master_edition_payload(*schema, params.max_supply));
    data
}

/// Up to 255 the length byte is the length; at 256 it is 0.
pub proof fn lemma_length_byte_at_the_limit(len: nat)
    ensures
        len <= 255 ==> length_byte(len) == len,
        len == 256 ==> length_byte(len) == 0,
{
}

/// A name of exactly 255 bytes is encoded under either policy, behind a
/// length byte of 255. A name of 256 bytes is refused under
/// `OversizePolicy::Reject`; under `OversizePolicy::Truncate` its 256
/// bytes are written behind a length byte of 0.
pub proof fn lemma_name_at_the_limit(schema: Schema, policy: OversizePolicy, p: CreateMetadataView)
    requires
        p.symbol.len() <= 255,
        p.uri.len() <= 255,
        p.creators.len() <= 255,
    ensures
        p.name.len() == 255 ==> create_metadata_encoding(schema, policy, p) is Ok
            && create_metadata_encoding(schema, policy, p)->Ok_0[1] == 255,
        p.name.len() == 256 && policy is Reject ==> create_metadata_encoding(schema, policy, p)
            == Err::<Seq<u8>, BuildError>(BuildError::OversizedField),
        p.name.len() == 256 && policy is Truncate ==> create_metadata_encoding(schema, policy, p)
            is Ok && create_metadata_encoding(schema, policy, p)->Ok_0[1] == 0
            && create_metadata_encoding(schema, policy, p)->Ok_0.subrange(2, 258) == p.name,
{
    let data = create_metadata_payload(schema, p);
    let front = seq![schema.create_metadata] + length_prefixed(p.name);
    assert(data.subrange(0, front.len() as int) =~= front);
    assert(data[1] == front[1]);
    if p.name.len() == 256 {
        assert(data.subrange(2, 258) =~= p.name) by {
            assert forall|i: int| 0 <= i < 256 implies data[2 + i] == p.name[i] by {
                assert(data[2 + i] == data.subrange(0, front.len() as int)[2 + i]);
            }
        }
    }
}

} // verus!
