//! Reading payloads back: the decoder that mirrors the encoder field by
//! field, and the proofs that each undoes the other.

use crate::address::{address_from, lemma_address_by_bytes, lemma_address_from, Address};
use crate::params::{CreateMetadataView, Creator};
use crate::payload::{
    after_strings_bytes, closing_bytes, create_master_edition_payload, create_metadata_payload,
    creator_entries, creator_entry, creator_list, metadata_payload, record_of, MetadataRecord,
    Schema,
};
use crate::wire::{
    bool_byte, le_bytes, le_value, lemma_le_bytes_len, lemma_le_bytes_of_value,
    lemma_le_value_of_bytes, lemma_pow256_of_8, length_prefixed, read_u64_le,
};
use vstd::prelude::*;
use vstd::slice::{slice_subrange, slice_to_vec};

verus! {

/// The fields read back from a payload of "create metadata account".
#[derive(Clone, Debug, PartialEq, Eq)]
pub struct DecodedMetadata {
    pub name: Vec<u8>,
    pub symbol: Vec<u8>,
    pub uri: Vec<u8>,
    pub royalty_basis_points: u8,
    pub creators: Vec<Creator>,
    pub update_authority_is_signer: bool,
    pub is_mutable: bool,
}

impl View for DecodedMetadata {
    type V = MetadataRecord;

    open spec fn view(&self) -> MetadataRecord {
        MetadataRecord {
            name: self.name@,
            symbol: self.symbol@,
            uri: self.uri@,
            royalty_basis_points: self.royalty_basis_points,
            creators: self.creators@,
            update_authority_is_signer: self.update_authority_is_signer,
            is_mutable: self.is_mutable,
        }
    }
}

/// A boolean byte read back: 0 or 1, nothing else.
pub open spec fn parse_bool(byte: u8) -> Option<bool> {
    if byte == 0 {
        Some(false)
    } else if byte == 1 {
        Some(true)
    } else {
        None
    }
}

/// A length-prefixed field at the front of `b`, and what follows it.
pub open spec fn parse_prefixed(b: Seq<u8>) -> Option<(Seq<u8>, Seq<u8>)> {
    if b.len() >= 1 && b.len() >= 1 + b[0] {
        Some((b.subrange(1, 1 + b[0]), b.skip(1 + b[0])))
    } else {
        None
    }
}

/// A creator's entry at the front of `b`.
pub open spec fn parse_creator(b: Seq<u8>) -> Option<Creator> {
    if b.len() >= 34 {
        match parse_bool(b[32]) {
            Some(verified) => Some(
                Creator { address: address_from(b), verified, share_percent: b[33] },
            ),
            None => None,
        }
    } else {
        None
    }
}

/// `count` creators' entries at the front of `b`, and what follows them.
pub open spec fn parse_creators(b: Seq<u8>, count: nat) -> Option<(Seq<Creator>, Seq<u8>)>
    decreases count,
{
    if count == 0 {
        Some((Seq::empty(), b))
    } else {
        match parse_creator(b) {
            Some(c) => after_creator(c, parse_creators(b.skip(34), (count - 1) as nat)),
            None => None,
        }
    }
}

/// The creators read so far in front of those read from what follows.
pub open spec fn after_creators(
    done: Seq<Creator>,
    more: Option<(Seq<Creator>, Seq<u8>)>,
) -> Option<(Seq<Creator>, Seq<u8>)> {
    match more {
        Some((creators, rest)) => Some((done + creators, rest)),
        None => None,
    }
}

/// One creator in front of those read from what follows.
pub open spec fn after_creator(
    c: Creator,
    more: Option<(Seq<Creator>, Seq<u8>)>,
) -> Option<(Seq<Creator>, Seq<u8>)> {
    after_creators(seq![c], more)
}

/// The five bytes that close the payload, read back: two flags, then an
/// absence byte each for collection, uses and collection details.
pub open spec fn parse_trailer(b: Seq<u8>) -> Option<(bool, bool)> {
    if b.len() == 5 && b[2] == 0 && b[3] == 0 && b[4] == 0 {
        match (parse_bool(b[0]), parse_bool(b[1])) {
            (Some(signer), Some(mutable)) => Some((signer, mutable)),
            _ => None,
        }
    } else {
        None
    }
}

/// The royalty, the creators and the closing bytes, which follow the
/// three strings.
pub open spec fn parse_after_strings(
    name: Seq<u8>,
    symbol: Seq<u8>,
    uri: Seq<u8>,
    b: Seq<u8>,
) -> Option<MetadataRecord> {
    if b.len() >= 2 {
        match parse_creators(b.skip(2), b[1] as nat) {
            Some((creators, trailer)) => match parse_trailer(trailer) {
                Some((signer, mutable)) => Some(
                    MetadataRecord {
                        name,
                        symbol,
                        uri,
                        royalty_basis_points: b[0],
                        creators,
                        update_authority_is_signer: signer,
                        is_mutable: mutable,
                    },
                ),
                None => None,
            },
            None => None,
        }
    } else {
        None
    }
}

/// The fields that the bytes `b` carry as a payload of "create metadata
/// account", or `None` where `b` is no such payload. Nothing may follow
/// the closing bytes.
pub open spec fn parse_create_metadata(schema: Schema, b: Seq<u8>) -> Option<MetadataRecord> {
    if b.len() >= 1 && b[0] == schema.create_metadata {
        match parse_prefixed(b.skip(1)) {
            Some((name, after_name)) => match parse_prefixed(after_name) {
                Some((symbol, after_symbol)) => match parse_prefixed(after_symbol) {
                    Some((uri, after_uri)) => parse_after_strings(name, symbol, uri, after_uri),
                    None => None,
                },
                None => None,
            },
            None => None,
        }
    } else {
        None
    }
}

/// The supply limit that the bytes `b` carry as a payload of "create
/// master edition", or `None` where `b` is no such payload.
pub open spec fn parse_create_master_edition(schema: Schema, b: Seq<u8>) -> Option<Option<u64>> {
    if b.len() >= 2 && b[0] == schema.create_master_edition {
        if b[1] == 0 && b.len() == 2 {
            Some(None)
        } else if b[1] == 1 && b.len() == 10 {
            Some(Some(le_value(b.skip(2)) as u64))
        } else {
            None
        }
    } else {
        None
    }
}

/// A field of at most 255 bytes is read back whole, whatever follows it.
pub proof fn lemma_parse_prefixed_written(field: Seq<u8>, tail: Seq<u8>)
    requires
        field.len() <= 255,
    ensures
        parse_prefixed(length_prefixed(field) + tail) == Some((field, tail)),
{
    let b = length_prefixed(field) + tail;
    assert(b[0] == field.len());
    assert(b.subrange(1, 1 + b[0]) =~= field);
    assert(b.skip(1 + b[0]) =~= tail);
}

/// What is read as a field and its rest is that field, written, and the rest.
pub proof fn lemma_parse_prefixed_sound(b: Seq<u8>)
    requires
        parse_prefixed(b) is Some,
    ensures
        ({
            let (field, rest) = parse_prefixed(b)->0;
            field.len() <= 255 && b == length_prefixed(field) + rest
        }),
{
    let (field, rest) = parse_prefixed(b)->0;
    assert(field.len() == b[0]);
    assert(b =~= length_prefixed(field) + rest);
}

/// A creator's entry is read back as that creator, whatever follows it.
pub proof fn lemma_parse_creator_written(c: Creator, tail: Seq<u8>)
    ensures
        parse_creator(creator_entry(c) + tail) == Some(c),
        (creator_entry(c) + tail).skip(34) == tail,
{
    let b = creator_entry(c) + tail;
    assert(c.address@.len() == 32);
    assert(b[32] == bool_byte(c.verified));
    assert(b[33] == c.share_percent);
    lemma_address_from(b);
    assert(b.take(32) =~= c.address@);
    lemma_address_by_bytes(address_from(b), c.address);
    assert(b.skip(34) =~= tail);
}

/// What is read as a creator is that creator's entry.
pub proof fn lemma_parse_creator_sound(b: Seq<u8>)
    requires
        parse_creator(b) is Some,
    ensures
        b == creator_entry(parse_creator(b)->0) + b.skip(34),
{
    let c = parse_creator(b)->0;
    lemma_address_from(b);
    assert(b =~= creator_entry(c) + b.skip(34));
}

/// The entries of some creators are read back as those creators, whatever
/// follows them.
pub proof fn lemma_parse_creators_written(creators: Seq<Creator>, tail: Seq<u8>)
    ensures
        parse_creators(creator_entries(creators) + tail, creators.len()) == Some((creators, tail)),
    decreases creators.len(),
{
    let b = creator_entries(creators) + tail;
    if creators.len() == 0 {
        assert(b =~= tail);
    } else {
        let first = creators[0];
        let others = creators.skip(1);
        let inner = creator_entries(others) + tail;
        assert(b =~= creator_entry(first) + inner);
        lemma_parse_creator_written(first, inner);
        lemma_parse_creators_written(others, tail);
        assert(seq![first] + others =~= creators);
    }
}

/// What is read as `count` creators and a rest is their entries and the rest.
pub proof fn lemma_parse_creators_sound(b: Seq<u8>, count: nat)
    requires
        parse_creators(b, count) is Some,
    ensures
        ({
            let (creators, rest) = parse_creators(b, count)->0;
            creators.len() == count && b == creator_entries(creators) + rest
        }),
    decreases count,
{
    let (creators, rest) = parse_creators(b, count)->0;
    if count == 0 {
        assert(b =~= creator_entries(creators) + rest);
    } else {
        let c = parse_creator(b)->0;
        let inner = parse_creators(b.skip(34), (count - 1) as nat);
        lemma_parse_creator_sound(b);
        lemma_parse_creators_sound(b.skip(34), (count - 1) as nat);
        let (others, _r) = inner->0;
        assert(creators == seq![c] + others);
        assert(creators.skip(1) =~= others);
        assert(creators[0] == c);
        assert(b =~= creator_entries(creators) + rest);
    }
}

/// The payload is its discriminant, then each string in front of
/// everything that follows it.
proof fn lemma_payload_nested(schema: Schema, m: MetadataRecord)
    ensures
        metadata_payload(schema, m) == seq![schema.create_metadata] + (length_prefixed(m.name) + (
        length_prefixed(m.symbol) + (length_prefixed(m.uri) + after_strings_bytes(m)))),
        metadata_payload(schema, m).skip(1) == length_prefixed(m.name) + (length_prefixed(m.symbol)
            + (length_prefixed(m.uri) + after_strings_bytes(m))),
        metadata_payload(schema, m).len() >= 1,
        metadata_payload(schema, m)[0] == schema.create_metadata,
{
    lemma_regroup(
        seq![schema.create_metadata],
        length_prefixed(m.name),
        length_prefixed(m.symbol),
        length_prefixed(m.uri),
        seq![m.royalty_basis_points],
        creator_list(m.creators),
        closing_bytes(m.update_authority_is_signer, m.is_mutable),
    );
}

/// Seven pieces in a row, grouped from the left or from the right.
proof fn lemma_regroup(
    d: Seq<u8>,
    n: Seq<u8>,
    s: Seq<u8>,
    u: Seq<u8>,
    r: Seq<u8>,
    c: Seq<u8>,
    t: Seq<u8>,
)
    requires
        d.len() == 1,
    ensures
        d + n + s + u + r + c + t == d + (n + (s + (u + (r + c + t)))),
        (d + n + s + u + r + c + t).skip(1) == n + (s + (u + (r + c + t))),
        (d + n + s + u + r + c + t).len() >= 1,
        (d + n + s + u + r + c + t)[0] == d[0],
{
    assert(d + n + s + u + r + c + t =~= d + (n + (s + (u + (r + c + t)))));
    assert((d + n + s + u + r + c + t).skip(1) =~= n + (s + (u + (r + c + t))));
}

/// The royalty, the creators and the closing bytes are read back as
/// written.
proof fn lemma_parse_after_strings_written(m: MetadataRecord)
    requires
        m.creators.len() <= 255,
    ensures
        parse_after_strings(m.name, m.symbol, m.uri, after_strings_bytes(m)) == Some(m),
{
    let closing = closing_bytes(m.update_authority_is_signer, m.is_mutable);
    let b = after_strings_bytes(m);
    assert(b[0] == m.royalty_basis_points);
    assert(b[1] == m.creators.len());
    assert(b.skip(2) =~= creator_entries(m.creators) + closing);
    lemma_parse_creators_written(m.creators, closing);
    assert(parse_trailer(closing) == Some((m.update_authority_is_signer, m.is_mutable)));
}

/// Decoding what was encoded gives the fields back: name, symbol, uri,
/// royalty and creators, each exactly, whenever the strings and the list
/// are within 255.
pub proof fn lemma_decode_of_encode(schema: Schema, m: MetadataRecord)
    requires
        m.fits(),
    ensures
        parse_create_metadata(schema, metadata_payload(schema, m)) == Some(m),
{
    let after_uri = after_strings_bytes(m);
    let after_symbol = length_prefixed(m.uri) + after_uri;
    let after_name = length_prefixed(m.symbol) + after_symbol;
    lemma_payload_nested(schema, m);
    lemma_parse_prefixed_written(m.name, after_name);
    lemma_parse_prefixed_written(m.symbol, after_symbol);
    lemma_parse_prefixed_written(m.uri, after_uri);
    lemma_parse_after_strings_written(m);
}

/// The parameters' own fields come back from their payload.
pub proof fn lemma_decode_recovers_params(schema: Schema, p: CreateMetadataView)
    requires
        p.fits(),
    ensures
        parse_create_metadata(schema, create_metadata_payload(schema, p)) == Some(record_of(p)),
        parse_create_metadata(schema, create_metadata_payload(schema, p))->0.name == p.name,
        parse_create_metadata(schema, create_metadata_payload(schema, p))->0.symbol == p.symbol,
        parse_create_metadata(schema, create_metadata_payload(schema, p))->0.uri == p.uri,
        parse_create_metadata(schema, create_metadata_payload(schema, p))->0.royalty_basis_points
            == p.royalty_basis_points,
        parse_create_metadata(schema, create_metadata_payload(schema, p))->0.creators == p.creators,
{
    lemma_decode_of_encode(schema, record_of(p));
}

/// What is read after the strings is the royalty, the creators behind
/// their count, and the closing bytes.
proof fn lemma_parse_after_strings_sound(name: Seq<u8>, symbol: Seq<u8>, uri: Seq<u8>, b: Seq<u8>)
    requires
        parse_after_strings(name, symbol, uri, b) is Some,
    ensures
        ({
            let m = parse_after_strings(name, symbol, uri, b)->0;
            &&& m.name == name
            &&& m.symbol == symbol
            &&& m.uri == uri
            &&& m.creators.len() <= 255
            &&& b == after_strings_bytes(m)
        }),
{
    let m = parse_after_strings(name, symbol, uri, b)->0;
    let (creators, trailer) = parse_creators(b.skip(2), b[1] as nat)->0;
    lemma_parse_creators_sound(b.skip(2), b[1] as nat);
    assert(trailer =~= closing_bytes(m.update_authority_is_signer, m.is_mutable));
    assert(b =~= seq![b[0], b[1]] + b.skip(2));
    assert(seq![b[0]] + creator_list(creators) + trailer =~= seq![b[0], b[1]] + (creator_entries(
        creators,
    ) + trailer));
}

/// A sequence is its first element in front of the rest.
proof fn lemma_head_and_rest(b: Seq<u8>)
    requires
        b.len() >= 1,
    ensures
        b == seq![b[0]] + b.skip(1),
{
    assert(b =~= seq![b[0]] + b.skip(1));
}

/// Bytes that decode are the encoding of what they decode to: the decoder
/// accepts nothing but payloads, and no payload in two ways.
pub proof fn lemma_encode_of_decode(schema: Schema, b: Seq<u8>)
    requires
        parse_create_metadata(schema, b) is Some,
    ensures
        parse_create_metadata(schema, b)->0.fits(),
        metadata_payload(schema, parse_create_metadata(schema, b)->0) == b,
{
    let m = parse_create_metadata(schema, b)->0;
    let named = parse_prefixed(b.skip(1));
    assert(named is Some);
    let (name, after_name) = named->0;
    let symboled = parse_prefixed(after_name);
    assert(symboled is Some);
    let (symbol, after_symbol) = symboled->0;
    let located = parse_prefixed(after_symbol);
    assert(located is Some);
    let (uri, after_uri) = located->0;
    assert(parse_after_strings(name, symbol, uri, after_uri) == Some(m));
    assert(name.len() <= 255 && b.skip(1) == length_prefixed(name) + after_name) by {
        lemma_parse_prefixed_sound(b.skip(1));
    }
    assert(symbol.len() <= 255 && after_name == length_prefixed(symbol) + after_symbol) by {
        lemma_parse_prefixed_sound(after_name);
    }
    assert(uri.len() <= 255 && after_symbol == length_prefixed(uri) + after_uri) by {
        lemma_parse_prefixed_sound(after_symbol);
    }
    assert(m.name == name && m.symbol == symbol && m.uri == uri && m.creators.len() <= 255
        && after_uri == after_strings_bytes(m)) by {
        lemma_parse_after_strings_sound(name, symbol, uri, after_uri);
    }
    lemma_payload_nested(schema, m);
    lemma_head_and_rest(b);
}

/// Decoding the payload of "create master edition" gives the supply limit
/// back.
pub proof fn lemma_decode_master_edition(schema: Schema, max_supply: Option<u64>)
    ensures
        parse_create_master_edition(schema, create_master_edition_payload(schema, max_supply))
            == Some(max_supply),
{
    let b = create_master_edition_payload(schema, max_supply);
    match max_supply {
        None => {},
        Some(v) => {
            lemma_le_bytes_len(v as nat, 8);
            lemma_pow256_of_8();
            lemma_le_value_of_bytes(v as nat, 8);
            assert(b.skip(2) =~= le_bytes(v as nat, 8));
        },
    }
}

/// Bytes that decode as a payload of "create master edition" are the
/// encoding of the supply limit they decode to.
pub proof fn lemma_encode_master_edition_of_decode(schema: Schema, b: Seq<u8>)
    requires
        parse_create_master_edition(schema, b) is Some,
    ensures
        create_master_edition_payload(schema, parse_create_master_edition(schema, b)->0) == b,
{
    match parse_create_master_edition(schema, b)->0 {
        None => {
            assert(b =~= create_master_edition_payload(schema, None));
        },
        Some(v) => {
            lemma_le_bytes_of_value(b.skip(2));
            lemma_pow256_of_8();
            assert(b =~= create_master_edition_payload(schema, Some(v)));
        },
    }
}

/// Reads a length-prefixed field at `pos`; gives the field and where the
/// next one starts.
fn read_prefixed(data: &[u8], pos: usize) -> (r: Option<(Vec<u8>, usize)>)
    requires
        pos <= data@.len(),
    ensures
        match r {
            Some((field, next)) => pos <= next <= data@.len() && parse_prefixed(
                data@.skip(pos as int),
            ) == Some((field@, data@.skip(next as int))),
            None => parse_prefixed(data@.skip(pos as int)) is None,
        },
{
    let len = data.len();
    if pos == len {
        return None;
    }
    let n = data[pos] as usize;
    if len - pos - 1 < n {
        return None;
    }
    let field = slice_to_vec(slice_subrange(data, pos + 1, pos + 1 + n));
    proof {
        let b = data@.skip(pos as int);
        assert(b.subrange(1, 1 + b[0]) =~= field@);
        assert(b.skip(1 + b[0]) =~= data@.skip(pos + 1 + n));
    }
    Some((field, pos + 1 + n))
}

/// Reads a boolean byte.
fn read_bool(byte: u8) -> (r: Option<bool>)
    ensures
        r == parse_bool(byte),
{
    if byte == 0 {
        Some(false)
    } else if byte == 1 {
        Some(true)
    } else {
        None
    }
}

/// Reads `count` creators' entries at `pos`; gives them and where the next
/// field starts.
fn read_creators(data: &[u8], pos: usize, count: u8) -> (r: Option<(Vec<Creator>, usize)>)
    requires
        pos <= data@.len(),
    ensures
        match r {
            Some((creators, next)) => pos <= next <= data@.len() && parse_creators(
                data@.skip(pos as int),
                count as nat,
            ) == Some((creators@, data@.skip(next as int))),
            None => parse_creators(data@.skip(pos as int), count as nat) is None,
        },
{
    let len = data.len();
    let mut creators: Vec<Creator> = Vec::new();
    let mut at: usize = pos;
    let mut i: u8 = 0;
    let ghost whole = parse_creators(data@.skip(pos as int), count as nat);
    proof {
        let ahead = parse_creators(data@.skip(at as int), count as nat);
        if ahead is Some {
            let (found, _rest) = ahead->0;
            assert(Seq::<Creator>::empty() + found =~= found);
        }
    }
    while i < count
        invariant
            i <= count,
            len == data@.len(),
            pos <= at <= len,
            whole == parse_creators(data@.skip(pos as int), count as nat),
            whole == after_creators(
                creators@,
                parse_creators(data@.skip(at as int), (count - i) as nat),
            ),
        decreases count - i,
    {
        let ghost b = data@.skip(at as int);
        let ghost ahead = parse_creators(b, (count - i) as nat);
        if len - at < 34 {
            return None;
        }
        let address = match Address::read_from(data, at) {
            Some(a) => a,
            None => {
                return None;
            },
        };
        let verified = match read_bool(data[at + 32]) {
            Some(v) => v,
            None => {
                return None;
            },
        };
        let creator = Creator { address, verified, share_percent: data[at + 33] };
        proof {
            assert(parse_creator(b) == Some(creator));
            assert(b.skip(34) =~= data@.skip(at + 34));
            let inner = parse_creators(data@.skip(at + 34), (count - i - 1) as nat);
            assert(ahead == after_creator(creator, inner));
            if inner is Some {
                let (found, _rest) = inner->0;
                assert(creators@ + (seq![creator] + found) =~= creators@.push(creator) + found);
            }
        }
        creators.push(creator);
        at = at + 34;
        i = i + 1;
    }
    proof {
        assert(creators@ + Seq::<Creator>::empty() =~= creators@);
    }
    Some((creators, at))
}

/// Reads the five closing bytes at `pos`, which must be the last.
fn read_trailer(data: &[u8], pos: usize) -> (r: Option<(bool, bool)>)
    requires
        pos <= data@.len(),
    ensures
        r == parse_trailer(data@.skip(pos as int)),
{
    let len = data.len();
    if len - pos != 5 {
        return None;
    }
    if data[pos + 2] != 0 || data[pos + 3] != 0 || data[pos + 4] != 0 {
        return None;
    }
    match (read_bool(data[pos]), read_bool(data[pos + 1])) {
        (Some(signer), Some(mutable)) => Some((signer, mutable)),
        _ => None,
    }
}

/// Reads what follows the three strings, from `pos` to the end.
fn read_after_strings(data: &[u8], pos: usize, name: Vec<u8>, symbol: Vec<u8>, uri: Vec<u8>) -> (r:
    Option<DecodedMetadata>)
    requires
        pos <= data@.len(),
    ensures
        match r {
            Some(d) => parse_after_strings(name@, symbol@, uri@, data@.skip(pos as int)) == Some(
                d@,
            ),
            None => parse_after_strings(name@, symbol@, uri@, data@.skip(pos as int)) is None,
        },
{
    let len = data.len();
    if len - pos < 2 {
        return None;
    }
    let royalty_basis_points = data[pos];
    let count = data[pos + 1];
    proof {
        assert(data@.skip(pos as int).skip(2) =~= data@.skip(pos + 2));
    }
    let (creators, at_trailer) = match read_creators(data, pos + 2, count) {
        Some(read) => read,
        None => {
            return None;
        },
    };
    match read_trailer(data, at_trailer) {
        Some((update_authority_is_signer, is_mutable)) => Some(
            DecodedMetadata {
                name,
                symbol,
                uri,
                royalty_basis_points,
                creators,
                update_authority_is_signer,
                is_mutable,
            },
        ),
        None => None,
    }
}

/// Decodes a payload of "create metadata account". The bytes must be such
/// a payload from the discriminant to the last absence byte, with nothing
/// after it; otherwise the result is `None`.
pub fn decode_create_metadata(data: &[u8], schema: &Schema) -> (r: Option<DecodedMetadata>)
    ensures
        match r {
            Some(d) => parse_create_metadata(*schema, data@) == Some(d@),
            None => parse_create_metadata(*schema, data@) is None,
        },
{
    let len = data.len();
    if len == 0 || data[0] != schema.create_metadata {
        return None;
    }
    let (name, at_symbol) = match read_prefixed(data, 1) {
        Some(read) => read,
        None => {
            return None;
        },
    };
    let (symbol, at_uri) = match read_prefixed(data, at_symbol) {
        Some(read) => read,
        None => {
            return None;
        },
    };
    let (uri, at_royalty) = match read_prefixed(data, at_uri) {
        Some(read) => read,
        None => {
            return None;
        },
    };
    read_after_strings(data, at_royalty, name, symbol, uri)
}

/// Decodes a payload of "create master edition" to its supply limit.
pub fn decode_create_master_edition(data: &[u8], schema: &Schema) -> (r: Option<Option<u64>>)
    ensures
        r == parse_create_master_edition(*schema, data@),
{
    let len = data.len();
    if len < 2 || data[0] != schema.create_master_edition {
        return None;
    }
    if data[1] == 0 && len == 2 {
        Some(None)
    } else if data[1] == 1 && len == 10 {
        proof {
            assert(data@.subrange(2, 10) =~= data@.skip(2));
        }
        match read_u64_le(data, 2) {
            Some(v) => Some(Some(v)),
            None => None,
        }
    } else {
        None
    }
}

} // verus!
