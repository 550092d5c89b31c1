use nft_test::address::Address;
use nft_test::error::BuildError;
use nft_test::params::{
    check_creator_shares, CreateMasterEditionParams, CreateMetadataParams, Creator,
};
use nft_test::payload::{
    encode_create_master_edition, encode_create_metadata, put_creator, put_creator_list,
    put_length_prefixed, OversizePolicy, Schema, CREATE_MASTER_EDITION_V3,
    CREATE_METADATA_ACCOUNT_V3,
};
use nft_test::wire::{put_bool, put_bytes, put_optional_u64, put_u64_le, read_u64_le};

fn addr(seed: u8) -> Address {
    let mut bytes = [0u8; 32];
    for (i, b) in bytes.iter_mut().enumerate() {
        *b = seed.wrapping_add(i as u8);
    }
    Address::new(bytes)
}

fn metadata_params(
    name: &[u8],
    symbol: &[u8],
    uri: &[u8],
    creators: Vec<Creator>,
) -> CreateMetadataParams {
    CreateMetadataParams {
        metadata_account: Some(addr(1)),
        mint: Some(addr(2)),
        mint_authority: Some(addr(3)),
        payer: Some(addr(4)),
        update_authority: Some(addr(5)),
        name: name.to_vec(),
        symbol: symbol.to_vec(),
        uri: uri.to_vec(),
        royalty_basis_points: 100,
        creators,
    }
}

fn edition_params(max_supply: Option<u64>) -> CreateMasterEditionParams {
    CreateMasterEditionParams {
        edition: Some(addr(1)),
        mint: Some(addr(2)),
        update_authority: Some(addr(3)),
        mint_authority: Some(addr(4)),
        metadata: Some(addr(5)),
        payer: Some(addr(6)),
        max_supply,
    }
}

#[test]
fn schema_v3_has_the_published_discriminants() {
    let schema = Schema::v3();
    assert_eq!(schema.create_metadata, 33);
    assert_eq!(schema.create_master_edition, 37);
    assert_eq!(CREATE_METADATA_ACCOUNT_V3, 33);
    assert_eq!(CREATE_MASTER_EDITION_V3, 37);
}

#[test]
fn cat_example_is_encoded_byte_for_byte() {
    let creator = Creator { address: addr(9), verified: true, share_percent: 100 };
    let params = metadata_params(b"Cat", b"CAT", b"https://x/1.json", vec![creator]);
    let data = encode_create_metadata(&params, &Schema::v3(), OversizePolicy::Reject).unwrap();

    let mut expected: Vec<u8> = vec![33];
    expected.push(3);
    expected.extend_from_slice(b"Cat");
    expected.push(3);
    expected.extend_from_slice(b"CAT");
    expected.push(16);
    expected.extend_from_slice(b"https://x/1.json");
    expected.push(100);
    expected.push(1);
    expected.extend_from_slice(&addr(9).to_bytes());
    expected.push(1);
    expected.push(100);
    expected.extend_from_slice(&[1, 1, 0, 0, 0]);
    assert_eq!(data, expected);
    assert_eq!(data.len(), 1 + 4 + 4 + 17 + 1 + 1 + 34 + 5);
}

#[test]
fn empty_fields_and_no_creators_encode_to_eleven_bytes() {
    let params =
        CreateMetadataParams { royalty_basis_points: 0, ..metadata_params(b"", b"", b"", vec![]) };
    let data = encode_create_metadata(&params, &Schema::v3(), OversizePolicy::Reject).unwrap();
    assert_eq!(data, vec![33, 0, 0, 0, 0, 0, 1, 1, 0, 0, 0]);
}

#[test]
fn name_of_255_bytes_has_length_byte_255() {
    let name = vec![b'n'; 255];
    let params = metadata_params(&name, b"S", b"u", vec![]);
    for policy in [OversizePolicy::Reject, OversizePolicy::Truncate] {
        let data = encode_create_metadata(&params, &Schema::v3(), policy).unwrap();
        assert_eq!(data[0], 33);
        assert_eq!(data[1], 255);
        assert_eq!(&data[2..257], &name[..]);
        assert_eq!(data[257], 1);
        assert_eq!(data[258], b'S');
    }
}

#[test]
fn name_of_256_bytes_is_refused_by_default() {
    let params = metadata_params(&vec![b'n'; 256], b"S", b"u", vec![]);
    let r = encode_create_metadata(&params, &Schema::v3(), OversizePolicy::Reject);
    assert_eq!(r, Err(BuildError::OversizedField));
}

#[test]
fn name_of_256_bytes_wraps_its_length_when_truncating() {
    let name = vec![b'n'; 256];
    let params = metadata_params(&name, b"S", b"u", vec![]);
    let data = encode_create_metadata(&params, &Schema::v3(), OversizePolicy::Truncate).unwrap();
    assert_eq!(data[1], 0);
    assert_eq!(&data[2..258], &name[..]);
    assert_eq!(data.len(), 1 + 257 + 2 + 2 + 1 + 1 + 5);
}

#[test]
fn name_of_300_bytes_has_length_byte_44_when_truncating() {
    let params = metadata_params(&vec![7u8; 300], b"", b"", vec![]);
    let data = encode_create_metadata(&params, &Schema::v3(), OversizePolicy::Truncate).unwrap();
    assert_eq!(data[1], 44);
    assert_eq!(data.len(), 1 + 301 + 1 + 1 + 1 + 1 + 5);
}

#[test]
fn oversized_symbol_and_uri_are_refused() {
    let long = vec![1u8; 256];
    let symbol = metadata_params(b"n", &long, b"u", vec![]);
    let uri = metadata_params(b"n", b"s", &long, vec![]);
    assert_eq!(
        encode_create_metadata(&symbol, &Schema::v3(), OversizePolicy::Reject),
        Err(BuildError::OversizedField)
    );
    assert_eq!(
        encode_create_metadata(&uri, &Schema::v3(), OversizePolicy::Reject),
        Err(BuildError::OversizedField)
    );
}

#[test]
fn more_than_255_creators_are_refused_or_wrap() {
    let creator = Creator { address: addr(0), verified: false, share_percent: 0 };
    let at_limit = metadata_params(b"", b"", b"", vec![creator; 255]);
    let over = metadata_params(b"", b"", b"", vec![creator; 257]);
    let ok = encode_create_metadata(&at_limit, &Schema::v3(), OversizePolicy::Reject).unwrap();
    assert_eq!(ok[5], 255);
    assert_eq!(ok.len(), 1 + 3 + 1 + 1 + 255 * 34 + 5);
    assert_eq!(
        encode_create_metadata(&over, &Schema::v3(), OversizePolicy::Reject),
        Err(BuildError::OversizedField)
    );
    let wrapped = encode_create_metadata(&over, &Schema::v3(), OversizePolicy::Truncate).unwrap();
    assert_eq!(wrapped[5], 1);
    assert_eq!(wrapped.len(), 1 + 3 + 1 + 1 + 257 * 34 + 5);
}

#[test]
fn creators_are_written_in_order() {
    let first = Creator { address: addr(10), verified: true, share_percent: 60 };
    let second = Creator { address: addr(200), verified: false, share_percent: 40 };
    let mut out = vec![0xEE];
    put_creator_list(&mut out, &vec![first, second]);
    assert_eq!(out.len(), 2 + 68);
    assert_eq!(out[0], 0xEE);
    assert_eq!(out[1], 2);
    assert_eq!(&out[2..34], &addr(10).to_bytes());
    assert_eq!(out[34], 1);
    assert_eq!(out[35], 60);
    assert_eq!(&out[36..68], &addr(200).to_bytes());
    assert_eq!(out[68], 0);
    assert_eq!(out[69], 40);
}

#[test]
fn one_creator_entry_is_34_bytes() {
    let mut out = Vec::new();
    put_creator(&mut out, &Creator { address: addr(1), verified: true, share_percent: 7 });
    assert_eq!(out.len(), 34);
    assert_eq!(&out[..32], &addr(1).to_bytes());
    assert_eq!(&out[32..], &[1, 7]);
}

#[test]
fn another_schema_changes_only_the_discriminant() {
    let params = metadata_params(b"a", b"b", b"c", vec![]);
    let v3 = encode_create_metadata(&params, &Schema::v3(), OversizePolicy::Reject).unwrap();
    let other = Schema { create_metadata: 16, create_master_edition: 17 };
    let data = encode_create_metadata(&params, &other, OversizePolicy::Reject).unwrap();
    assert_eq!(data[0], 16);
    assert_eq!(&data[1..], &v3[1..]);
    assert_eq!(encode_create_master_edition(&edition_params(None), &other), vec![17, 0]);
}

#[test]
fn master_edition_without_supply_is_presence_byte_zero() {
    let data = encode_create_master_edition(&edition_params(None), &Schema::v3());
    assert_eq!(data, vec![37, 0]);
}

#[test]
fn master_edition_with_supply_zero_is_presence_byte_and_eight_zeros() {
    let data = encode_create_master_edition(&edition_params(Some(0)), &Schema::v3());
    assert_eq!(data, vec![37, 1, 0, 0, 0, 0, 0, 0, 0, 0]);
}

#[test]
fn master_edition_supply_is_little_endian() {
    let data =
        encode_create_master_edition(&edition_params(Some(0x0102_0304_0506_0708)), &Schema::v3());
    assert_eq!(data, vec![37, 1, 8, 7, 6, 5, 4, 3, 2, 1]);
    let max = encode_create_master_edition(&edition_params(Some(u64::MAX)), &Schema::v3());
    assert_eq!(max, vec![37, 1, 255, 255, 255, 255, 255, 255, 255, 255]);
}

#[test]
fn u64_is_written_as_std_writes_it() {
    for v in [0u64, 1, 255, 256, 65_535, 1 << 32, 0xDEAD_BEEF_0BAD_F00D, u64::MAX] {
        let mut out = vec![9];
        put_u64_le(&mut out, v);
        assert_eq!(out[0], 9);
        assert_eq!(&out[1..], &v.to_le_bytes());
        assert_eq!(read_u64_le(&out, 1), Some(v));
    }
}

#[test]
fn u64_is_read_at_an_offset() {
    let bytes = [0xAA, 0x01, 0x00, 0x00, 0x00, 0x00, 0x00, 0x00, 0x80, 0xBB];
    assert_eq!(read_u64_le(&bytes, 1), Some(0x8000_0000_0000_0001));
    assert_eq!(read_u64_le(&bytes, 0), Some(u64::from_le_bytes([0xAA, 1, 0, 0, 0, 0, 0, 0])));
    assert_eq!(read_u64_le(&bytes, 2), Some(u64::from_le_bytes([0, 0, 0, 0, 0, 0, 0x80, 0xBB])));
    assert_eq!(read_u64_le(&bytes, 3), None);
    assert_eq!(read_u64_le(&bytes, 10), None);
    assert_eq!(read_u64_le(&bytes, usize::MAX), None);
}

#[test]
fn optional_u64_has_a_presence_byte() {
    let mut absent = Vec::new();
    put_optional_u64(&mut absent, None);
    assert_eq!(absent, vec![0]);
    let mut present = Vec::new();
    put_optional_u64(&mut present, Some(258));
    assert_eq!(present, vec![1, 2, 1, 0, 0, 0, 0, 0, 0]);
}

#[test]
fn booleans_are_one_byte() {
    let mut out = Vec::new();
    put_bool(&mut out, true);
    put_bool(&mut out, false);
    assert_eq!(out, vec![1, 0]);
}

#[test]
fn bytes_are_appended_unchanged() {
    let mut out = vec![1, 2];
    put_bytes(&mut out, &[3, 4, 5]);
    put_bytes(&mut out, &[]);
    assert_eq!(out, vec![1, 2, 3, 4, 5]);
}

#[test]
fn length_prefix_counts_bytes() {
    let mut out = Vec::new();
    put_length_prefixed(&mut out, "né".as_bytes());
    assert_eq!(out, vec![3, b'n', 0xC3, 0xA9]);
    let mut empty = Vec::new();
    put_length_prefixed(&mut empty, &[]);
    assert_eq!(empty, vec![0]);
}

#[test]
fn shares_must_add_up_to_100_where_creators_are_listed() {
    let c = |share: u8| Creator { address: addr(share), verified: false, share_percent: share };
    assert!(check_creator_shares(&vec![]));
    assert!(check_creator_shares(&vec![c(100)]));
    assert!(check_creator_shares(&vec![c(50), c(30), c(20)]));
    assert!(check_creator_shares(&vec![c(0), c(100), c(0)]));
    assert!(!check_creator_shares(&vec![c(99)]));
    assert!(!check_creator_shares(&vec![c(60), c(50)]));
    assert!(!check_creator_shares(&vec![c(0)]));
    // 356 is 100 more than 256: a sum kept in one byte would accept it
    assert!(!check_creator_shares(&vec![c(200), c(156)]));
}

#[test]
fn params_know_whether_they_are_complete_and_fit() {
    let full = metadata_params(&[0; 255], &[0; 255], &[0; 255], vec![]);
    assert!(full.is_complete());
    assert!(full.fits_prefixes());
    let long = metadata_params(&[0; 10], &[0; 256], &[0; 10], vec![]);
    assert!(!long.fits_prefixes());
    let missing = CreateMetadataParams { payer: None, ..metadata_params(b"", b"", b"", vec![]) };
    assert!(!missing.is_complete());
    assert!(edition_params(None).is_complete());
    assert!(!CreateMasterEditionParams { metadata: None, ..edition_params(None) }.is_complete());
}
