use nft_test::accounts::{AccountRef, AuxiliaryAccounts};
use nft_test::address::Address;
use nft_test::error::BuildError;
use nft_test::instruction::{assemble, InstructionBuilder, SharePolicy};
use nft_test::params::{CreateMasterEditionParams, CreateMetadataParams, Creator};
use nft_test::payload::{OversizePolicy, Schema};
use nft_test::program::{create_master_edition_v3, create_metadata_accounts_v3, mint_nft, MintNFT};

const SYSTEM_PROGRAM: [u8; 32] = [0; 32];

const RENT_SYSVAR: [u8; 32] = [
    6, 167, 213, 23, 25, 44, 92, 81, 33, 140, 201, 76, 61, 74, 241, 127, 88, 218, 238, 8, 155, 161,
    253, 68, 227, 219, 217, 138, 0, 0, 0, 0,
];

const TOKEN_PROGRAM: [u8; 32] = [
    6, 221, 246, 225, 215, 101, 161, 147, 217, 203, 225, 70, 206, 235, 121, 172, 28, 180, 133, 237,
    95, 91, 55, 145, 58, 140, 245, 133, 126, 255, 0, 169,
];

fn addr(seed: u8) -> Address {
    Address::new([seed; 32])
}

fn aux() -> AuxiliaryAccounts {
    AuxiliaryAccounts {
        system_registry: addr(101),
        rent_params: addr(102),
        token_sub_program: addr(103),
    }
}

fn entry(address: Address, is_signer: bool, is_writable: bool) -> AccountRef {
    AccountRef { address, is_signer, is_writable }
}

fn metadata_params(name: &[u8], creators: Vec<Creator>) -> CreateMetadataParams {
    CreateMetadataParams {
        metadata_account: Some(addr(1)),
        mint: Some(addr(2)),
        mint_authority: Some(addr(3)),
        payer: Some(addr(4)),
        update_authority: Some(addr(5)),
        name: name.to_vec(),
        symbol: b"SYM".to_vec(),
        uri: b"u".to_vec(),
        royalty_basis_points: 42,
        creators,
    }
}

fn edition_params(max_supply: Option<u64>) -> CreateMasterEditionParams {
    CreateMasterEditionParams {
        edition: Some(addr(11)),
        mint: Some(addr(12)),
        update_authority: Some(addr(13)),
        mint_authority: Some(addr(14)),
        metadata: Some(addr(15)),
        payer: Some(addr(16)),
        max_supply,
    }
}

fn cat_payload(creator: Address) -> Vec<u8> {
    let mut data: Vec<u8> = vec![33, 3];
    data.extend_from_slice(b"Cat");
    data.push(3);
    data.extend_from_slice(b"CAT");
    data.push(16);
    data.extend_from_slice(b"https://x/1.json");
    data.push(100);
    data.push(1);
    data.extend_from_slice(&creator.to_bytes());
    data.extend_from_slice(&[1, 100, 1, 1, 0, 0, 0]);
    data
}

#[test]
fn assemble_keeps_its_parts() {
    let accounts = vec![entry(addr(1), true, false), entry(addr(2), false, true)];
    let ix = assemble(addr(9), accounts.clone(), vec![1, 2, 3]);
    assert_eq!(ix.target_program(), addr(9));
    assert_eq!(ix.accounts(), &accounts);
    assert_eq!(ix.data(), &vec![1u8, 2, 3]);
    assert_eq!(ix.into_parts(), (addr(9), accounts, vec![1, 2, 3]));
}

#[test]
fn new_builder_rejects_oversized_and_defers_shares() {
    let b = InstructionBuilder::new(addr(9), aux());
    assert_eq!(b.target_program, addr(9));
    assert_eq!(b.auxiliary, aux());
    assert_eq!(b.schema, Schema::v3());
    assert_eq!(b.oversize, OversizePolicy::Reject);
    assert_eq!(b.shares, SharePolicy::Deferred);
    let other = Schema { create_metadata: 1, create_master_edition: 2 };
    let changed = b
        .with_schema(other)
        .with_oversize_policy(OversizePolicy::Truncate)
        .with_share_policy(SharePolicy::Checked);
    assert_eq!(
        changed,
        InstructionBuilder {
            target_program: addr(9),
            auxiliary: aux(),
            schema: other,
            oversize: OversizePolicy::Truncate,
            shares: SharePolicy::Checked,
        }
    );
}

#[test]
fn builder_makes_create_metadata() {
    let creator = Creator { address: addr(8), verified: false, share_percent: 100 };
    let ix = InstructionBuilder::new(addr(9), aux())
        .build_create_metadata_instruction(&metadata_params(b"nm", vec![creator]))
        .unwrap();
    assert_eq!(ix.target_program(), addr(9));
    assert_eq!(
        ix.accounts(),
        &vec![
            entry(addr(1), false, true),
            entry(addr(2), false, false),
            entry(addr(3), true, false),
            entry(addr(4), true, true),
            entry(addr(5), true, false),
            entry(addr(101), false, false),
            entry(addr(102), false, false),
        ]
    );
    let mut data = vec![33, 2, b'n', b'm', 3, b'S', b'Y', b'M', 1, b'u', 42, 1];
    data.extend_from_slice(&[8; 32]);
    data.extend_from_slice(&[0, 100, 1, 1, 0, 0, 0]);
    assert_eq!(ix.data(), &data);
}

#[test]
fn builder_makes_create_master_edition() {
    let ix = InstructionBuilder::new(addr(9), aux())
        .build_create_master_edition_instruction(&edition_params(Some(3)))
        .unwrap();
    assert_eq!(ix.target_program(), addr(9));
    assert_eq!(
        ix.accounts(),
        &vec![
            entry(addr(11), false, true),
            entry(addr(12), false, true),
            entry(addr(13), true, false),
            entry(addr(14), true, false),
            entry(addr(16), true, true),
            entry(addr(15), false, false),
            entry(addr(103), false, false),
            entry(addr(101), false, false),
            entry(addr(102), false, false),
        ]
    );
    assert_eq!(ix.data(), &vec![37u8, 1, 3, 0, 0, 0, 0, 0, 0, 0]);
    let unlimited = InstructionBuilder::new(addr(9), aux())
        .build_create_master_edition_instruction(&edition_params(None))
        .unwrap();
    assert_eq!(unlimited.data(), &vec![37u8, 0]);
}

#[test]
fn builder_reports_each_error() {
    let b = InstructionBuilder::new(addr(9), aux());
    let uneven = vec![Creator { address: addr(8), verified: true, share_percent: 99 }];

    let missing = CreateMetadataParams { mint: None, ..metadata_params(b"n", vec![]) };
    assert_eq!(
        b.build_create_metadata_instruction(&missing),
        Err(BuildError::StructuralIncompleteness)
    );
    assert_eq!(
        b.build_create_master_edition_instruction(&CreateMasterEditionParams {
            payer: None,
            ..edition_params(None)
        }),
        Err(BuildError::StructuralIncompleteness)
    );
    assert_eq!(
        b.build_create_metadata_instruction(&metadata_params(&[0; 256], vec![])),
        Err(BuildError::OversizedField)
    );
    assert_eq!(
        b.with_share_policy(SharePolicy::Checked)
            .build_create_metadata_instruction(&metadata_params(b"n", uneven.clone())),
        Err(BuildError::InvalidCreatorShares)
    );
    // left to the receiving program unless asked for
    assert!(b.build_create_metadata_instruction(&metadata_params(b"n", uneven)).is_ok());
}

#[test]
fn errors_come_in_a_fixed_order() {
    let uneven = vec![Creator { address: addr(8), verified: true, share_percent: 1 }];
    let checked = InstructionBuilder::new(addr(9), aux()).with_share_policy(SharePolicy::Checked);
    let all_wrong =
        CreateMetadataParams { payer: None, ..metadata_params(&[0; 300], uneven.clone()) };
    assert_eq!(
        checked.build_create_metadata_instruction(&all_wrong),
        Err(BuildError::StructuralIncompleteness)
    );
    assert_eq!(
        checked.build_create_metadata_instruction(&metadata_params(&[0; 300], uneven.clone())),
        Err(BuildError::InvalidCreatorShares)
    );
    assert_eq!(
        checked
            .with_share_policy(SharePolicy::Deferred)
            .build_create_metadata_instruction(&metadata_params(&[0; 300], uneven)),
        Err(BuildError::OversizedField)
    );
}

#[test]
fn truncating_builder_accepts_an_oversized_name() {
    let b = InstructionBuilder::new(addr(9), aux()).with_oversize_policy(OversizePolicy::Truncate);
    let ix = b.build_create_metadata_instruction(&metadata_params(&[5; 256], vec![])).unwrap();
    assert_eq!(ix.data()[1], 0);
    assert_eq!(ix.data().len(), 1 + 257 + 4 + 2 + 1 + 1 + 5);
    assert_eq!(ix.accounts().len(), 7);
}

#[test]
fn two_builds_do_not_touch_each_other() {
    let b = InstructionBuilder::new(addr(9), aux());
    let p = metadata_params(b"first", vec![]);
    let q = edition_params(Some(7));
    let kept_b = b;
    let kept_p = p.clone();
    let kept_q = q;

    let alone_p = b.build_create_metadata_instruction(&p).unwrap();
    let alone_q = b.build_create_master_edition_instruction(&q).unwrap();

    let second_q = b.build_create_master_edition_instruction(&q).unwrap();
    let second_p = b.build_create_metadata_instruction(&p).unwrap();
    let third_p = b.build_create_metadata_instruction(&metadata_params(b"other", vec![])).unwrap();

    assert_eq!(second_p, alone_p);
    assert_eq!(second_q, alone_q);
    assert_ne!(third_p, alone_p);
    assert_eq!(b.build_create_metadata_instruction(&p).unwrap(), alone_p);
    assert_eq!(b, kept_b);
    assert_eq!(p, kept_p);
    assert_eq!(q, kept_q);

    // what one call returned is the caller's alone
    let (_, _, mut data) = second_p.into_parts();
    data.push(0xFF);
    assert_eq!(b.build_create_metadata_instruction(&p).unwrap(), alone_p);
}

#[test]
fn create_metadata_accounts_v3_builds_the_cat_example() {
    let ix = create_metadata_accounts_v3(
        addr(9),
        addr(1),
        addr(2),
        addr(3),
        addr(4),
        addr(5),
        String::from("Cat"),
        String::from("CAT"),
        String::from("https://x/1.json"),
        addr(6),
    )
    .unwrap();
    assert_eq!(ix.target_program(), addr(9));
    assert_eq!(
        ix.accounts(),
        &vec![
            entry(addr(1), false, true),
            entry(addr(2), false, false),
            entry(addr(3), true, false),
            entry(addr(4), true, true),
            entry(addr(5), true, false),
            entry(Address::new(SYSTEM_PROGRAM), false, false),
            entry(Address::new(RENT_SYSVAR), false, false),
        ]
    );
    assert_eq!(ix.data(), &cat_payload(addr(6)));
}

#[test]
fn create_metadata_accounts_v3_counts_bytes_not_characters() {
    let name: String = "é".repeat(127);
    assert_eq!(name.len(), 254);
    let ok = create_metadata_accounts_v3(
        addr(9),
        addr(1),
        addr(2),
        addr(3),
        addr(4),
        addr(5),
        name.clone(),
        String::new(),
        String::new(),
        addr(6),
    )
    .unwrap();
    assert_eq!(ok.data()[1], 254);
    assert_eq!(&ok.data()[2..256], name.as_bytes());

    let too_long: String = "é".repeat(128);
    assert_eq!(too_long.chars().count(), 128);
    let r = create_metadata_accounts_v3(
        addr(9),
        addr(1),
        addr(2),
        addr(3),
        addr(4),
        addr(5),
        String::new(),
        String::new(),
        too_long,
        addr(6),
    );
    assert_eq!(r, Err(BuildError::OversizedField));
}

#[test]
fn create_master_edition_v3_names_the_token_program() {
    let ix =
        create_master_edition_v3(addr(9), addr(1), addr(2), addr(3), addr(4), addr(5), addr(6), 1);
    assert_eq!(ix.target_program(), addr(9));
    assert_eq!(
        ix.accounts(),
        &vec![
            entry(addr(1), false, true),
            entry(addr(2), false, true),
            entry(addr(3), true, false),
            entry(addr(4), true, false),
            entry(addr(6), true, true),
            entry(addr(5), false, false),
            entry(Address::new(TOKEN_PROGRAM), false, false),
            entry(Address::new(SYSTEM_PROGRAM), false, false),
            entry(Address::new(RENT_SYSVAR), false, false),
        ]
    );
    assert_eq!(ix.data(), &vec![37u8, 1, 1, 0, 0, 0, 0, 0, 0, 0]);
}

#[test]
fn mint_nft_lets_the_payer_play_every_authority() {
    let accounts = MintNFT {
        payer: addr(1),
        mint: addr(2),
        metadata: addr(3),
        master_edition: addr(4),
        token_metadata_program: addr(5),
    };
    let (create_metadata, create_master_edition) = mint_nft(
        &accounts,
        String::from("Cat"),
        String::from("CAT"),
        String::from("https://x/1.json"),
    )
    .unwrap();

    assert_eq!(create_metadata.target_program(), addr(5));
    assert_eq!(
        create_metadata.accounts(),
        &vec![
            entry(addr(3), false, true),
            entry(addr(2), false, false),
            entry(addr(1), true, false),
            entry(addr(1), true, true),
            entry(addr(1), true, false),
            entry(Address::new(SYSTEM_PROGRAM), false, false),
            entry(Address::new(RENT_SYSVAR), false, false),
        ]
    );
    assert_eq!(create_metadata.data(), &cat_payload(addr(1)));

    assert_eq!(create_master_edition.target_program(), addr(5));
    assert_eq!(
        create_master_edition.accounts(),
        &vec![
            entry(addr(4), false, true),
            entry(addr(2), false, true),
            entry(addr(1), true, false),
            entry(addr(1), true, false),
            entry(addr(1), true, true),
            entry(addr(3), false, false),
            entry(Address::new(TOKEN_PROGRAM), false, false),
            entry(Address::new(SYSTEM_PROGRAM), false, false),
            entry(Address::new(RENT_SYSVAR), false, false),
        ]
    );
    assert_eq!(create_master_edition.data(), &vec![37u8, 1, 0, 0, 0, 0, 0, 0, 0, 0]);
}

#[test]
fn mint_nft_refuses_an_oversized_uri() {
    let accounts = MintNFT {
        payer: addr(1),
        mint: addr(2),
        metadata: addr(3),
        master_edition: addr(4),
        token_metadata_program: addr(5),
    };
    let r = mint_nft(&accounts, String::from("n"), String::from("s"), "u".repeat(256));
    assert_eq!(r, Err(BuildError::OversizedField));
    assert!(mint_nft(&accounts, String::from("n"), String::from("s"), "u".repeat(255)).is_ok());
}
