use anchor_lang::prelude::Pubkey;
use anchor_spl::token_2022::spl_token_2022::extension::{
    BaseStateWithExtensionsMut, StateWithExtensionsMut,
};
use anchor_spl::token_2022::spl_token_2022::solana_program::program_option::COption;
use anchor_spl::token_2022::spl_token_2022::state::Mint;
use overbid::Metadata;
use spl_token_metadata_interface::state::TokenMetadata;
use spl_type_length_value::variable_len_pack::VariableLenPack;

fn sample() -> Metadata {
    Metadata {
        name: "OPOS".to_string(),
        symbol: "OPOS".to_string(),
        uri: "https://example.com/7.json".to_string(),
        additional_metadata: vec![
            ("overbid".to_string(), "0".to_string()),
            ("owner".to_string(), "someone".to_string()),
        ],
    }
}

fn account_bytes(record: &TokenMetadata) -> Vec<u8> {
    let packed = record.get_packed_len().unwrap();
    let mut buffer = vec![0u8; 165 + 1 + 4 + packed];
    let mut state = StateWithExtensionsMut::<Mint>::unpack_uninitialized(&mut buffer).unwrap();
    state.base = Mint {
        mint_authority: COption::None,
        supply: 1,
        decimals: 0,
        is_initialized: true,
        freeze_authority: COption::None,
    };
    state.pack_base();
    state.init_account_type().unwrap();
    state.init_variable_len_extension(record, false).unwrap();
    buffer
}

#[test]
fn new_has_the_fixed_texts_and_no_field() {
    let m = Metadata::new("n".to_string(), "s".to_string(), "u".to_string());
    assert_eq!(
        m,
        Metadata {
            name: "n".to_string(),
            symbol: "s".to_string(),
            uri: "u".to_string(),
            additional_metadata: vec![],
        }
    );
}

#[test]
fn get_finds_the_first_field_with_the_key() {
    let mut m = sample();
    m.additional_metadata.push(("owner".to_string(), "later".to_string()));
    assert_eq!(m.get("owner"), Some(&"someone".to_string()));
    assert_eq!(m.get("overbid"), Some(&"0".to_string()));
    assert_eq!(m.get("Owner"), None);
    assert_eq!(m.get(""), None);
    assert_eq!(Metadata::new(String::new(), String::new(), String::new()).get("owner"), None);
}

#[test]
fn set_replaces_in_place_and_adds_at_the_end() {
    let mut m = sample();
    m.set("overbid".to_string(), "20000000".to_string());
    assert_eq!(
        m.additional_metadata,
        vec![
            ("overbid".to_string(), "20000000".to_string()),
            ("owner".to_string(), "someone".to_string()),
        ]
    );
    m.set("colour".to_string(), "red".to_string());
    assert_eq!(m.additional_metadata.len(), 3);
    assert_eq!(m.additional_metadata[2], ("colour".to_string(), "red".to_string()));
    assert_eq!(m.name, "OPOS");
    assert_eq!(m.symbol, "OPOS");
    assert_eq!(m.uri, "https://example.com/7.json");
}

#[test]
fn set_changes_only_the_first_of_two_fields_with_one_key() {
    let mut m = sample();
    m.additional_metadata.push(("overbid".to_string(), "9".to_string()));
    m.set("overbid".to_string(), "5".to_string());
    assert_eq!(m.additional_metadata[0].1, "5");
    assert_eq!(m.additional_metadata[2].1, "9");
}

#[test]
fn set_does_what_the_token_metadata_record_does() {
    let mut ours = Metadata::new("OPOS".to_string(), "OPOS".to_string(), "u".to_string());
    let mut theirs = TokenMetadata {
        name: "OPOS".to_string(),
        symbol: "OPOS".to_string(),
        uri: "u".to_string(),
        ..Default::default()
    };
    for (k, v) in [("overbid", "0"), ("owner", "a"), ("overbid", "10000000"), ("x", ""), ("owner", "b")] {
        ours.set(k.to_string(), v.to_string());
        theirs.set_key_value(k.to_string(), v.to_string());
        assert_eq!(ours.additional_metadata, theirs.additional_metadata);
    }
}

#[test]
fn unpack_reads_the_record_out_of_the_account() {
    let record = TokenMetadata {
        update_authority: Some(Pubkey::new_from_array([9; 32])).try_into().unwrap(),
        mint: Pubkey::new_from_array([8; 32]),
        name: "OPOS".to_string(),
        symbol: "OPOS".to_string(),
        uri: "https://example.com/7.json".to_string(),
        additional_metadata: vec![
            ("overbid".to_string(), "0".to_string()),
            ("owner".to_string(), "someone".to_string()),
        ],
    };
    assert_eq!(Metadata::unpack(&account_bytes(&record)), Some(sample()));
}

#[test]
fn unpack_gives_nothing_on_bytes_without_a_record() {
    assert_eq!(Metadata::unpack(&[]), None);
    assert_eq!(Metadata::unpack(&[0u8; 82]), None);
    assert_eq!(Metadata::unpack(&[0u8; 300]), None);
    let mut bytes = account_bytes(&TokenMetadata::default());
    bytes.truncate(166);
    assert_eq!(Metadata::unpack(&bytes), None);
}

#[test]
fn packed_len_counts_the_keys_the_texts_and_their_lengths() {
    assert_eq!(Metadata::packed_len("OPOS", "OPOS", ""), Some(88));
    assert_eq!(Metadata::packed_len("OPOS", "OPOS", "https://example.com/7.json"), Some(88 + 26));
    assert_eq!(Metadata::packed_len("", "", ""), Some(80));
    assert_eq!(Metadata::packed_len("OPOS", "OPOS", "é"), Some(90));
}
