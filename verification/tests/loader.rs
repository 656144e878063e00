use std::str::FromStr;

use bigdecimal::BigDecimal;

use dynds::loader::{first_block_in_range, load, load_from_parts, source_from_parts, to_source};
use dynds::types::{
    BlockRange, DecodedRow, RawRow, StartBlock, StoreError, Violation,
};

fn raw_row(
    ds_id: &str,
    name: &str,
    address: Option<Vec<u8>>,
    abi: &str,
    start_block: Option<BigDecimal>,
    lower: Option<i32>,
) -> RawRow {
    RawRow {
        ds_id: ds_id.to_string(),
        name: name.to_string(),
        context: None,
        address,
        abi: abi.to_string(),
        start_block,
        block_range: BlockRange { lower, upper: None },
    }
}

#[test]
fn valid_address_is_preserved() {
    let addr = vec![0xabu8; 20];
    let r = source_from_parts("dep", "ds", Some(addr.clone()), "ERC20".to_string(), None);
    match r {
        Ok(s) => {
            assert_eq!(s.address, Some(addr));
            assert_eq!(s.abi, "ERC20".to_string());
            assert_eq!(s.start_block, 0);
        }
        Err(_) => panic!("validation should accept a 20-byte address"),
    }
}

#[test]
fn missing_address_is_a_constraint_violation() {
    let r = source_from_parts("dep", "ds", None, "ERC20".to_string(), None);
    match r {
        Err(StoreError::ConstraintViolation(Violation::MissingAddress { ds_id, deployment })) => {
            assert_eq!(ds_id, "ds".to_string());
            assert_eq!(deployment, "dep".to_string());
        }
        _ => panic!("a missing address must be a ConstraintViolation"),
    }
}

#[test]
fn short_address_is_rejected_with_its_bytes() {
    let addr = vec![0x11u8; 19];
    let r = source_from_parts("dep", "ds", Some(addr.clone()), "ERC20".to_string(), None);
    match r {
        Err(StoreError::ConstraintViolation(Violation::AddressLength { address, .. })) => {
            assert_eq!(address.len(), 19);
            assert_eq!(address, addr);
        }
        _ => panic!("a 19-byte address must be a ConstraintViolation"),
    }
}

#[test]
fn long_address_is_rejected_with_its_bytes() {
    let addr = vec![0x22u8; 21];
    let r = source_from_parts("dep", "ds", Some(addr.clone()), "ERC20".to_string(), None);
    match r {
        Err(StoreError::ConstraintViolation(Violation::AddressLength { address, .. })) => {
            assert_eq!(address.len(), 21);
            assert_eq!(address, addr);
        }
        _ => panic!("a 21-byte address must be a ConstraintViolation"),
    }
}

#[test]
fn absent_start_block_defaults_to_zero() {
    let r = to_source("dep", "ds", Some(vec![0u8; 20]), "ERC20".to_string(), None);
    assert_eq!(r.unwrap().start_block, 0);
}

#[test]
fn representable_start_block_is_preserved() {
    let r = to_source(
        "dep",
        "ds",
        Some(vec![0u8; 20]),
        "ERC20".to_string(),
        Some(BigDecimal::from(5i64)),
    );
    assert_eq!(r.unwrap().start_block, 5);
}

#[test]
fn converted_start_block_is_preserved() {
    let sb = StartBlock { value: Some(7), text: "7".to_string() };
    let r = source_from_parts("dep", "ds", Some(vec![0u8; 20]), "A".to_string(), Some(sb));
    assert_eq!(r.unwrap().start_block, 7);
}

#[test]
fn negative_start_block_is_rejected_with_its_text() {
    let r = to_source(
        "dep",
        "ds",
        Some(vec![0u8; 20]),
        "ERC20".to_string(),
        Some(BigDecimal::from(-1i64)),
    );
    match r {
        Err(StoreError::ConstraintViolation(Violation::StartBlockNotU64 { value, .. })) => {
            assert_eq!(value, "-1".to_string());
        }
        _ => panic!("a negative start block must be a ConstraintViolation"),
    }
}

#[test]
fn oversized_start_block_is_rejected() {
    let too_big = BigDecimal::from_str("18446744073709551616").unwrap();
    let r = to_source("dep", "ds", Some(vec![0u8; 20]), "ERC20".to_string(), Some(too_big));
    match r {
        Err(StoreError::ConstraintViolation(Violation::StartBlockNotU64 { ds_id, deployment, .. })) => {
            assert_eq!(ds_id, "ds".to_string());
            assert_eq!(deployment, "dep".to_string());
        }
        _ => panic!("a start block above u64::MAX must be a ConstraintViolation"),
    }
}

#[test]
fn unconverted_start_block_is_rejected_via_parts() {
    let sb = StartBlock { value: None, text: "0.75".to_string() };
    let r = source_from_parts("dep", "ds", Some(vec![0u8; 20]), "A".to_string(), Some(sb));
    match r {
        Err(StoreError::ConstraintViolation(Violation::StartBlockNotU64 { value, .. })) => {
            assert_eq!(value, "0.75".to_string());
        }
        _ => panic!("an unconverted start block must be a ConstraintViolation"),
    }
}

#[test]
fn lower_bound_of_range_is_the_creation_point() {
    assert_eq!(first_block_in_range(&BlockRange { lower: Some(12), upper: Some(40) }), Some(12));
    assert_eq!(first_block_in_range(&BlockRange { lower: None, upper: Some(40) }), None);
}

#[test]
fn two_rows_sharing_a_creation_block_keep_their_order() {
    let row_a = raw_row("ds-1", "a", Some(vec![0x11u8; 20]), "ERC20", None, Some(100));
    let row_b = raw_row(
        "ds-2",
        "b",
        Some(vec![0x22u8; 20]),
        "ERC721",
        Some(BigDecimal::from(5i64)),
        Some(100),
    );
    let out = load("dep1", vec![row_a, row_b]).unwrap();
    assert_eq!(out.len(), 2);
    assert_eq!(out[0].name, "a".to_string());
    assert_eq!(out[0].source.address, Some(vec![0x11u8; 20]));
    assert_eq!(out[0].source.abi, "ERC20".to_string());
    assert_eq!(out[0].source.start_block, 0);
    assert_eq!(out[0].creation_block, Some(100));
    assert_eq!(out[1].name, "b".to_string());
    assert_eq!(out[1].source.address, Some(vec![0x22u8; 20]));
    assert_eq!(out[1].source.abi, "ERC721".to_string());
    assert_eq!(out[1].source.start_block, 5);
    assert_eq!(out[1].creation_block, Some(100));
}

#[test]
fn decreasing_creation_blocks_fail_and_return_nothing() {
    let row_a = raw_row("ds-1", "a", Some(vec![0x11u8; 20]), "ERC20", None, Some(100));
    let row_b = raw_row("ds-2", "b", Some(vec![0x22u8; 20]), "ERC721", None, Some(50));
    match load("dep1", vec![row_a, row_b]) {
        Err(StoreError::ConstraintViolation(Violation::UnorderedCreationBlocks)) => {}
        Ok(_) => panic!("out-of-order creation blocks must not return data sources"),
        Err(_) => panic!("out-of-order creation blocks must be an ordering violation"),
    }
}

#[test]
fn absent_creation_after_present_is_an_ordering_violation() {
    let row_a = raw_row("ds-1", "a", Some(vec![0x11u8; 20]), "ERC20", None, Some(100));
    let row_b = raw_row("ds-2", "b", Some(vec![0x22u8; 20]), "ERC721", None, None);
    match load("dep1", vec![row_a, row_b]) {
        Err(StoreError::ConstraintViolation(Violation::UnorderedCreationBlocks)) => {}
        _ => panic!("an absent creation point after a present one must fail"),
    }
}

#[test]
fn absent_creation_points_lead_the_list() {
    let row_a = raw_row("ds-1", "a", Some(vec![0x11u8; 20]), "ERC20", None, None);
    let row_b = raw_row("ds-2", "b", Some(vec![0x22u8; 20]), "ERC721", None, Some(3));
    let out = load("dep1", vec![row_a, row_b]).unwrap();
    assert_eq!(out[0].creation_block, None);
    assert_eq!(out[1].creation_block, Some(3));
}

#[test]
fn no_rows_load_as_an_empty_list() {
    let out = load("dep1", Vec::new()).unwrap();
    assert!(out.is_empty());
}

#[test]
fn a_bad_row_aborts_the_whole_load() {
    let row_a = raw_row("ds-1", "a", Some(vec![0x11u8; 20]), "ERC20", None, Some(1));
    let row_b = raw_row("ds-2", "b", None, "ERC721", None, Some(2));
    match load("dep1", vec![row_a, row_b]) {
        Err(StoreError::ConstraintViolation(Violation::MissingAddress { ds_id, deployment })) => {
            assert_eq!(ds_id, "ds-2".to_string());
            assert_eq!(deployment, "dep1".to_string());
        }
        _ => panic!("a row with a missing address must abort the load"),
    }
}

#[test]
fn decoded_rows_load_like_raw_ones() {
    let row = DecodedRow {
        ds_id: "ds-9".to_string(),
        name: "n".to_string(),
        context: Some("ctx".to_string()),
        address: Some(vec![0x33u8; 20]),
        abi: "A".to_string(),
        start_block: Some(StartBlock { value: Some(9), text: "9".to_string() }),
        block_range: BlockRange { lower: Some(4), upper: None },
    };
    let out = load_from_parts("dep", vec![row]).unwrap();
    assert_eq!(out.len(), 1);
    assert_eq!(out[0].source.start_block, 9);
    assert_eq!(out[0].context, Some("ctx".to_string()));
    assert_eq!(out[0].creation_block, Some(4));
}
