use borsh::BorshSerialize;
use mpl_core::accounts::BaseCollectionV1;
use mpl_core::types::Key;
use tickr::collection::{read_collection, CollectionRecord};
use tickr::error::TicketError;
use tickr::identity::Identity;

fn stored(
    key: u8,
    update_authority: [u8; 32],
    name: &str,
    uri: &str,
    num_minted: u32,
    current_size: u32,
) -> Vec<u8> {
    let mut bytes = vec![key];
    bytes.extend_from_slice(&update_authority);
    bytes.extend_from_slice(&(name.len() as u32).to_le_bytes());
    bytes.extend_from_slice(name.as_bytes());
    bytes.extend_from_slice(&(uri.len() as u32).to_le_bytes());
    bytes.extend_from_slice(uri.as_bytes());
    bytes.extend_from_slice(&num_minted.to_le_bytes());
    bytes.extend_from_slice(&current_size.to_le_bytes());
    bytes
}

#[test]
fn reads_a_collection_record() {
    let bytes = stored(5, [7; 32], "Gala Night", "https://example.org/gala.json", 17, 15);
    let record = read_collection(&bytes).unwrap();
    assert_eq!(
        record,
        CollectionRecord {
            key: 5,
            update_authority: Identity { bytes: [7; 32] },
            name: "Gala Night".to_string(),
            uri: "https://example.org/gala.json".to_string(),
            num_minted: 17,
            current_size: 15,
        }
    );
}

#[test]
fn reads_what_the_encoder_wrote() {
    let mut authority = [0u8; 32];
    for (i, b) in authority.iter_mut().enumerate() {
        *b = 3 * i as u8 + 1;
    }
    let collection = BaseCollectionV1 {
        key: Key::CollectionV1,
        update_authority: authority.into(),
        name: "Premi\u{e8}re".to_string(),
        uri: "ipfs://bafy/ticket".to_string(),
        num_minted: 4_000_000_000,
        current_size: 123,
    };
    let bytes = collection.try_to_vec().unwrap();
    let record = read_collection(&bytes).unwrap();
    assert_eq!(record.key, 5);
    assert_eq!(record.update_authority, Identity { bytes: authority });
    assert_eq!(record.name, "Premi\u{e8}re");
    assert_eq!(record.uri, "ipfs://bafy/ticket");
    assert_eq!(record.num_minted, 4_000_000_000);
    assert_eq!(record.current_size, 123);
}

#[test]
fn reads_the_record_and_leaves_the_rest() {
    let mut bytes = stored(5, [1; 32], "", "", 0, 0);
    assert_eq!(bytes.len(), 49);
    bytes.extend_from_slice(&[3, 9, 9, 9, 0, 0, 0, 0, 0]);
    let record = read_collection(&bytes).unwrap();
    assert_eq!(record.name, "");
    assert_eq!(record.uri, "");
    assert_eq!(record.num_minted, 0);
    assert_eq!(record.current_size, 0);
}

#[test]
fn reads_the_counters_little_end_first() {
    let mut bytes = stored(5, [0; 32], "n", "u", 0, 0);
    let at = bytes.len() - 8;
    bytes[at..at + 4].copy_from_slice(&[0x01, 0x02, 0x00, 0x00]);
    bytes[at + 4..].copy_from_slice(&[0xff, 0xff, 0xff, 0xff]);
    let record = read_collection(&bytes).unwrap();
    assert_eq!(record.num_minted, 513);
    assert_eq!(record.current_size, u32::MAX);
}

#[test]
fn refuses_empty_bytes() {
    assert!(matches!(read_collection(&[]), Err(TicketError::InvalidCollection(_))));
}

#[test]
fn refuses_a_record_cut_short() {
    let bytes = stored(5, [7; 32], "Gala Night", "uri", 17, 15);
    for len in 0..bytes.len() {
        assert!(
            matches!(read_collection(&bytes[..len]), Err(TicketError::InvalidCollection(_))),
            "at length {}",
            len
        );
    }
    assert!(read_collection(&bytes).is_ok());
}

#[test]
fn refuses_a_kind_that_does_not_exist() {
    let bytes = stored(200, [7; 32], "Gala Night", "uri", 17, 15);
    assert!(matches!(read_collection(&bytes), Err(TicketError::InvalidCollection(_))));
}

#[test]
fn refuses_a_name_that_is_no_text() {
    let mut bytes = vec![5u8];
    bytes.extend_from_slice(&[7; 32]);
    bytes.extend_from_slice(&2u32.to_le_bytes());
    bytes.extend_from_slice(&[0xff, 0xfe]);
    bytes.extend_from_slice(&0u32.to_le_bytes());
    bytes.extend_from_slice(&1u32.to_le_bytes());
    bytes.extend_from_slice(&1u32.to_le_bytes());
    assert!(matches!(read_collection(&bytes), Err(TicketError::InvalidCollection(_))));
}

#[test]
fn refuses_a_name_longer_than_the_bytes() {
    let mut bytes = vec![5u8];
    bytes.extend_from_slice(&[7; 32]);
    bytes.extend_from_slice(&u32::MAX.to_le_bytes());
    bytes.extend_from_slice(b"short");
    assert!(matches!(read_collection(&bytes), Err(TicketError::InvalidCollection(_))));
}
