use filecoin_proofs::api::message::OwnedMessage;
use filecoin_proofs::api::ownership::release;
use filecoin_proofs::api::ownership::Allocation;
use filecoin_proofs::api::ownership::SECTOR_ID_BYTES;
use filecoin_proofs::api::sector_builder::SectorBuilderHandle;

#[test]
fn sector_identifier_is_eight_bytes_wide() {
    assert_eq!(SECTOR_ID_BYTES, 8);
    assert_eq!(SECTOR_ID_BYTES, std::mem::size_of::<u64>());
}

#[test]
fn release_of_a_bare_envelope_is_the_envelope() {
    assert_eq!(release(0, &None), vec![Allocation::Envelope]);
}

#[test]
fn release_lists_the_message_with_its_terminator() {
    let msg = OwnedMessage::new("abc");
    assert_eq!(release(0, &msg), vec![Allocation::Message { len: 4 }, Allocation::Envelope]);
    let empty = OwnedMessage::new("");
    assert_eq!(release(0, &empty), vec![Allocation::Message { len: 1 }, Allocation::Envelope]);
}

#[test]
fn release_lists_the_array_first_and_the_envelope_last() {
    let msg = OwnedMessage::new("abc");
    assert_eq!(
        release(9, &msg),
        vec![
            Allocation::Array { len: 9, elem_size: 8 },
            Allocation::Message { len: 4 },
            Allocation::Envelope
        ]
    );
    assert_eq!(
        release(usize::MAX, &None),
        vec![Allocation::Array { len: usize::MAX, elem_size: 8 }, Allocation::Envelope]
    );
}

#[test]
fn null_handle_is_null_and_carries_zero() {
    let handle = SectorBuilderHandle::null();
    assert!(handle.is_null());
    assert_eq!(handle.addr(), 0);
    assert_eq!(handle, SectorBuilderHandle::from_addr(0));
}

#[test]
fn handle_carries_its_address_unchanged() {
    let handle = SectorBuilderHandle::from_addr(usize::MAX);
    assert!(!handle.is_null());
    assert_eq!(handle.addr(), usize::MAX);
    assert_ne!(handle, SectorBuilderHandle::from_addr(1));
}
