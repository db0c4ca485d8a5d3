use stund::codecs::FailureBytesCodec;

#[test]
fn an_empty_buffer_holds_no_item() {
    let mut codec = FailureBytesCodec::new();
    let mut buffer = Vec::new();
    assert_eq!(codec.decode(&mut buffer).unwrap(), None);
    assert!(buffer.is_empty());
}

#[test]
fn an_item_is_all_that_the_buffer_holds() {
    let mut codec = FailureBytesCodec::new();
    let mut buffer = b"some bytes".to_vec();
    assert_eq!(
        codec.decode(&mut buffer).unwrap(),
        Some(b"some bytes".to_vec())
    );
    assert!(buffer.is_empty());
    assert_eq!(codec.decode(&mut buffer).unwrap(), None);
}

#[test]
fn items_are_encoded_one_behind_the_other() {
    let mut codec = FailureBytesCodec::new();
    let mut buffer = Vec::new();
    codec.encode(b"one".to_vec(), &mut buffer).unwrap();
    codec.encode(Vec::new(), &mut buffer).unwrap();
    codec.encode(b" and two".to_vec(), &mut buffer).unwrap();
    assert_eq!(buffer, b"one and two".to_vec());
}

#[test]
fn what_was_encoded_is_decoded() {
    let mut codec = FailureBytesCodec::new();
    let item: Vec<u8> = (0..1000).map(|i| (i % 251) as u8).collect();
    let mut buffer = b"waiting".to_vec();
    codec.encode(item.clone(), &mut buffer).unwrap();
    let mut expected = b"waiting".to_vec();
    expected.extend_from_slice(&item);
    assert_eq!(codec.decode(&mut buffer).unwrap(), Some(expected));
    assert!(buffer.is_empty());
    assert_eq!(codec.decode(&mut buffer).unwrap(), None);
}
