use memcard::sector::{SectorBuf, SAVE_SIZE};

#[test]
fn the_save_size_is_eight_kibibytes() {
    assert_eq!(SAVE_SIZE, 8192);
    assert_eq!(SectorBuf::capacity(), 8192);
}

#[test]
fn a_new_buffer_is_all_zero() {
    let buf = SectorBuf::new();
    assert_eq!(buf.as_slice().len(), 8192);
    assert!(buf.as_slice().iter().all(|b| *b == 0));
}

#[test]
fn a_payload_is_followed_by_zeros() {
    let payload: Vec<u8> = (0..120u32).map(|i| (i % 251) as u8 + 1).collect();
    let buf = SectorBuf::from_payload(&payload).unwrap();
    assert_eq!(buf.as_slice().len(), 8192);
    assert_eq!(&buf.as_slice()[..120], &payload[..]);
    assert!(buf.as_slice()[120..].iter().all(|b| *b == 0));
}

#[test]
fn a_payload_of_a_whole_sector_is_kept_as_it_is() {
    let payload: Vec<u8> = (0..8192u32).map(|i| (i % 256) as u8).collect();
    let buf = SectorBuf::from_payload(&payload).unwrap();
    assert_eq!(buf.as_slice(), &payload[..]);
}

#[test]
fn a_payload_longer_than_a_sector_is_refused() {
    let payload = vec![7u8; 8193];
    assert!(SectorBuf::from_payload(&payload).is_none());
}

#[test]
fn the_empty_payload_gives_the_zero_buffer() {
    let buf = SectorBuf::from_payload(&[]).unwrap();
    assert_eq!(buf.as_slice(), SectorBuf::new().as_slice());
}
