use nxdk_rs::lwip::pbuf::TcpPbuf;

#[test]
fn two_segment_chain_into_smaller_destination() {
    // A two-segment chain [5 bytes, 5 bytes] read into a 7-byte
    // destination returns 7 bytes, frees the chain, and discards the
    // last 3 bytes.
    let segments = vec![vec![1u8, 2, 3, 4, 5], vec![6u8, 7, 8, 9, 10]];
    let mut pbuf = TcpPbuf::new(segments);
    let mut dest = vec![0u8; 7];

    let n = pbuf.read_into(&mut dest);

    assert_eq!(n, 7);
    assert_eq!(dest, vec![1u8, 2, 3, 4, 5, 6, 7]);

    // The chain was freed: a second read delivers nothing and leaves
    // the destination alone.
    let mut dest2 = vec![0xAAu8; 4];
    let n2 = pbuf.read_into(&mut dest2);
    assert_eq!(n2, 0);
    assert_eq!(dest2, vec![0xAAu8; 4]);
}

#[test]
fn chain_shorter_than_destination_is_drained() {
    // With total length 6 and a destination of 10 bytes, the copying
    // read returns exactly 6 and leaves the reader exhausted.
    let segments = vec![vec![10u8, 20], vec![30u8], vec![40u8, 50, 60]];
    let mut pbuf = TcpPbuf::new(segments);
    let mut dest = vec![0u8; 10];

    let n = pbuf.read_into(&mut dest);

    assert_eq!(n, 6);
    assert_eq!(&dest[..6], &[10u8, 20, 30, 40, 50, 60]);
    assert_eq!(&dest[6..], &[0u8, 0, 0, 0]);

    let mut dest2 = vec![0u8; 3];
    assert_eq!(pbuf.read_into(&mut dest2), 0);
}

#[test]
fn chain_equal_to_destination() {
    let segments = vec![vec![1u8, 2], vec![3u8, 4]];
    let mut pbuf = TcpPbuf::new(segments);
    let mut dest = vec![0u8; 4];

    assert_eq!(pbuf.read_into(&mut dest), 4);
    assert_eq!(dest, vec![1u8, 2, 3, 4]);
}

#[test]
fn empty_destination_reads_nothing_and_discards() {
    let segments = vec![vec![9u8, 9, 9]];
    let mut pbuf = TcpPbuf::new(segments);
    let mut dest: Vec<u8> = Vec::new();

    assert_eq!(pbuf.read_into(&mut dest), 0);

    // The undelivered remainder was discarded, never re-delivered.
    let mut dest2 = vec![0u8; 3];
    assert_eq!(pbuf.read_into(&mut dest2), 0);
}

#[test]
fn next_traverses_segments_then_frees() {
    let segments = vec![vec![1u8], vec![2u8, 2], vec![3u8, 3, 3]];
    let mut pbuf = TcpPbuf::new(segments);

    assert_eq!(pbuf.next(), Some(vec![1u8]));
    assert_eq!(pbuf.next(), Some(vec![2u8, 2]));
    assert_eq!(pbuf.next(), Some(vec![3u8, 3, 3]));
    // Exhaustion frees the chain; afterwards nothing is delivered.
    assert_eq!(pbuf.next(), None);
    assert_eq!(pbuf.next(), None);
}

#[test]
fn close_is_idempotent_and_final() {
    let segments = vec![vec![1u8, 2, 3]];
    let mut pbuf = TcpPbuf::new(segments);

    pbuf.close();
    // A second close changes nothing further, and the chain stays empty.
    pbuf.close();
    assert_eq!(pbuf.next(), None);

    let mut dest = vec![0u8; 3];
    assert_eq!(pbuf.read_into(&mut dest), 0);
    assert_eq!(dest, vec![0u8, 0, 0]);
}

#[test]
fn empty_segments_carry_no_bytes() {
    let segments = vec![vec![], vec![7u8], vec![]];
    let mut pbuf = TcpPbuf::new(segments);
    let mut dest = vec![0u8; 4];

    assert_eq!(pbuf.read_into(&mut dest), 1);
    assert_eq!(dest[0], 7);
}
