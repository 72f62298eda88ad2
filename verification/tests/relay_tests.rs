use i2a::relay::{relay_chunk, relay_chunks};

#[test]
fn chunk_is_relayed_byte_for_byte() {
    let chunk = b"{\"a\":1}".to_vec();
    assert_eq!(relay_chunk(&chunk), chunk);
    assert_eq!(relay_chunk(&b"ok".to_vec()), b"ok".to_vec());
}

#[test]
fn empty_chunk_is_relayed_empty() {
    let chunk: Vec<u8> = Vec::new();
    assert_eq!(relay_chunk(&chunk), Vec::<u8>::new());
}

#[test]
fn every_byte_value_survives() {
    let chunk: Vec<u8> = (0..=255u8).collect();
    let copy = relay_chunk(&chunk);
    assert_eq!(copy.len(), 256);
    assert_eq!(copy, chunk);
}

#[test]
fn large_body_is_not_truncated() {
    let mut chunks: Vec<Vec<u8>> = Vec::new();
    let mut whole: Vec<u8> = Vec::new();
    for i in 0..64usize {
        let chunk: Vec<u8> = (0..16384usize).map(|j| ((i * 31 + j * 7) % 251) as u8).collect();
        whole.extend_from_slice(&chunk);
        chunks.push(chunk);
    }
    let sent = relay_chunks(&chunks);
    assert_eq!(sent.len(), 64);
    assert_eq!(sent.concat(), whole);
    assert_eq!(sent.concat().len(), 64 * 16384);
}

#[test]
fn empty_body_is_relayed_as_empty_body() {
    let chunks: Vec<Vec<u8>> = Vec::new();
    let sent = relay_chunks(&chunks);
    assert!(sent.is_empty());
    assert_eq!(sent.concat(), Vec::<u8>::new());
}

#[test]
fn chunk_boundaries_are_kept() {
    let chunks = vec![b"ab".to_vec(), Vec::new(), b"cde".to_vec()];
    let sent = relay_chunks(&chunks);
    assert_eq!(sent, chunks);
    assert_eq!(sent.concat(), b"abcde".to_vec());
}

#[test]
fn relay_does_not_alter_its_input() {
    let chunk = vec![1u8, 2, 3];
    let copy = relay_chunk(&chunk);
    assert_eq!(chunk, vec![1u8, 2, 3]);
    assert_eq!(copy, vec![1u8, 2, 3]);
}

#[test]
fn fifty_bodies_do_not_mix() {
    let bodies: Vec<Vec<Vec<u8>>> = (0..50u8)
        .map(|i| vec![vec![i; 10], vec![i.wrapping_mul(3); 5], format!("body-{}", i).into_bytes()])
        .collect();
    let sent: Vec<Vec<Vec<u8>>> = bodies.iter().map(relay_chunks).collect();
    for i in 0..50usize {
        assert_eq!(sent[i], bodies[i]);
    }
}
