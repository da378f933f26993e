use dnsdist_console::nonce::increment_nonce_inplace;
use dnsdist_console::wire::{parse_frame_length, u32_to_be_bytes};
use dnsdist_console::{DNSDistConsole, DNSDistConsoleError};

fn test_key() -> Vec<u8> {
    (0u8..32u8).map(|i| i.wrapping_mul(7).wrapping_add(3)).collect()
}

/// Nonce bytes 0x01..=0x18, as in the end-to-end scenario.
fn nonce_a() -> Vec<u8> {
    (1u8..=24u8).collect()
}

/// Nonce bytes 0x19..=0x30, as in the end-to-end scenario.
fn nonce_b() -> Vec<u8> {
    (25u8..=48u8).collect()
}

/// A connected pair: the client sent `a` and read `b`, the server the reverse.
fn session_pair() -> (DNSDistConsole, DNSDistConsole) {
    sodiumoxide::init().unwrap();
    let client = DNSDistConsole::new(&nonce_a(), &nonce_b(), test_key());
    let server = DNSDistConsole::new(&nonce_b(), &nonce_a(), test_key());
    (client, server)
}

fn split_frame(frame: &[u8]) -> (u32, Vec<u8>) {
    let header: [u8; 4] = frame[0..4].try_into().unwrap();
    (parse_frame_length(header), frame[4..].to_vec())
}

#[test]
fn handshake_symmetry_concrete() {
    let (client, server) = session_pair();
    assert_eq!(client.reading_nonce, server.writing_nonce);
    assert_eq!(client.writing_nonce, server.reading_nonce);
    assert_ne!(client.reading_nonce, client.writing_nonce);
}

#[test]
fn handshake_derivation_halves() {
    let (client, _) = session_pair();
    let a = nonce_a();
    let b = nonce_b();
    assert_eq!(client.reading_nonce[..12], a[..12]);
    assert_eq!(client.reading_nonce[12..], b[12..]);
    assert_eq!(client.writing_nonce[..12], b[..12]);
    assert_eq!(client.writing_nonce[12..], a[12..]);
}

#[test]
fn increment_wraps_at_top() {
    let mut nonce: Vec<u8> = nonce_a();
    for i in 20..24 {
        nonce[i] = 0xff;
    }
    let head: Vec<u8> = nonce[..20].to_vec();
    increment_nonce_inplace(&mut nonce);
    assert_eq!(nonce[..20], head[..]);
    assert_eq!(nonce[20..], [0x00, 0x00, 0x00, 0x00]);
}

#[test]
fn increment_from_zero() {
    let mut nonce: Vec<u8> = vec![0u8; 24];
    increment_nonce_inplace(&mut nonce);
    assert_eq!(nonce[..20], vec![0u8; 20][..]);
    assert_eq!(nonce[20..], [0x00, 0x00, 0x00, 0x01]);
}

#[test]
fn increment_carries_across_bytes() {
    let mut nonce: Vec<u8> = vec![7u8; 24];
    nonce[20] = 0x01;
    nonce[21] = 0x02;
    nonce[22] = 0xff;
    nonce[23] = 0xff;
    increment_nonce_inplace(&mut nonce);
    assert_eq!(nonce[20..], [0x01, 0x03, 0x00, 0x00]);
}

#[test]
fn be32_round_trip_exact() {
    let bytes = u32_to_be_bytes(0xdead_beef);
    assert_eq!(bytes, vec![0xde, 0xad, 0xbe, 0xef]);
    let header: [u8; 4] = [0x00, 0x00, 0x01, 0x02];
    assert_eq!(parse_frame_length(header), 258);
    let back: [u8; 4] = bytes[..].try_into().unwrap();
    assert_eq!(parse_frame_length(back), 0xdead_beef);
}

#[test]
fn round_trip_arbitrary_commands() {
    let samples = ["", "status", "show version", "äöü — ünïcødé ✓", "a\nb\tc\0d"];
    for sample in samples {
        let (mut client, mut server) = session_pair();
        let frame = client.send(sample.to_string()).unwrap();
        let (len, body) = split_frame(&frame);
        assert_eq!(len as usize, body.len());
        assert_eq!(body.len(), sample.len() + 16);
        let got = server.receive(body).unwrap();
        assert_eq!(got, sample);
    }
}

#[test]
fn tamper_detection_every_bit() {
    let (mut client, _) = session_pair();
    let frame = client.send("status".to_string()).unwrap();
    let (_, body) = split_frame(&frame);
    for i in 0..body.len() {
        for bit in 0..8 {
            let mut twisted = body.clone();
            twisted[i] ^= 1u8 << bit;
            let mut server = DNSDistConsole::new(&nonce_b(), &nonce_a(), test_key());
            let err = server.receive(twisted).unwrap_err();
            assert_eq!(err, DNSDistConsoleError::DecodeError);
        }
    }
}

#[test]
fn empty_reply_is_empty_string() {
    let (mut client, mut server) = session_pair();
    client.send("status".to_string()).unwrap();
    // The peer answers with a plaintext of length zero: the frame body is the
    // 16-byte tag alone.
    let reply_frame = server.send(String::new()).unwrap();
    let (len, body) = split_frame(&reply_frame);
    assert_eq!(len, 16);
    // The client has sent one frame, so its reading nonce still matches the
    // server's first writing nonce.
    let got = client.receive(body).unwrap();
    assert_eq!(got, "");
}

#[test]
fn short_ciphertext_is_decode_error() {
    for short_len in [0usize, 1, 15] {
        let (mut client, _) = session_pair();
        let before = client.reading_nonce.clone();
        let err = client.receive(vec![0u8; short_len]).unwrap_err();
        assert_eq!(err, DNSDistConsoleError::DecodeError);
        // The nonce advanced exactly once even though decoding failed.
        let mut expected = before;
        increment_nonce_inplace(&mut expected);
        assert_eq!(client.reading_nonce, expected);
    }
}

#[test]
fn invalid_text_is_decode_error() {
    let (mut client, server) = session_pair();
    // A peer that seals bytes which are not valid text: the frame
    // authenticates, yet receive must fail with a decode error.
    let nonce =
        sodiumoxide::crypto::secretbox::Nonce::from_slice(&server.writing_nonce).unwrap();
    let key = sodiumoxide::crypto::secretbox::Key::from_slice(&server.secret_key).unwrap();
    let body = sodiumoxide::crypto::secretbox::seal(&[0xff, 0xfe, 0x01], &nonce, &key);
    let err = client.receive(body).unwrap_err();
    assert_eq!(err, DNSDistConsoleError::DecodeError);
}

#[test]
fn end_to_end_scenario() {
    let (mut client, mut server) = session_pair();
    let client_w0 = client.writing_nonce.clone();
    let client_r0 = client.reading_nonce.clone();
    let server_w0 = server.writing_nonce.clone();
    let server_r0 = server.reading_nonce.clone();

    let frame = client.send("show version".to_string()).unwrap();
    let (_, body) = split_frame(&frame);
    let got = server.receive(body).unwrap();
    assert_eq!(got, "show version");

    let reply = server.send("dnsdist 1.7.0".to_string()).unwrap();
    let (_, reply_body) = split_frame(&reply);
    let answer = client.receive(reply_body).unwrap();
    assert_eq!(answer, "dnsdist 1.7.0");

    // Every relevant counter sits at its initial value plus one.
    for (now, before) in [
        (&client.writing_nonce, client_w0),
        (&client.reading_nonce, client_r0),
        (&server.writing_nonce, server_w0),
        (&server.reading_nonce, server_r0),
    ] {
        let mut expected = before;
        increment_nonce_inplace(&mut expected);
        assert_eq!(*now, expected);
    }
}

#[test]
fn sequential_sends_use_distinct_nonces() {
    let (mut client, mut server) = session_pair();
    let first_nonce = client.writing_nonce.clone();
    let frame1 = client.send("status".to_string()).unwrap();
    let second_nonce = client.writing_nonce.clone();
    let frame2 = client.send("status".to_string()).unwrap();
    assert_ne!(first_nonce, second_nonce);
    // Identical plaintexts still seal to different ciphertexts.
    assert_ne!(frame1, frame2);
    let (_, body1) = split_frame(&frame1);
    let (_, body2) = split_frame(&frame2);
    assert_ne!(body1, body2);
    assert_eq!(server.receive(body1).unwrap(), "status");
    assert_eq!(server.receive(body2).unwrap(), "status");
}
