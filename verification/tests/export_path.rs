use cert_issuer::codec::Codec;
use cert_issuer::export::{
    EXPORT_PAGE_SIZE, ExportError, Package, check_attestation, decode_pair, decode_page,
    encode_pair, export_page, may_retry_export, page_bounds,
};

fn b(s: &str) -> Vec<u8> {
    s.as_bytes().to_vec()
}

fn codec() -> Codec {
    Codec::new((100u8..132u8).collect()).unwrap()
}

fn seal(codec: &Codec, name: &str, key: &str, chain: &str) -> Package {
    let plaintext = encode_pair(&b(key), &b(chain));
    let sealed = codec.encrypt(&plaintext).unwrap();
    Package { name: b(name), nonce: sealed.nonce, ciphertext: sealed.ciphertext }
}

#[test]
fn frame_round_trip() {
    for (key, chain) in [("k", "c"), ("", "chain"), ("key material", ""), ("", "")] {
        let framed = encode_pair(&b(key), &b(chain));
        let (k, c) = decode_pair(&framed).unwrap();
        assert_eq!(k, b(key));
        assert_eq!(c, b(chain));
    }
}

#[test]
fn unframe_rejects_short_buffers() {
    assert!(decode_pair(&b("abc")).is_none());
    // A prefix longer than the buffer.
    let framed = vec![200u8, 0, 0, 0, 1, 2, 3];
    assert!(decode_pair(&framed).is_none());
}

#[test]
fn decode_page_round_trips() {
    let codec = codec();
    let pkgs = vec![
        seal(&codec, "example.com", "priv-1", "chain-1"),
        seal(&codec, "other.org", "priv-2", "chain-2"),
    ];
    let page = decode_page(&codec, &pkgs).unwrap();
    assert_eq!(page.len(), 2);
    assert_eq!(page[0].name, b("example.com"));
    assert_eq!(page[0].private_key, b("priv-1"));
    assert_eq!(page[0].chain, b("chain-1"));
    assert_eq!(page[1].name, b("other.org"));
    assert_eq!(page[1].private_key, b("priv-2"));
    assert_eq!(page[1].chain, b("chain-2"));
}

#[test]
fn corrupt_payload_fails_whole_page() {
    let codec = codec();
    let mut pkgs = vec![
        seal(&codec, "example.com", "priv-1", "chain-1"),
        seal(&codec, "other.org", "priv-2", "chain-2"),
    ];
    pkgs[1].ciphertext[3] ^= 0x40;
    assert_eq!(decode_page(&codec, &pkgs).unwrap_err(), ExportError::Decode);
}

#[test]
fn attestation_mismatch_fails_page() {
    let codec = codec();
    let pkgs = vec![seal(&codec, "example.com", "priv", "chain")];
    let r = export_page(&codec, &pkgs, &b("digest-a"), &b("digest-b"));
    assert_eq!(r.unwrap_err(), ExportError::AttestationMismatch);
    assert!(check_attestation(&b("same"), &b("same")).is_ok());
}

#[test]
fn attested_intact_page_exports() {
    let codec = codec();
    let pkgs = vec![seal(&codec, "example.com", "priv", "chain")];
    let page = export_page(&codec, &pkgs, &b("digest"), &b("digest")).unwrap();
    assert_eq!(page.len(), 1);
    assert_eq!(page[0].name, b("example.com"));
}

#[test]
fn single_flipped_ciphertext_byte_fails_export() {
    // Either the integrity check or the attestation rejects a modified
    // page; with an honest attestation the decode step catches it.
    let codec = codec();
    let mut pkgs = vec![seal(&codec, "example.com", "priv", "chain")];
    pkgs[0].ciphertext[0] ^= 0x01;
    let r = export_page(&codec, &pkgs, &b("digest"), &b("digest"));
    assert_eq!(r.unwrap_err(), ExportError::Decode);
}

#[test]
fn page_bounds_clamp() {
    assert_eq!(page_bounds(0, EXPORT_PAGE_SIZE, 120), (0, 50));
    assert_eq!(page_bounds(100, 50, 120), (100, 120));
    assert_eq!(page_bounds(200, 50, 120), (120, 120));
    assert_eq!(page_bounds(0, 50, 0), (0, 0));
    assert_eq!(page_bounds(u64::MAX, u64::MAX, 7), (7, 7));
}

#[test]
fn export_retry_budget() {
    assert!(may_retry_export(0));
    assert!(may_retry_export(19));
    assert!(!may_retry_export(20));
    assert!(!may_retry_export(21));
}
