//! The certificate export path: stored payloads are framed
//! `(private_key, chain)` pairs, sealed by the codec; a successful
//! export page is both fully decrypted and attested.

use vstd::prelude::*;

use crate::codec::{Codec, sealed_of};

verus! {

/// Page size of the paginated export.
pub const EXPORT_PAGE_SIZE: u64 = 50;

/// How many attempts the export path makes against transient errors.
pub const EXPORT_MAX_ATTEMPTS: u64 = 20;

/// Whether the export path may make one more attempt after a transient
/// failure.
pub fn may_retry_export(attempt: u64) -> (r: bool)
    ensures
        r == (attempt < EXPORT_MAX_ATTEMPTS),
{
    attempt < EXPORT_MAX_ATTEMPTS
}

/// One stored certificate as the orchestrator returns it.
#[derive(Debug)]
pub struct Package {
    pub name: Vec<u8>,
    pub nonce: Vec<u8>,
    pub ciphertext: Vec<u8>,
}

/// One certificate as the export path hands it out.
#[derive(Debug)]
pub struct ExportedCertificate {
    pub name: Vec<u8>,
    pub private_key: Vec<u8>,
    pub chain: Vec<u8>,
}

/// Errors of the export path.
#[derive(Clone, Copy, PartialEq, Eq, Structural, Debug)]
pub enum ExportError {
    /// A payload of the page failed to decrypt or to unframe: data
    /// corruption fails the whole page.
    Decode,
    /// The page is not consistent with the orchestrator's event-log
    /// attestation.
    AttestationMismatch,
}

/// The little-endian length prefix of the framing.
pub open spec fn u32_le(n: u32) -> Seq<u8> {
    seq![
        (n & 0xff) as u8,
        ((n >> 8) & 0xff) as u8,
        ((n >> 16) & 0xff) as u8,
        ((n >> 24) & 0xff) as u8,
    ]
}

/// The framed plaintext of a stored certificate: the private key,
/// length-prefixed, followed by the chain.
pub open spec fn encode_pair_spec(k: Seq<u8>, c: Seq<u8>) -> Seq<u8> {
    u32_le(k.len() as u32) + k + c
}

/// The value of a little-endian length prefix.
pub open spec fn le_val(s: Seq<u8>) -> u32 {
    (s[0] as u32) | ((s[1] as u32) << 8) | ((s[2] as u32) << 16) | ((s[3] as u32) << 24)
}

/// What unframing yields: the two parts cut at the prefixed length, or
/// nothing if the buffer is too short for its own prefix.
pub open spec fn spec_decode_pair(p: Seq<u8>) -> Option<(Seq<u8>, Seq<u8>)> {
    if p.len() >= 4 && 4 + le_val(p) <= p.len() {
        Some(
            ((p.subrange(4, 4 + le_val(p))), (p.subrange(4 + le_val(p), p.len() as int))),
        )
    } else {
        None
    }
}

/// Law: unframing inverts framing. For any private key that fits the
/// length prefix and any chain, decoding the framed pair returns both
/// parts unchanged.
pub proof fn lemma_frame_round_trip(k: Seq<u8>, c: Seq<u8>)
    requires
        k.len() <= u32::MAX,
    ensures
        spec_decode_pair(encode_pair_spec(k, c)) is Some,
        spec_decode_pair(encode_pair_spec(k, c))->Some_0.0 == k,
        spec_decode_pair(encode_pair_spec(k, c))->Some_0.1 == c,
{
    let n = k.len() as u32;
    let p = encode_pair_spec(k, c);
    assert((((n & 0xff) as u8) as u32) | (((((n >> 8) & 0xff) as u8) as u32) << 8) | (((((n >> 16)
        & 0xff) as u8) as u32) << 16) | (((((n >> 24) & 0xff) as u8) as u32) << 24) == n)
        by (bit_vector);
    assert(le_val(p) == n);
    assert(p.subrange(4, 4 + le_val(p)) =~= k);
    assert(p.subrange(4 + le_val(p), p.len() as int) =~= c);
}

/// Frames a `(private_key, chain)` pair for sealing.
pub fn encode_pair(k: &Vec<u8>, c: &Vec<u8>) -> (r: Vec<u8>)
    requires
        k@.len() <= u32::MAX,
        k@.len() + c@.len() + 4 <= usize::MAX,
    ensures
        r@ == encode_pair_spec(k@, c@),
{
    let n = k.len() as u32;
    let mut out: Vec<u8> = Vec::new();
    let b0 = (n & 0xff) as u8;
    let b1 = ((n >> 8) & 0xff) as u8;
    let b2 = ((n >> 16) & 0xff) as u8;
    let b3 = ((n >> 24) & 0xff) as u8;
    out.push(b0);
    out.push(b1);
    out.push(b2);
    out.push(b3);
    crate::bytestr::append_bytes(&mut out, k);
    crate::bytestr::append_bytes(&mut out, c);
    proof {
        assert(out@ =~= encode_pair_spec(k@, c@));
    }
    out
}

/// Unframes a sealed payload back into its two parts; decides
/// [`spec_decode_pair`].
pub fn decode_pair(p: &Vec<u8>) -> (r: Option<(Vec<u8>, Vec<u8>)>)
    ensures
        r is Some <==> spec_decode_pair(p@) is Some,
        r is Some ==> r->Some_0.0@ == spec_decode_pair(p@)->Some_0.0 && r->Some_0.1@
            == spec_decode_pair(p@)->Some_0.1,
{
    if p.len() < 4 {
        return None;
    }
    let n: u32 = (p[0] as u32) | ((p[1] as u32) << 8) | ((p[2] as u32) << 16) | ((p[3] as u32)
        << 24);
    assert(n == le_val(p@));
    if (n as u64) > (p.len() as u64) - 4 {
        return None;
    }
    let nn = n as usize;
    assert(4 + nn <= p@.len());
    let end = 4 + nn;
    let mut k: Vec<u8> = Vec::new();
    let mut i: usize = 4;
    while i < end
        invariant
            4 <= i <= end,
            end == 4 + nn,
            4 + nn <= p@.len(),
            k@ =~= p@.subrange(4, i as int),
        decreases end - i,
    {
        k.push(p[i]);
        proof {
            assert(k@ =~= p@.subrange(4, i + 1));
        }
        i += 1;
    }
    let mut c: Vec<u8> = Vec::new();
    let mut j: usize = 4 + nn;
    while j < p.len()
        invariant
            4 + nn <= j <= p@.len(),
            c@ =~= p@.subrange(4 + nn, j as int),
        decreases p@.len() - j,
    {
        c.push(p[j]);
        proof {
            assert(c@ =~= p@.subrange(4 + nn, j + 1));
        }
        j += 1;
    }
    Some((k, c))
}

/// A stored package that is an intact sealing of some framed pair under
/// this key.
pub open spec fn well_sealed(key: Seq<u8>, pkg: Package) -> bool {
    &&& pkg.nonce@.len() == 24
    &&& exists|k: Seq<u8>, c: Seq<u8>|
        k.len() <= u32::MAX && pkg.ciphertext@ == sealed_of(
            key,
            pkg.nonce@,
            #[trigger] encode_pair_spec(k, c),
        )
}

/// Decrypts and unframes a whole page; any failing payload fails the
/// page. On success every entry is the sealed framed pair of the
/// returned certificate, under the stored nonce; a page of intact
/// payloads never fails.
pub fn decode_page(codec: &Codec, pkgs: &Vec<Package>) -> (r: Result<
    Vec<ExportedCertificate>,
    ExportError,
>)
    requires
        codec.wf(),
    ensures
        r is Ok ==> r->Ok_0@.len() == pkgs@.len(),
        r is Ok ==> forall|i: int|
            0 <= i < pkgs@.len() ==> (#[trigger] pkgs@[i]).ciphertext@ == sealed_of(
                codec.key(),
                pkgs@[i].nonce@,
                encode_pair_spec(r->Ok_0@[i].private_key@, r->Ok_0@[i].chain@),
            ) && r->Ok_0@[i].name@ == pkgs@[i].name@,
        (forall|i: int| 0 <= i < pkgs@.len() ==> well_sealed(codec.key(), #[trigger] pkgs@[i]))
            ==> r is Ok,
        r is Err ==> r->Err_0 == ExportError::Decode,
{
    let mut out: Vec<ExportedCertificate> = Vec::new();
    let mut i: usize = 0;
    while i < pkgs.len()
        invariant
            i <= pkgs@.len(),
            codec.wf(),
            out@.len() == i,
            forall|j: int|
                0 <= j < i ==> (#[trigger] pkgs@[j]).ciphertext@ == sealed_of(
                    codec.key(),
                    pkgs@[j].nonce@,
                    encode_pair_spec(out@[j].private_key@, out@[j].chain@),
                ) && out@[j].name@ == pkgs@[j].name@,
        decreases pkgs@.len() - i,
    {
        let pkg = &pkgs[i];
        if pkg.nonce.len() != 24 {
            proof {
                assert(!well_sealed(codec.key(), pkgs@[i as int]));
            }
            return Err(ExportError::Decode);
        }
        let plaintext = match codec.decrypt(&pkg.nonce, &pkg.ciphertext) {
            Ok(p) => p,
            Err(_) => {
                proof {
                    if well_sealed(codec.key(), pkgs@[i as int]) {
                        let (k, c) = choose|k: Seq<u8>, c: Seq<u8>|
                            k.len() <= u32::MAX && pkgs@[i as int].ciphertext@ == sealed_of(
                                codec.key(),
                                pkgs@[i as int].nonce@,
                                #[trigger] encode_pair_spec(k, c),
                            );
                        assert(false);
                    }
                }
                return Err(ExportError::Decode);
            },
        };
        let pair = match decode_pair(&plaintext) {
            Some(kc) => kc,
            None => {
                proof {
                    if well_sealed(codec.key(), pkgs@[i as int]) {
                        let (k, c) = choose|k: Seq<u8>, c: Seq<u8>|
                            k.len() <= u32::MAX && pkgs@[i as int].ciphertext@ == sealed_of(
                                codec.key(),
                                pkgs@[i as int].nonce@,
                                #[trigger] encode_pair_spec(k, c),
                            );
                        assert(plaintext@ == encode_pair_spec(k, c));
                        lemma_frame_round_trip(k, c);
                        assert(false);
                    }
                }
                return Err(ExportError::Decode);
            },
        };
        let (key_part, chain_part) = pair;
        proof {
            lemma_decoded_is_sealed(codec.key(), pkgs@[i as int], plaintext@, key_part@, chain_part@);
        }
        out.push(
            ExportedCertificate {
                name: pkg.name.clone(),
                private_key: key_part,
                chain: chain_part,
            },
        );
        i += 1;
    }
    Ok(out)
}

/// A successfully unframed decryption is the sealing of the framed
/// parts: the decoded parts re-frame to the decrypted plaintext.
proof fn lemma_decoded_is_sealed(
    key: Seq<u8>,
    pkg: Package,
    plaintext: Seq<u8>,
    k: Seq<u8>,
    c: Seq<u8>,
)
    requires
        pkg.ciphertext@ == sealed_of(key, pkg.nonce@, plaintext),
        spec_decode_pair(plaintext) is Some,
        k == spec_decode_pair(plaintext)->Some_0.0,
        c == spec_decode_pair(plaintext)->Some_0.1,
    ensures
        pkg.ciphertext@ == sealed_of(key, pkg.nonce@, encode_pair_spec(k, c)),
{
    let n = le_val(plaintext);
    assert(k.len() == n);
    let v0 = plaintext[0];
    let v1 = plaintext[1];
    let v2 = plaintext[2];
    let v3 = plaintext[3];
    let w = le_val(plaintext);
    assert(w == (v0 as u32) | ((v1 as u32) << 8) | ((v2 as u32) << 16) | ((v3 as u32) << 24));
    assert((w == (v0 as u32) | ((v1 as u32) << 8) | ((v2 as u32) << 16) | ((v3 as u32) << 24))
        ==> ((w & 0xff) as u8 == v0 && ((w >> 8) & 0xff) as u8 == v1 && ((w >> 16) & 0xff) as u8
        == v2 && ((w >> 24) & 0xff) as u8 == v3)) by (bit_vector);
    assert((k.len() as u32) == w);
    assert(u32_le(k.len() as u32) =~= plaintext.subrange(0, 4));
    assert(encode_pair_spec(k, c) =~= plaintext);
}

/// Clamped bounds of one export page: the half-open range of stored
/// certificates it covers.
pub fn page_bounds(offset: u64, limit: u64, total: u64) -> (r: (u64, u64))
    ensures
        r.0 == if offset <= total {
            offset as int
        } else {
            total as int
        },
        r.1 == if offset + limit <= total {
            offset + limit
        } else {
            total as int
        },
        r.0 <= r.1 <= total,
{
    let start = if offset <= total {
        offset
    } else {
        total
    };
    let end = if limit <= total && offset <= total - limit {
        offset + limit
    } else {
        total
    };
    (start, end)
}

/// The verification step of the export path: a page is accepted iff the
/// attestation embedded in it equals the attestation the verifier
/// computed over the committed event log.
pub fn check_attestation(embedded: &Vec<u8>, attested: &Vec<u8>) -> (r: Result<(), ExportError>)
    ensures
        r is Ok <==> embedded@ == attested@,
        r is Err ==> r->Err_0 == ExportError::AttestationMismatch,
{
    if crate::bytestr::bytes_eq(embedded, attested) {
        Ok(())
    } else {
        Err(ExportError::AttestationMismatch)
    }
}

/// One export page, end to end: the page fails unless its embedded
/// attestation matches the verifier's, and unless every payload
/// decrypts and unframes; what comes back is fully decrypted and
/// attested.
pub fn export_page(
    codec: &Codec,
    pkgs: &Vec<Package>,
    embedded: &Vec<u8>,
    attested: &Vec<u8>,
) -> (r: Result<Vec<ExportedCertificate>, ExportError>)
    requires
        codec.wf(),
    ensures
        embedded@ != attested@ ==> r is Err && r->Err_0 == ExportError::AttestationMismatch,
        r is Ok ==> embedded@ == attested@ && r->Ok_0@.len() == pkgs@.len() && forall|i: int|
            0 <= i < pkgs@.len() ==> (#[trigger] pkgs@[i]).ciphertext@ == sealed_of(
                codec.key(),
                pkgs@[i].nonce@,
                encode_pair_spec(r->Ok_0@[i].private_key@, r->Ok_0@[i].chain@),
            ) && r->Ok_0@[i].name@ == pkgs@[i].name@,
        (embedded@ == attested@ && forall|i: int|
            0 <= i < pkgs@.len() ==> well_sealed(codec.key(), #[trigger] pkgs@[i])) ==> r is Ok,
{
    check_attestation(embedded, attested)?;
    decode_page(codec, pkgs)
}

} // verus!
