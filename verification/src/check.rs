//! The registration checker: name validity, canonicalization, the
//! delegation rule on the `_acme-challenge` CNAME, and the ownership
//! rule, as one decision over the lookup results.

use vstd::prelude::*;

use crate::bytestr::{append_bytes, bytes_eq, in_zone, is_in_zone};

verus! {

/// A byte allowed in a canonical domain name.
pub open spec fn is_name_byte(b: u8) -> bool {
    (97 <= b <= 122) || (48 <= b <= 57) || b == 45 || b == 46
}

/// A syntactically valid, canonical fully-qualified domain name:
/// lowercase letters, digits, hyphens and dots; non-empty dot-separated
/// labels of at most 63 bytes; hyphens not at label edges; at most 253
/// bytes in all. The label bound is phrased as: every 64-byte window
/// holds a dot.
pub open spec fn valid_name(s: Seq<u8>) -> bool {
    &&& 1 <= s.len() <= 253
    &&& forall|i: int| 0 <= i < s.len() ==> is_name_byte(s[i])
    &&& s[0] != 46 && s[s.len() - 1] != 46
    &&& s[0] != 45 && s[s.len() - 1] != 45
    &&& forall|i: int| 0 < i < s.len() ==> #[trigger] label_edge_ok(s, i)
    &&& forall|w: int| 0 <= w && w + 64 <= s.len() ==> #[trigger] has_dot_in(s, w, w + 64)
}

/// Some byte of `s[lo..hi]` is a dot.
pub open spec fn has_dot_in(s: Seq<u8>, lo: int, hi: int) -> bool {
    exists|d: int| lo <= d < hi && s[d] == 46
}

/// No empty label and no hyphen at a label edge around position `i`.
pub open spec fn label_edge_ok(s: Seq<u8>, i: int) -> bool {
    !(s[i - 1] == 46 && s[i] == 46) && !(s[i - 1] == 46 && s[i] == 45) && !(s[i - 1] == 45 && s[i]
        == 46)
}

/// Decides [`valid_name`].
pub fn validate_name(s: &Vec<u8>) -> (r: bool)
    ensures
        r == valid_name(s@),
{
    if s.len() == 0 || s.len() > 253 {
        return false;
    }
    let first = s[0];
    let last = s[s.len() - 1];
    if first == 46 || first == 45 || last == 46 || last == 45 {
        return false;
    }
    let mut run: usize = 0;
    let mut i: usize = 0;
    while i < s.len()
        invariant
            i <= s@.len(),
            1 <= s@.len() <= 253,
            run <= i,
            forall|j: int| 0 <= j < i ==> is_name_byte(s@[j]),
            forall|j: int| 0 < j < i ==> #[trigger] label_edge_ok(s@, j),
            forall|d: int| i - run <= d < i ==> s@[d] != 46,
            run < i ==> s@[i - run - 1] == 46,
            forall|w: int| 0 <= w && w + 64 <= i ==> #[trigger] has_dot_in(s@, w, w + 64),
        decreases s@.len() - i,
    {
        let b = s[i];
        let ok = (97 <= b && b <= 122) || (48 <= b && b <= 57) || b == 45 || b == 46;
        if !ok {
            assert(!is_name_byte(s@[i as int]));
            return false;
        }
        if i > 0 {
            let prev = s[i - 1];
            if (prev == 46 && b == 46) || (prev == 46 && b == 45) || (prev == 45 && b == 46) {
                assert(!label_edge_ok(s@, i as int));
                return false;
            }
        }
        if b == 46 {
            run = 0;
        } else {
            run += 1;
            if run >= 64 {
                // A dotless run of 64 bytes: the window ending here has
                // no dot, so some label is longer than 63 bytes.
                proof {
                    let w = i - 63;
                    assert forall|d: int| w <= d < w + 64 implies s@[d] != 46 by {
                        if d < i {
                        } else {
                            assert(s@[i as int] != 46);
                        }
                    }
                    assert(!has_dot_in(s@, w, w + 64));
                }
                return false;
            }
        }
        proof {
            if i >= 63 {
                let w = i - 63;
                if s@[i as int] == 46 {
                    assert(has_dot_in(s@, w, w + 64));
                } else {
                    assert(s@[i - (run - 1) - 1] == 46);
                    assert(has_dot_in(s@, w, w + 64));
                }
            }
        }
        i += 1;
    }
    true
}

/// An upper-case ASCII letter mapped to lower case; all else unchanged.
pub open spec fn to_lower_byte(b: u8) -> u8 {
    if 65 <= b <= 90 {
        (b + 32) as u8
    } else {
        b
    }
}

/// The canonical form of a supplied name: lower-cased, with one trailing
/// dot stripped.
pub open spec fn canon_spec(s: Seq<u8>) -> Seq<u8> {
    let l = s.map_values(|b: u8| to_lower_byte(b));
    if l.len() > 0 && l[l.len() - 1] == 46 {
        l.drop_last()
    } else {
        l
    }
}

/// Canonicalizes a name as stored on write: lowercase, trailing dot
/// stripped.
pub fn canonicalize_name(raw: &Vec<u8>) -> (r: Vec<u8>)
    ensures
        r@ == canon_spec(raw@),
{
    let mut out: Vec<u8> = Vec::new();
    let mut i: usize = 0;
    while i < raw.len()
        invariant
            i <= raw@.len(),
            out@ =~= raw@.take(i as int).map_values(|b: u8| to_lower_byte(b)),
        decreases raw@.len() - i,
    {
        let b = raw[i];
        let lb = if 65 <= b && b <= 90 {
            b + 32
        } else {
            b
        };
        out.push(lb);
        proof {
            assert(out@ =~= raw@.take(i + 1).map_values(|b: u8| to_lower_byte(b)));
        }
        i += 1;
    }
    proof {
        assert(raw@.take(raw@.len() as int) =~= raw@);
    }
    if out.len() > 0 && out[out.len() - 1] == 46 {
        out.pop();
    }
    out
}

/// The distinguishable failures of the checker.
#[derive(Clone, Copy, PartialEq, Eq, Structural, Debug)]
pub enum CheckError {
    /// The name is not a valid FQDN, or lies inside the delegation zone.
    InvalidName,
    /// No CNAME record exists at `_acme-challenge.<name>`.
    MissingDnsCname,
    /// The CNAME target lies outside the delegation zone.
    InvalidDnsCnameTarget,
    /// The information needed for the decision could not be obtained.
    KnownDomainsUnavailable,
    /// No owner is on record for the name.
    MissingOwner,
    /// A different canister owns the name.
    NotOwner,
}

/// What the resolver reported for the `_acme-challenge` CNAME.
pub enum CnameLookup {
    /// The canonical target of the record.
    Found(Vec<u8>),
    NotFound,
    Timeout,
    Other,
}

/// What the orchestrator reported as the owner of the name.
pub enum OwnerLookup {
    /// The textual principal on record.
    Owner(Vec<u8>),
    Missing,
    Unavailable,
}

/// The checker's decision. It succeeds iff the name is a valid FQDN
/// outside the delegation zone, its `_acme-challenge` CNAME points into
/// the delegation zone, and the claimed canister is the owner on record.
pub open spec fn spec_check(
    name: Seq<u8>,
    canister: Seq<u8>,
    delegation: Seq<u8>,
    cname: CnameLookup,
    owner: OwnerLookup,
) -> Result<(), CheckError> {
    if !valid_name(name) || name == delegation || in_zone(name, delegation) {
        Err(CheckError::InvalidName)
    } else {
        match cname {
            CnameLookup::NotFound => Err(CheckError::MissingDnsCname),
            CnameLookup::Timeout => Err(CheckError::KnownDomainsUnavailable),
            CnameLookup::Other => Err(CheckError::KnownDomainsUnavailable),
            CnameLookup::Found(t) => if !in_zone(t@, delegation) {
                Err(CheckError::InvalidDnsCnameTarget)
            } else {
                match owner {
                    OwnerLookup::Unavailable => Err(CheckError::KnownDomainsUnavailable),
                    OwnerLookup::Missing => Err(CheckError::MissingOwner),
                    OwnerLookup::Owner(p) => if p@ == canister {
                        Ok(())
                    } else {
                        Err(CheckError::NotOwner)
                    },
                }
            },
        }
    }
}

/// Decides [`spec_check`] from the two lookup results.
pub fn evaluate_check(
    name: &Vec<u8>,
    canister: &Vec<u8>,
    delegation: &Vec<u8>,
    cname: &CnameLookup,
    owner: &OwnerLookup,
) -> (r: Result<(), CheckError>)
    ensures
        r == spec_check(name@, canister@, delegation@, *cname, *owner),
{
    if !validate_name(name) || bytes_eq(name, delegation) || is_in_zone(name, delegation) {
        return Err(CheckError::InvalidName);
    }
    match cname {
        CnameLookup::NotFound => Err(CheckError::MissingDnsCname),
        CnameLookup::Timeout => Err(CheckError::KnownDomainsUnavailable),
        CnameLookup::Other => Err(CheckError::KnownDomainsUnavailable),
        CnameLookup::Found(t) => {
            if !is_in_zone(t, delegation) {
                Err(CheckError::InvalidDnsCnameTarget)
            } else {
                match owner {
                    OwnerLookup::Unavailable => Err(CheckError::KnownDomainsUnavailable),
                    OwnerLookup::Missing => Err(CheckError::MissingOwner),
                    OwnerLookup::Owner(p) => {
                        if bytes_eq(p, canister) {
                            Ok(())
                        } else {
                            Err(CheckError::NotOwner)
                        }
                    },
                }
            }
        },
    }
}

/// Law: for any name whose `_acme-challenge` CNAME target lies outside
/// the delegation zone, the checker answers `InvalidDnsCnameTarget`.
pub proof fn lemma_checker_rejects_non_delegation(
    name: Seq<u8>,
    canister: Seq<u8>,
    delegation: Seq<u8>,
    target: Vec<u8>,
    owner: OwnerLookup,
)
    requires
        valid_name(name),
        name != delegation,
        !in_zone(name, delegation),
        !in_zone(target@, delegation),
    ensures
        spec_check(name, canister, delegation, CnameLookup::Found(target), owner) == Err::<
            (),
            CheckError,
        >(CheckError::InvalidDnsCnameTarget),
{
}

/// The name whose CNAME the checker resolves for a registered name.
pub open spec fn spec_challenge_name(name: Seq<u8>) -> Seq<u8> {
    acme_challenge_label() + seq![46u8] + name
}

/// The bytes of the fixed challenge label.
pub open spec fn acme_challenge_label() -> Seq<u8> {
    seq![95u8, 97u8, 99u8, 109u8, 101u8, 45u8, 99u8, 104u8, 97u8, 108u8, 108u8, 101u8, 110u8,
        103u8, 101u8]
}

/// Pushes the fixed challenge label and a separating dot.
fn push_challenge_prefix(out: &mut Vec<u8>)
    ensures
        final(out)@ == old(out)@ + acme_challenge_label() + seq![46u8],
{
    out.push(95);
    out.push(97);
    out.push(99);
    out.push(109);
    out.push(101);
    out.push(45);
    out.push(99);
    out.push(104);
    out.push(97);
    out.push(108);
    out.push(108);
    out.push(101);
    out.push(110);
    out.push(103);
    out.push(101);
    out.push(46);
    proof {
        assert(out@ =~= old(out)@ + acme_challenge_label() + seq![46u8]);
    }
}

/// Builds `_acme-challenge.<name>`, the name the checker resolves.
pub fn challenge_name(name: &Vec<u8>) -> (r: Vec<u8>)
    ensures
        r@ == spec_challenge_name(name@),
{
    let mut out: Vec<u8> = Vec::new();
    push_challenge_prefix(&mut out);
    append_bytes(&mut out, name);
    proof {
        assert(out@ =~= spec_challenge_name(name@));
    }
    out
}

/// The TXT name the processor creates on the delegation zone for a
/// registration id: `_acme-challenge.<id>.<delegation>`.
pub open spec fn spec_delegation_txt_name(id: Seq<u8>, delegation: Seq<u8>) -> Seq<u8> {
    acme_challenge_label() + seq![46u8] + id + seq![46u8] + delegation
}

/// Builds `_acme-challenge.<id>.<delegation>`.
pub fn delegation_txt_name(id: &Vec<u8>, delegation: &Vec<u8>) -> (r: Vec<u8>)
    ensures
        r@ == spec_delegation_txt_name(id@, delegation@),
{
    let mut out: Vec<u8> = Vec::new();
    push_challenge_prefix(&mut out);
    append_bytes(&mut out, id);
    out.push(46);
    append_bytes(&mut out, delegation);
    proof {
        assert(out@ =~= spec_delegation_txt_name(id@, delegation@));
    }
    out
}

} // verus!
