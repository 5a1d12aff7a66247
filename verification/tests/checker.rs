use cert_issuer::api::{ApiError, api_error_of_check, create_decision, http_status};
use cert_issuer::check::{
    CheckError, CnameLookup, OwnerLookup, canonicalize_name, challenge_name, delegation_txt_name,
    evaluate_check, validate_name,
};

fn b(s: &str) -> Vec<u8> {
    s.as_bytes().to_vec()
}

#[test]
fn check_happy_path_admits() {
    let r = evaluate_check(
        &b("example.com"),
        &b("aaaaa-aa"),
        &b("delegation.test"),
        &CnameLookup::Found(b("example-com.delegation.test")),
        &OwnerLookup::Owner(b("aaaaa-aa")),
    );
    assert_eq!(r, Ok(()));
}

#[test]
fn check_rejects_target_outside_delegation() {
    let r = evaluate_check(
        &b("example.com"),
        &b("aaaaa-aa"),
        &b("delegation.test"),
        &CnameLookup::Found(b("example-com.elsewhere.test")),
        &OwnerLookup::Owner(b("aaaaa-aa")),
    );
    assert_eq!(r, Err(CheckError::InvalidDnsCnameTarget));
    // The bare zone apex is not a delegation either.
    let r = evaluate_check(
        &b("example.com"),
        &b("aaaaa-aa"),
        &b("delegation.test"),
        &CnameLookup::Found(b("delegation.test")),
        &OwnerLookup::Owner(b("aaaaa-aa")),
    );
    assert_eq!(r, Err(CheckError::InvalidDnsCnameTarget));
}

#[test]
fn check_missing_cname_is_400() {
    let r = evaluate_check(
        &b("example.com"),
        &b("aaaaa-aa"),
        &b("delegation.test"),
        &CnameLookup::NotFound,
        &OwnerLookup::Owner(b("aaaaa-aa")),
    );
    assert_eq!(r, Err(CheckError::MissingDnsCname));
    // The admission decision surfaces it as a validation failure and
    // enqueues nothing.
    let decision = create_decision(&r, 12345);
    let e = decision.unwrap_err();
    assert_eq!(e, ApiError::Validation);
    assert_eq!(http_status(&e), 400);
}

#[test]
fn check_ownership_failures() {
    let r = evaluate_check(
        &b("example.com"),
        &b("aaaaa-aa"),
        &b("delegation.test"),
        &CnameLookup::Found(b("x.delegation.test")),
        &OwnerLookup::Owner(b("bbbbb-bb")),
    );
    assert_eq!(r, Err(CheckError::NotOwner));
    assert_eq!(http_status(&api_error_of_check(&CheckError::NotOwner)), 403);

    let r = evaluate_check(
        &b("example.com"),
        &b("aaaaa-aa"),
        &b("delegation.test"),
        &CnameLookup::Found(b("x.delegation.test")),
        &OwnerLookup::Missing,
    );
    assert_eq!(r, Err(CheckError::MissingOwner));

    let r = evaluate_check(
        &b("example.com"),
        &b("aaaaa-aa"),
        &b("delegation.test"),
        &CnameLookup::Found(b("x.delegation.test")),
        &OwnerLookup::Unavailable,
    );
    assert_eq!(r, Err(CheckError::KnownDomainsUnavailable));
    assert_eq!(http_status(&api_error_of_check(&CheckError::KnownDomainsUnavailable)), 503);
}

#[test]
fn check_resolver_trouble_is_unavailable() {
    for lookup in [CnameLookup::Timeout, CnameLookup::Other] {
        let r = evaluate_check(
            &b("example.com"),
            &b("aaaaa-aa"),
            &b("delegation.test"),
            &lookup,
            &OwnerLookup::Owner(b("aaaaa-aa")),
        );
        assert_eq!(r, Err(CheckError::KnownDomainsUnavailable));
    }
}

#[test]
fn check_rejects_names_inside_delegation() {
    for name in ["delegation.test", "sub.delegation.test"] {
        let r = evaluate_check(
            &b(name),
            &b("aaaaa-aa"),
            &b("delegation.test"),
            &CnameLookup::Found(b("x.delegation.test")),
            &OwnerLookup::Owner(b("aaaaa-aa")),
        );
        assert_eq!(r, Err(CheckError::InvalidName), "{name}");
    }
}

#[test]
fn name_validity() {
    for good in ["example.com", "a.b.c", "x-y.example.com", "8.8.8.8.in-addr.arpa"] {
        assert!(validate_name(&b(good)), "{good}");
    }
    for bad in [
        "",
        "EXAMPLE.com",
        ".example.com",
        "example.com.",
        "a..b",
        "-a.com",
        "a-.com",
        "a.-b.com",
        "a.b-.com",
        "under_score.com",
    ] {
        assert!(!validate_name(&b(bad)), "{bad}");
    }
    let too_long = vec![b'a'; 254];
    assert!(!validate_name(&too_long));

    // Labels are bounded at 63 bytes.
    let mut label_63 = vec![b'a'; 63];
    label_63.extend_from_slice(b".com");
    assert!(validate_name(&label_63));
    let mut label_64 = vec![b'a'; 64];
    label_64.extend_from_slice(b".com");
    assert!(!validate_name(&label_64));
    let mut inner_64 = b"x.".to_vec();
    inner_64.extend_from_slice(&vec![b'b'; 64]);
    inner_64.extend_from_slice(b".com");
    assert!(!validate_name(&inner_64));
}

#[test]
fn canonicalization() {
    assert_eq!(canonicalize_name(&b("ExAmPle.COM.")), b("example.com"));
    assert_eq!(canonicalize_name(&b("example.com")), b("example.com"));
    assert_eq!(canonicalize_name(&b("")), b(""));
    assert!(validate_name(&canonicalize_name(&b("Example.Com."))));
}

#[test]
fn challenge_names() {
    assert_eq!(challenge_name(&b("example.com")), b("_acme-challenge.example.com"));
    assert_eq!(
        delegation_txt_name(&b("reg-1"), &b("delegation.test")),
        b("_acme-challenge.reg-1.delegation.test")
    );
}
