use sui_address_grinder::args::{matches_folded, GrindArgs};
use sui_address_grinder::error::GrindArgError;
use sui_address_grinder::signature_scheme::{SignatureScheme, SignatureSchemeArg};

#[test]
fn test_starts_with() {
    let args = GrindArgs {
        starts_with: Some("123".to_string()),
        ends_with: None,
        ignore_case: false,
        ..Default::default()
    };
    assert!(!args.is_matched(&"0x0123abc".to_string(), &"0x0123abc".to_string()));
    assert!(args.is_matched(&"0x123abc".to_string(), &"0x0123abc".to_string()));
}

#[test]
fn test_ends_with() {
    let args = GrindArgs {
        starts_with: None,
        ends_with: Some("abc".to_string()),
        ignore_case: false,
        ..Default::default()
    };
    assert!(!args.is_matched(&"0x123abc0".to_string(), &"0x0123abc".to_string()));
    assert!(args.is_matched(&"0x123abc".to_string(), &"0x0123abc".to_string()));
}

#[test]
fn test_starts_ends_with() {
    let args = GrindArgs {
        starts_with: Some("123".to_string()),
        ends_with: Some("abc".to_string()),
        ignore_case: false,
        ..Default::default()
    };
    assert!(!args.is_matched(&"0xabc123".to_string(), &"0x0123abc".to_string()));
    assert!(args.is_matched(&"0x123abc".to_string(), &"0x0123abc".to_string()));
}

#[test]
fn test_ignore_case() {
    let args = GrindArgs {
        starts_with: Some("123".to_string()),
        ends_with: Some("abc".to_string()),
        ignore_case: true,
        ..Default::default()
    };
    assert!(args.is_matched(&"0x123ABC".to_string(), &"0x0123abc".to_string()));
    assert!(args.is_matched(&"0x123abc".to_string(), &"0x0123abc".to_string()));
}

#[test]
fn test_scheme_from_arg() {
    assert_eq!(GrindArgs::try_from_arg("ed25519").unwrap(), SignatureScheme::ED25519);
    assert_eq!(GrindArgs::try_from_arg("secp256k1").unwrap(), SignatureScheme::Secp256k1);
    assert_eq!(GrindArgs::try_from_arg("secp256r1").unwrap(), SignatureScheme::Secp256r1);
    assert_eq!(
        GrindArgs::try_from_arg("unknown").unwrap_err(),
        GrindArgError::InvalidSignatureScheme("unknown".to_string())
    );
}

#[test]
fn test_is_valid_hex() {
    assert!(GrindArgs::is_valid_hex("0x123abc"));
    assert!(GrindArgs::is_valid_hex("123abc"));
    assert!(!GrindArgs::is_valid_hex("0x123xyz"));
    assert!(!GrindArgs::is_valid_hex("123xyz"));
    assert!(!GrindArgs::is_valid_hex(""));
}

#[test]
fn test_validate() {
    let args = GrindArgs {
        starts_with: Some("123".to_string()),
        ends_with: Some("abc".to_string()),
        ignore_case: false,
        ..Default::default()
    };
    assert!(args.validate().is_ok());

    let args_invalid = GrindArgs {
        starts_with: Some("xyz".to_string()),
        ends_with: Some("123".to_string()),
        ignore_case: false,
        ..Default::default()
    };
    assert_eq!(
        args_invalid.validate().unwrap_err(),
        GrindArgError::InvalidHexStringStartsWith
    );

    let args_invalid = GrindArgs {
        starts_with: Some("123".to_string()),
        ends_with: Some("xyz".to_string()),
        ignore_case: false,
        ..Default::default()
    };
    assert_eq!(
        args_invalid.validate().unwrap_err(),
        GrindArgError::InvalidHexStringEndsWith
    );
}

fn pattern(start: Option<&str>, end: Option<&str>, ignore_case: bool) -> GrindArgs {
    GrindArgs {
        starts_with: start.map(|s| s.to_string()),
        ends_with: end.map(|s| s.to_string()),
        ignore_case,
        ..Default::default()
    }
}

fn check(args: &GrindArgs, addr: &str) -> bool {
    args.is_matched(&addr.to_string(), &String::new())
}

#[test]
fn matcher_is_case_sensitive_by_default() {
    assert!(check(&pattern(Some("123"), None, false), "0x123ABC"));
    assert!(!check(&pattern(Some("123"), Some("abc"), false), "0x123ABC"));
    assert!(check(&pattern(Some("123"), Some("abc"), true), "0x123ABC"));
    assert!(!check(&pattern(None, Some("ABC"), false), "0x123abc"));
    assert!(check(&pattern(None, Some("ABC"), true), "0x123abc"));
}

#[test]
fn matcher_with_both_constraints() {
    let args = pattern(Some("123"), Some("abc"), false);
    assert!(check(&args, "0x123abc"));
    assert!(!check(&args, "0xabc123"));
}

#[test]
fn matcher_without_constraints_accepts_everything() {
    let args = pattern(None, None, false);
    for addr in ["", "0x", "0x123", "zzz", "0xABCdef"] {
        assert!(check(&args, addr));
    }
    assert!(check(&pattern(None, None, true), "0xABC"));
}

#[test]
fn matcher_strips_only_one_prefix() {
    assert!(check(&pattern(Some("0x1"), None, false), "0x0x1f"));
    assert!(!check(&pattern(Some("0x"), None, false), "0x12"));
    assert!(check(&pattern(Some("12"), None, false), "12ab"));
}

#[test]
fn matcher_folds_patterns_too() {
    assert!(check(&pattern(Some("ABC"), Some("DEF"), true), "0xabc0def"));
    assert!(!check(&pattern(Some("ABC"), None, false), "0xabc0def"));
    assert!(!check(&pattern(Some("ab"), Some("bc"), false), "0xabc0"));
}

#[test]
fn matcher_pattern_longer_than_address() {
    assert!(!check(&pattern(Some("12345"), None, false), "0x123"));
    assert!(!check(&pattern(None, Some("12345"), false), "0x123"));
}

#[test]
fn matches_folded_on_prepared_text() {
    assert!(matches_folded("123abc", Some("123"), Some("abc")));
    assert!(!matches_folded("abc123", Some("123"), Some("abc")));
    assert!(matches_folded("anything", None, None));
    assert!(!matches_folded("123ABC", None, Some("abc")));
}

#[test]
fn validate_accepts_absent_patterns_and_prefixed_hex() {
    assert!(GrindArgs::default().validate().is_ok());
    assert!(pattern(Some("0xABCdef"), Some("0x09"), false).validate().is_ok());
    assert_eq!(
        pattern(Some("0x"), None, false).validate().unwrap_err(),
        GrindArgError::InvalidHexStringStartsWith
    );
    assert_eq!(
        pattern(Some("xyz"), Some("xyz"), false).validate().unwrap_err(),
        GrindArgError::InvalidHexStringStartsWith
    );
}

#[test]
fn scheme_names_are_exact() {
    assert_eq!(
        GrindArgs::try_from_arg("ED25519").unwrap_err(),
        GrindArgError::InvalidSignatureScheme("ED25519".to_string())
    );
    assert!(GrindArgs::try_from_arg("ed2551").is_err());
    assert!(GrindArgs::try_from_arg("").is_err());
}
