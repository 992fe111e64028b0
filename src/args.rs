//! The search settings: the address pattern, its validation and the matcher.
use crate::error::GrindArgError;
use crate::signature_scheme::{SignatureScheme, SignatureSchemeArg};
use crate::text::{
    ends_with, folded, hex_digit, is_hex_digit, is_prefix_of, is_suffix_of, same_text,
    starts_with, strip_hex_prefix, strip_hex_prefix_of, to_lower,
};
use vstd::prelude::*;

verus! {

/// Settings of one search; every worker holds its own copy.
#[derive(Clone, Debug)]
pub struct GrindArgs {
    /// Text that the address must begin with.
    pub starts_with: Option<String>,
    /// Text that the address must end with.
    pub ends_with: Option<String>,
    /// Compare the address and the patterns in lower case.
    pub ignore_case: bool,
    /// Show every candidate while searching.
    pub verbose: bool,
    /// Use only this many cores; all of them when absent.
    pub cores: Option<usize>,
    /// The algorithm that keypairs are generated with.
    pub scheme: SignatureScheme,
}

/// A non-empty text of hexadecimal digits, after one optional `0x`.
pub open spec fn valid_hex(s: Seq<char>) -> bool {
    let t = strip_hex_prefix(s);
    t.len() > 0 && forall|i: int| 0 <= i < t.len() ==> is_hex_digit(#[trigger] t[i])
}

/// An absent pattern, or a present one that is valid hexadecimal.
pub open spec fn pattern_ok(p: Option<String>) -> bool {
    match p {
        Some(s) => valid_hex(s@),
        None => true,
    }
}

/// The optional texts as sequences of characters.
pub open spec fn opt_view(o: Option<&str>) -> Option<Seq<char>> {
    match o {
        Some(s) => Some(s@),
        None => None,
    }
}

/// `addr` begins with `start` and ends with `end`, each where present.
pub open spec fn accepts(addr: Seq<char>, start: Option<Seq<char>>, end: Option<Seq<char>>) -> bool {
    &&& (match start {
        Some(p) => is_prefix_of(p, addr),
        None => true,
    })
    &&& (match end {
        Some(p) => is_suffix_of(p, addr),
        None => true,
    })
}

/// A present pattern, case-folded when `ignore_case` holds.
pub open spec fn folded_pattern(p: Option<String>, ignore_case: bool) -> Option<Seq<char>> {
    match p {
        Some(s) => Some(folded(s@, ignore_case)),
        None => None,
    }
}

/// The name of each signature scheme.
pub open spec fn scheme_named(s: Seq<char>) -> Option<SignatureScheme> {
    if s == "ed25519"@ {
        Some(SignatureScheme::ED25519)
    } else if s == "secp256k1"@ {
        Some(SignatureScheme::Secp256k1)
    } else if s == "secp256r1"@ {
        Some(SignatureScheme::Secp256r1)
    } else {
        None
    }
}

/// Whether an address, already stripped of `0x` and case-folded as the
/// settings ask, satisfies patterns that were folded the same way.
pub fn matches_folded(addr: &str, start: Option<&str>, end: Option<&str>) -> (r: bool)
    ensures
        r == accepts(addr@, opt_view(start), opt_view(end)),
{
    match start {
        Some(p) => {
            if !starts_with(addr, p) {
                return false;
            }
        },
        None => {},
    }
    match end {
        Some(p) => {
            if !ends_with(addr, p) {
                return false;
            }
        },
        None => {},
    }
    true
}

/// The pattern, lower-cased where `ignore_case` holds.
fn fold_pattern(p: &Option<String>, ignore_case: bool) -> (r: Option<String>)
    ensures
        match r {
            Some(t) => p is Some && ignore_case && t@ == folded(p->0@, ignore_case),
            None => !(p is Some && ignore_case),
        },
{
    match p {
        Some(s) => {
            if ignore_case {
                Some(to_lower(s.as_str()))
            } else {
                None
            }
        },
        None => None,
    }
}

/// The folded pattern if one was made, else the pattern as it stands.
fn pick<'a>(made: &'a Option<String>, given: &'a Option<String>) -> (r: Option<&'a str>)
    ensures
        opt_view(r) == (match made {
            Some(t) => Some(t@),
            None => match given {
                Some(s) => Some(s@),
                None => None::<Seq<char>>,
            },
        }),
{
    match made {
        Some(t) => Some(t.as_str()),
        None => match given {
            Some(s) => Some(s.as_str()),
            None => None,
        },
    }
}

impl GrindArgs {
    /// The address, stripped of one leading `0x` and case-folded when
    /// `ignore_case` holds, begins with `starts_with` and ends with
    /// `ends_with` (each folded the same way), where those are present.
    pub open spec fn matches_spec(&self, addr: Seq<char>) -> bool {
        accepts(
            folded(strip_hex_prefix(addr), self.ignore_case),
            folded_pattern(self.starts_with, self.ignore_case),
            folded_pattern(self.ends_with, self.ignore_case),
        )
    }

    /// Both patterns are absent or valid hexadecimal.
    pub open spec fn valid(&self) -> bool {
        pattern_ok(self.starts_with) && pattern_ok(self.ends_with)
    }

    /// Checks that the text is valid hexadecimal (with or without `0x`).
    pub fn is_valid_hex(s: &str) -> (r: bool)
        ensures
            r == valid_hex(s@),
    {
        let t = strip_hex_prefix_of(s);
        let n = t.unicode_len();
        if n == 0 {
            return false;
        }
        let mut i: usize = 0;
        while i < n
            invariant
                t@ == strip_hex_prefix(s@),
                n == t@.len(),
                i <= n,
                forall|j: int| 0 <= j < i ==> is_hex_digit(#[trigger] t@[j]),
            decreases n - i,
        {
            if !hex_digit(t.get_char(i)) {
                return false;
            }
            i = i + 1;
        }
        true
    }

    /// Checks both patterns; the prefix is checked first.
    pub fn validate(&self) -> (r: Result<(), GrindArgError>)
        ensures
            r is Ok <==> self.valid(),
            r matches Err(GrindArgError::InvalidHexStringStartsWith) <==> !pattern_ok(
                self.starts_with,
            ),
            r matches Err(GrindArgError::InvalidHexStringEndsWith) <==> pattern_ok(
                self.starts_with,
            ) && !pattern_ok(self.ends_with),
            !(r matches Err(GrindArgError::InvalidSignatureScheme(_))),
    {
        match &self.starts_with {
            Some(s) => {
                if !Self::is_valid_hex(s.as_str()) {
                    return Err(GrindArgError::InvalidHexStringStartsWith);
                }
            },
            None => {},
        }
        match &self.ends_with {
            Some(s) => {
                if !Self::is_valid_hex(s.as_str()) {
                    return Err(GrindArgError::InvalidHexStringEndsWith);
                }
            },
            None => {},
        }
        Ok(())
    }

    /// Whether the address satisfies the patterns. The secret that goes with
    /// the address plays no part in the decision.
    pub fn is_matched(&self, addr: &String, _key: &String) -> (r: bool)
        ensures
            r == self.matches_spec(addr@),
    {
        let stripped = strip_hex_prefix_of(addr.as_str());
        let start_folded = fold_pattern(&self.starts_with, self.ignore_case);
        let end_folded = fold_pattern(&self.ends_with, self.ignore_case);
        let start = pick(&start_folded, &self.starts_with);
        let end = pick(&end_folded, &self.ends_with);
        if self.ignore_case {
            let lowered = to_lower(stripped);
            matches_folded(lowered.as_str(), start, end)
        } else {
            matches_folded(stripped, start, end)
        }
    }
}

impl Default for GrindArgs {
    fn default() -> (r: Self)
        ensures
            r.starts_with is None,
            r.ends_with is None,
            !r.ignore_case,
            !r.verbose,
            r.cores is None,
            r.scheme == SignatureScheme::ED25519,
    {
        GrindArgs {
            starts_with: None,
            ends_with: None,
            ignore_case: false,
            verbose: false,
            cores: None,
            scheme: SignatureScheme::ED25519,
        }
    }
}

impl SignatureSchemeArg for GrindArgs {
    fn try_from_arg(s: &str) -> (r: Result<SignatureScheme, GrindArgError>)
        ensures
            match scheme_named(s@) {
                Some(k) => r == Ok::<SignatureScheme, GrindArgError>(k),
                None => r matches Err(GrindArgError::InvalidSignatureScheme(name)) && name@ == s@,
            },
    {
        if same_text(s, "ed25519") {
            Ok(SignatureScheme::ED25519)
        } else if same_text(s, "secp256k1") {
            Ok(SignatureScheme::Secp256k1)
        } else if same_text(s, "secp256r1") {
            Ok(SignatureScheme::Secp256r1)
        } else {
            Err(GrindArgError::InvalidSignatureScheme(String::from_str(s)))
        }
    }
}

/// With neither pattern present, every address matches.
pub proof fn lemma_unconstrained_matches_all(args: GrindArgs, addr: Seq<char>)
    requires
        args.starts_with is None,
        args.ends_with is None,
    ensures
        args.matches_spec(addr),
{
}

} // verus!
