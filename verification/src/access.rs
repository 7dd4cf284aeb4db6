//! Access control of the MCP endpoint over HTTP: when a shared token is
//! configured, every request must carry it as `Authorization: Bearer
//! <token>`; the comparison runs in constant time.

use vstd::prelude::*;

use subtle::ConstantTimeEq;

use crate::text::{chars_of, starts_with_exec, string_of};

verus! {

broadcast use vstd::utf8::encode_utf8_decode_utf8;

/// Whether two byte strings differ, compared in constant time
/// (`subtle::ConstantTimeEq::ct_ne` on slices).
/// Trusted: the result is `true` exactly when the slices differ (subtle
/// compares the lengths, then every byte).
#[verifier::external_body]
fn bytes_differ(a: &[u8], b: &[u8]) -> (r: bool)
    ensures
        r == (a@ != b@),
{
    bool::from(a.ct_ne(b))
}

/// Whether the two strings differ; the comparison of their bytes takes a
/// time that does not depend on where they differ.
pub fn constant_time_ne(a: &str, b: &str) -> (r: bool)
    ensures
        r == (a@ != b@),
{
    let r = bytes_differ(a.as_bytes(), b.as_bytes());
    proof {
        if !r {
            assert(vstd::utf8::decode_utf8(vstd::utf8::encode_utf8(a@)) == a@);
            assert(vstd::utf8::decode_utf8(vstd::utf8::encode_utf8(b@)) == b@);
        }
    }
    r
}

/// The outcome of the token check of an MCP request.
#[derive(Debug, Clone, Copy, PartialEq, Eq)]
pub enum TokenCheck {
    /// The request carries the expected token.
    Accepted,
    /// No `Authorization: Bearer ...` header.
    MissingHeader,
    /// A bearer token that is not the expected one.
    InvalidToken,
}

/// The scheme prefix of a bearer `Authorization` value.
pub open spec fn bearer_prefix() -> Seq<char> {
    "Bearer "@
}

/// The outcome for an `Authorization` value (absent, or not valid text):
/// the text after `Bearer ` must be the expected token.
pub open spec fn token_check(authorization: Option<Seq<char>>, expected: Seq<char>) -> TokenCheck {
    match authorization {
        None => TokenCheck::MissingHeader,
        Some(h) => if bearer_prefix().is_prefix_of(h) {
            if h.skip(7) == expected {
                TokenCheck::Accepted
            } else {
                TokenCheck::InvalidToken
            }
        } else {
            TokenCheck::MissingHeader
        },
    }
}

/// Checks the `Authorization` value of a request against the expected
/// token.
pub fn check_bearer(authorization: Option<&str>, expected: &str) -> (r: TokenCheck)
    ensures
        r == token_check(
            match authorization {
                Some(h) => Some(h@),
                None => None,
            },
            expected@,
        ),
{
    proof { reveal_strlit("Bearer "); }
    match authorization {
        None => TokenCheck::MissingHeader,
        Some(h) => {
            let hv = chars_of(h);
            let prefix = chars_of("Bearer ");
            if !starts_with_exec(&hv, &prefix) {
                return TokenCheck::MissingHeader;
            }
            let mut rest: Vec<char> = Vec::new();
            let mut i: usize = 7;
            while i < hv.len()
                invariant
                    7 <= i <= hv@.len(),
                    rest@ == hv@.subrange(7, i as int),
                decreases hv@.len() - i,
            {
                rest.push(hv[i]);
                i = i + 1;
                assert(hv@.subrange(7, i as int) == hv@.subrange(7, i - 1).push(hv@[i - 1]));
            }
            assert(rest@ == h@.skip(7));
            let provided = string_of(rest.as_slice());
            if constant_time_ne(provided.as_str(), expected) {
                TokenCheck::InvalidToken
            } else {
                TokenCheck::Accepted
            }
        },
    }
}

/// Whether the MCP endpoint is protected: a non-empty token is configured.
pub fn token_auth_enabled(token: &str) -> (b: bool)
    ensures
        b == (token@.len() > 0),
{
    token.unicode_len() > 0
}

/// The token check accepts exactly one `Authorization` value: `Bearer `
/// followed by the expected token; every other value, and a missing one,
/// is refused.
pub proof fn law_only_the_exact_bearer_value_is_accepted(h: Seq<char>, expected: Seq<char>)
    ensures
        token_check(Some(h), expected) == TokenCheck::Accepted <==> h == bearer_prefix() + expected,
        token_check(None, expected) != TokenCheck::Accepted,
{
    reveal_strlit("Bearer ");
    if h == bearer_prefix() + expected {
        assert(bearer_prefix().is_prefix_of(h)) by {
            assert(h.subrange(0, 7) =~= bearer_prefix());
        }
        assert(h.skip(7) =~= expected);
    }
    if token_check(Some(h), expected) == TokenCheck::Accepted {
        assert(h =~= bearer_prefix() + h.skip(7)) by {
            assert(h.subrange(0, 7) =~= bearer_prefix());
        }
    }
}

} // verus!
