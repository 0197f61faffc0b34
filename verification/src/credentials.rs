//! The outside calls that check mail addresses and sign and read session
//! tokens.

use vstd::prelude::*;

verus! {

/// What `validator::validate_email` answers for a text.
pub uninterp spec fn email_validity(mail: Seq<char>) -> bool;

/// The token that `jsonwebtoken::encode` makes, with the default header
/// (HS256), of the claims `{claim: value}` signed with the secret `key`.
pub uninterp spec fn jwt_signed(claim: Seq<char>, value: Seq<char>, key: Seq<char>) -> Seq<char>;

/// The string that the claim `claim` holds in `token`, as
/// `jsonwebtoken::decode` reads it with the secret `key` (HS256, expiry not
/// checked); `None` where decoding fails or the claim is not a string.
pub uninterp spec fn jwt_claim(token: Seq<char>, key: Seq<char>, claim: Seq<char>) -> Option<Seq<char>>;

/// The longest run of characters between the separators `.` and `@` that
/// may hold a non-ASCII character in a text handed to `validate_email`.
pub const IDNA_RUN_LIMIT: usize = 70;

/// Whether a character separates the parts of a mail address: `.` or `@`.
pub open spec fn is_separator(c: char) -> bool {
    c == '.' || c == '@'
}

/// Whether a character is outside ASCII.
pub open spec fn is_wide(c: char) -> bool {
    c as u32 >= 128
}

/// Whether no character from `i` to `j` (both included) is a separator.
pub open spec fn separator_free(text: Seq<char>, i: int, j: int) -> bool {
    forall|m: int| i <= m <= j ==> !is_separator(#[trigger] text[m])
}

/// A run of characters from `i` to `j` without separators, holding the
/// non-ASCII character at `k`, longer than `IDNA_RUN_LIMIT` characters.
pub open spec fn long_wide_run(text: Seq<char>, i: int, k: int, j: int) -> bool {
    &&& 0 <= i <= k <= j < text.len()
    &&& separator_free(text, i, j)
    &&& is_wide(text[k])
    &&& j - i >= IDNA_RUN_LIMIT
}

/// Whether a mail may be handed to `validate_email`: every run of
/// characters between `.` and `@` that holds a non-ASCII character is at
/// most `IDNA_RUN_LIMIT` characters long.
pub open spec fn fits_idna(mail: Seq<char>) -> bool {
    forall|i: int, k: int, j: int| !#[trigger] long_wide_run(mail, i, k, j)
}

/// Whether every run of characters between `.` and `@` that holds a
/// non-ASCII character is at most `IDNA_RUN_LIMIT` characters long.
pub fn fits_idna_check(mail: &str) -> (r: bool)
    ensures
        r == fits_idna(mail@),
{
    broadcast use vstd::string::group_string_axioms;
    let mut run: usize = 0;
    let mut wide = false;
    let ghost mut start: int = 0;
    let ghost mut wide_at: int = 0;
    for c in it: mail.chars()
        invariant
            it.seq() == mail@,
            0 <= start <= it.index@ <= mail@.len(),
            start > 0 ==> is_separator(mail@[start - 1]),
            separator_free(mail@, start, it.index@ - 1),
            run <= IDNA_RUN_LIMIT,
            run == it.index@ - start || (run == IDNA_RUN_LIMIT && it.index@ - start >= IDNA_RUN_LIMIT),
            wide ==> start <= wide_at < it.index@ && is_wide(mail@[wide_at]),
            !wide ==> forall|m: int| start <= m < it.index@ ==> !is_wide(#[trigger] mail@[m]),
            wide ==> it.index@ - start <= IDNA_RUN_LIMIT,
            forall|i: int, k: int, j: int| j < it.index@ ==> !#[trigger] long_wide_run(mail@, i, k, j),
    {
        let ghost p = it.index@;
        assert(c == mail@[p]);
        if c == '.' || c == '@' {
            run = 0;
            wide = false;
            proof {
                start = p + 1;
            }
            assert forall|i: int, k: int, j: int| j < p + 1 implies !#[trigger] long_wide_run(mail@, i, k, j) by {
                if j == p && long_wide_run(mail@, i, k, j) {
                    assert(!is_separator(mail@[j]));
                }
            }
        } else {
            if (c as u32) >= 128 {
                wide = true;
                proof {
                    wide_at = p;
                }
            }
            if wide && run >= IDNA_RUN_LIMIT {
                assert(long_wide_run(mail@, start, wide_at, p)) by {
                    assert forall|m: int| start <= m <= p implies !is_separator(#[trigger] mail@[m]) by {
                        if m < p {
                            assert(separator_free(mail@, start, p - 1));
                        }
                    }
                }
                assert(!fits_idna(mail@));
                return false;
            }
            assert forall|i: int, k: int, j: int| j < p + 1 implies !#[trigger] long_wide_run(mail@, i, k, j) by {
                if j == p && long_wide_run(mail@, i, k, j) {
                    if i < start {
                        assert(!is_separator(mail@[start - 1]));
                    }
                    if !wide {
                        assert(!is_wide(mail@[k]));
                    }
                }
            }
            if run < IDNA_RUN_LIMIT {
                run = run + 1;
            }
        }
    }
    true
}

/// Calls `validator::validate_email`.
///
/// Its answer is named by `email_validity`. Its source starts by answering
/// false for an empty text and for a text without `@`; that is stated too.
/// Which texts it accepts beyond that (a regular expression over the local
/// part, a domain or address literal, an IDNA conversion) is not stated.
///
/// For a domain with a non-ASCII character the call converts the domain by
/// IDNA (`idna::domain_to_ascii`). Its punycode encoder counts with a `u32`
/// and overflows, a panic where overflow is checked, on a label of about
/// 3,850 characters or more; the IDNA mapping (at most 18 characters for
/// one) and normalization (at most three times) make a label at most 54
/// times as long as the text it comes from. So the call is made only on
/// texts whose runs between `.` and `@` that hold non-ASCII characters are
/// at most `IDNA_RUN_LIMIT` characters long: every such label then stays
/// under 3,800 characters. An all-ASCII run stays ASCII under the mapping
/// and is never punycode-encoded.
#[verifier::external_body]
pub(crate) fn validate_email(mail: &str) -> (r: bool)
    requires
        fits_idna(mail@),
    ensures
        r == email_validity(mail@),
        r ==> mail@.contains('@'),
{
    validator::validate_email(mail)
}

/// Calls `jsonwebtoken::encode` on the claims `{claim: value}` with the
/// default header and the HMAC secret `key`.
///
/// The token is named by `jwt_signed`: encoding has no input but its
/// arguments (an HMAC signature over the base64 of the JSON header and
/// claims), so the same arguments give the same token. The source shows
/// that it does not fail here: the default header's algorithm (HS256) is of
/// the key's family, an HMAC key of any length is accepted, the header and a
/// map of strings always serialize, and HMAC signing does not fail.
#[verifier::external_body]
pub(crate) fn jwt_encode_claim(claim: &str, value: &str, key: &str) -> (r: Option<String>)
    ensures
        r is Some,
        jwt_signed(claim@, value@, key@) == r->0@,
{
    let claims = std::collections::BTreeMap::from([(claim, value)]);
    let secret = jsonwebtoken::EncodingKey::from_secret(key.as_bytes());
    jsonwebtoken::encode(&jsonwebtoken::Header::default(), &claims, &secret).ok()
}

/// Calls `jsonwebtoken::decode` on `token` with the HMAC secret `key`
/// (HS256 only, no claim required, expiry, not-before and audience not
/// checked) and reads the string in the claim `claim`.
///
/// The answer is named by `jwt_claim`. The source shows that decoding gives
/// back what encoding wrote: a token that `jsonwebtoken::encode` made of
/// `{claim: v}` with the same key passes the signature check, and its
/// claims read back as `v`. That is stated. What it answers for other
/// tokens is left to the name.
#[verifier::external_body]
pub(crate) fn jwt_decode_claim(token: &str, key: &str, claim: &str) -> (r: Option<String>)
    ensures
        match r {
            Some(v) => jwt_claim(token@, key@, claim@) == Some(v@),
            None => jwt_claim(token@, key@, claim@) is None,
        },
        forall|v: Seq<char>|
            #[trigger] jwt_signed(claim@, v, key@) == token@ ==> (r is Some && r->0@ == v),
{
    let mut validation = jsonwebtoken::Validation::new(jsonwebtoken::Algorithm::HS256);
    validation.required_spec_claims.clear();
    validation.validate_exp = false;
    validation.validate_aud = false;
    let secret = jsonwebtoken::DecodingKey::from_secret(key.as_bytes());
    let data = jsonwebtoken::decode::<std::collections::BTreeMap<String, serde_json::Value>>(token, &secret, &validation).ok()?;
    data.claims.get(claim).and_then(|v| v.as_str()).map(|s| s.to_string())
}

} // verus!
