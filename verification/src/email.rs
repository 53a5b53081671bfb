//! Normalisation and validation of account e-mail addresses.

use crate::error::AuthError;
use crate::text::{
    chars_of, is_white_space, is_white_space_char, skip_white_space, skip_white_space_back, trim,
    trimmed,
};
use vstd::prelude::*;
use vstd::utf8::*;

verus! {

/// The longest accepted e-mail address, in UTF-8 bytes.
pub const MAX_EMAIL_LENGTH: usize = 254;

/// What `str::to_lowercase` returns for the text `s` (Unicode lowercase mapping).
pub uninterp spec fn unicode_lowercase(s: Seq<char>) -> Seq<char>;

/// `str::to_lowercase`. Claimed: the result's characters are
/// `unicode_lowercase` of the argument's.
#[verifier::external_body]
fn to_lowercase(s: &str) -> (r: String)
    ensures
        r@ == unicode_lowercase(s@),
{
    s.to_lowercase()
}

/// The candidate address: trimmed, then lowercased.
pub open spec fn normalized_email(raw: Seq<char>) -> Seq<char> {
    unicode_lowercase(trimmed(raw))
}

/// `e` has exactly one `@`, with a non-empty part on each side.
pub open spec fn has_single_separator(e: Seq<char>) -> bool {
    exists|i: int|
        0 < i < e.len() - 1 && e[i] == '@' && (forall|k: int|
            0 <= k < e.len() && k != i ==> e[k] != '@')
}

/// The rules a normalised address must meet.
pub open spec fn is_acceptable_email(e: Seq<char>) -> bool {
    &&& encode_utf8(e).len() <= MAX_EMAIL_LENGTH
    &&& has_single_separator(e)
    &&& forall|k: int| 0 <= k < e.len() ==> !is_white_space(#[trigger] e[k])
}

/// Normalises an e-mail address: trims surrounding white space and lowercases
/// it, then accepts it only when it has one `@` with text on both sides, no
/// white space, and at most `MAX_EMAIL_LENGTH` bytes.
pub fn normalize_email(email: &str) -> (r: Result<String, AuthError>)
    ensures
        r is Ok <==> is_acceptable_email(normalized_email(email@)),
        r matches Ok(e) ==> e@ == normalized_email(email@),
        r matches Err(err) ==> err == AuthError::BadRequest,
{
    let lowered = to_lowercase(trim(email));
    let cs = chars_of(lowered.as_str());
    let ghost e = lowered@;
    let n = cs.len();
    let mut at_count: usize = 0;
    let mut first_at: usize = n;
    let mut has_space = false;
    let mut i: usize = 0;
    while i < n
        invariant
            n == e.len(),
            cs@ == e,
            i <= n,
            at_count <= i,
            at_count == 0 ==> first_at == n,
            at_count > 0 ==> first_at < i && e[first_at as int] == '@',
            forall|k: int| 0 <= k < i && k < first_at ==> e[k] != '@',
            at_count == 1 ==> forall|k: int| 0 <= k < i && k != first_at ==> e[k] != '@',
            at_count > 1 ==> exists|k: int| 0 <= k < i && k != first_at && e[k] == '@',
            has_space == exists|k: int| 0 <= k < i && is_white_space(#[trigger] e[k]),
        decreases n - i,
    {
        let c = cs[i];
        if c == '@' {
            if at_count == 0 {
                first_at = i;
            }
            if at_count < 2 {
                at_count = at_count + 1;
            }
        }
        if is_white_space_char(c) {
            has_space = true;
        }
        i = i + 1;
    }
    let too_long = lowered.as_str().as_bytes().len() > MAX_EMAIL_LENGTH;
    if at_count != 1 || first_at == 0 || first_at + 1 == n || too_long || has_space {
        proof {
            if has_single_separator(e) {
                let j = choose|j: int|
                    0 < j < e.len() - 1 && e[j] == '@' && (forall|k: int|
                        0 <= k < e.len() && k != j ==> e[k] != '@');
                assert(e[j] == '@');
            }
        }
        return Err(AuthError::BadRequest);
    }
    proof {
        assert(e[first_at as int] == '@');
    }
    Ok(lowered)
}

/// An accepted address has no white space at its ends, so trimming it again
/// leaves it unchanged: normalising it again only lowercases it again.
pub proof fn law_accepted_email_is_trimmed(e: Seq<char>)
    requires
        is_acceptable_email(e),
    ensures
        trimmed(e) == e,
        normalized_email(e) == unicode_lowercase(e),
{
    let j = choose|j: int|
        0 < j < e.len() - 1 && e[j] == '@' && (forall|k: int| 0 <= k < e.len() && k != j ==> e[k] != '@');
    assert(!is_white_space(e[0]));
    assert(!is_white_space(e[e.len() - 1]));
    assert(skip_white_space(e, 0) == 0);
    assert(skip_white_space_back(e, 0, e.len() as int) == e.len());
    assert(e.subrange(0, e.len() as int) =~= e);
}

/// What an address must be to be accepted, and nothing more: at most
/// `MAX_EMAIL_LENGTH` bytes, exactly one `@` with at least one character on
/// each side, and no white space; every other character is allowed.
pub proof fn law_email_acceptance_rules(e: Seq<char>)
    ensures
        is_acceptable_email(e) <==> {
            &&& encode_utf8(e).len() <= 254
            &&& exists|i: int|
                0 < i < e.len() - 1 && e[i] == '@' && (forall|k: int|
                    0 <= k < e.len() && e[k] == '@' ==> k == i)
            &&& forall|k: int| 0 <= k < e.len() ==> !is_white_space(#[trigger] e[k])
        },
{
    if has_single_separator(e) {
        let i = choose|i: int|
            0 < i < e.len() - 1 && e[i] == '@' && (forall|k: int|
                0 <= k < e.len() && k != i ==> e[k] != '@');
        assert(forall|k: int| 0 <= k < e.len() && e[k] == '@' ==> k == i);
    }
    if exists|i: int|
        0 < i < e.len() - 1 && e[i] == '@' && (forall|k: int|
            0 <= k < e.len() && e[k] == '@' ==> k == i) {
        let i = choose|i: int|
            0 < i < e.len() - 1 && e[i] == '@' && (forall|k: int|
                0 <= k < e.len() && e[k] == '@' ==> k == i);
        assert(forall|k: int| 0 <= k < e.len() && k != i ==> e[k] != '@');
    }
}

/// Acceptance reads only the length in bytes, where the `@` signs stand and
/// where white space stands: two addresses that agree on these are both
/// accepted or both refused, whatever their other characters (`+`, `.`,
/// `-`, letters, digits, ...).
pub proof fn law_email_other_characters_irrelevant(a: Seq<char>, b: Seq<char>)
    requires
        a.len() == b.len(),
        encode_utf8(a).len() == encode_utf8(b).len(),
        forall|k: int| 0 <= k < a.len() ==> (a[k] == '@') == (b[k] == '@'),
        forall|k: int| 0 <= k < a.len() ==> is_white_space(a[k]) == is_white_space(b[k]),
    ensures
        is_acceptable_email(a) == is_acceptable_email(b),
{
    if has_single_separator(a) {
        let i = choose|i: int|
            0 < i < a.len() - 1 && a[i] == '@' && (forall|k: int|
                0 <= k < a.len() && k != i ==> a[k] != '@');
        assert(b[i] == '@');
        assert(forall|k: int| 0 <= k < b.len() && k != i ==> b[k] != '@');
    }
    if has_single_separator(b) {
        let i = choose|i: int|
            0 < i < b.len() - 1 && b[i] == '@' && (forall|k: int|
                0 <= k < b.len() && k != i ==> b[k] != '@');
        assert(a[i] == '@');
        assert(forall|k: int| 0 <= k < a.len() && k != i ==> a[k] != '@');
    }
    if forall|k: int| 0 <= k < a.len() ==> !is_white_space(#[trigger] a[k]) {
        assert forall|k: int| 0 <= k < b.len() implies !is_white_space(#[trigger] b[k]) by {
            assert(!is_white_space(a[k]));
        }
    }
    if forall|k: int| 0 <= k < b.len() ==> !is_white_space(#[trigger] b[k]) {
        assert forall|k: int| 0 <= k < a.len() implies !is_white_space(#[trigger] a[k]) by {
            assert(!is_white_space(b[k]));
        }
    }
}

/// Normalising trims and then lowercases: the candidate address is the
/// lowercase form of the trimmed input, and it is accepted exactly by the
/// rules above.
pub proof fn law_normalized_is_lowercased_trim(raw: Seq<char>)
    ensures
        normalized_email(raw) == unicode_lowercase(trimmed(raw)),
{
}

} // verus!
