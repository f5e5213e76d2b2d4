use vstd::prelude::*;

verus! {

/// A byte that may only stand between two alphanumeric runs of an account id.
pub open spec fn is_account_separator(c: char) -> bool {
    c == '-' || c == '_' || c == '.'
}

/// A byte that may appear anywhere in an account id.
pub open spec fn is_account_char(c: char) -> bool {
    ('a' <= c && c <= 'z') || ('0' <= c && c <= '9') || is_account_separator(c)
}

/// A well-formed account id: 2 to 64 characters of `[a-z0-9._-]`, neither
/// starting nor ending with a separator, and with no two separators in a row.
pub open spec fn valid_account_id(s: Seq<char>) -> bool {
    &&& 2 <= s.len() <= 64
    &&& forall|i: int| 0 <= i < s.len() ==> #[trigger] is_account_char(s[i])
    &&& !is_account_separator(s[0])
    &&& !is_account_separator(s[s.len() - 1])
    &&& forall|i: int|
        0 <= i < s.len() - 1 ==> !(#[trigger] is_account_separator(s[i]) && is_account_separator(
            s[i + 1],
        ))
}

/// Relies on `near_sdk::env::is_valid_account_id`, which checks the bytes of the
/// id against exactly the rule of `valid_account_id` (a non-ASCII character
/// fails the character test whatever its byte length).
#[verifier::external_body]
pub(crate) fn is_valid_account_id(account_id: &String) -> (r: bool)
    ensures
        r == valid_account_id(account_id@),
{
    near_sdk::env::is_valid_account_id(account_id.as_bytes())
}

} // verus!
