//! Fresh identities. A new identity is random; nothing about it is promised
//! beyond its textual form.
use vstd::prelude::*;

verus! {

/// A lowercase hexadecimal digit.
pub open spec fn lower_hex(c: char) -> bool {
    ('0' <= c && c <= '9') || ('a' <= c && c <= 'f')
}

/// The hyphenated text of a version-4 UUID: 36 characters, hyphens at 8,
/// 13, 18 and 23, lowercase hexadecimal digits elsewhere, the version digit
/// `4` at 14 and a variant digit of `8`, `9`, `a` or `b` at 19.
pub open spec fn hyphenated_v4(s: Seq<char>) -> bool {
    &&& s.len() == 36
    &&& forall|i: int| 0 <= i < 36 ==> if i == 8 || i == 13 || i == 18 || i == 23 {
        #[trigger] s[i] == '-'
    } else {
        lower_hex(s[i])
    }
    &&& s[14] == '4'
    &&& (s[19] == '8' || s[19] == '9' || s[19] == 'a' || s[19] == 'b')
}

/// A fresh random identity: `uuid::Uuid::new_v4()` in its hyphenated text
/// form (its `Display`, lowercase). Which identity comes out is chance; only
/// its form is stated.
#[verifier::external_body]
pub fn fresh_id() -> (r: String)
    ensures
        r@.len() == 36,
        hyphenated_v4(r@),
{
    uuid::Uuid::new_v4().to_string()
}

} // verus!
