//! Session identifiers: a short random tag that the logs of one sharing
//! session carry.

use vstd::prelude::*;

use vstd::utf8::is_ascii_chars;

verus! {

/// A lower-case hexadecimal digit.
pub open spec fn is_lower_hex(c: char) -> bool {
    ('0' <= c <= '9') || ('a' <= c <= 'f')
}

/// The hyphenated lower-case form of a version-4 UUID, as its `Display`
/// writes it: 36 characters, hyphens at 8, 13, 18 and 23, lower-case hex
/// digits elsewhere, the version digit `4` at 14 and the variant digit
/// (one of `8`, `9`, `a`, `b`) at 19.
pub open spec fn is_v4_uuid_text(t: Seq<char>) -> bool {
    &&& t.len() == 36
    &&& forall|i: int|
        0 <= i < 36 ==> if i == 8 || i == 13 || i == 18 || i == 23 {
            #[trigger] t[i] == '-'
        } else {
            is_lower_hex(t[i])
        }
    &&& t[14] == '4'
    &&& (t[19] == '8' || t[19] == '9' || t[19] == 'a' || t[19] == 'b')
}

/// Trusted: `uuid::Uuid::new_v4` written with `to_string`. The UUID is
/// random, so only its textual form is stated: the hyphenated lower-case
/// layout that `uuid`'s `Display` (its `LowerHex` of the hyphenated form)
/// writes, with the version and variant digits `new_v4` sets.
#[verifier::external_body]
fn uuid_v4_text() -> (t: String)
    ensures
        is_v4_uuid_text(t@),
{
    uuid::Uuid::new_v4().to_string()
}

/// Identifier of one sharing session: `sess_` and eight characters.
#[derive(Debug, Clone)]
pub struct SessionId {
    id: String,
}

impl View for SessionId {
    type V = Seq<char>;

    closed spec fn view(&self) -> Seq<char> {
        self.id@
    }
}

impl SessionId {
    /// The identifier made from a text of at least eight ASCII characters:
    /// `sess_` followed by its last eight.
    pub fn from_text(text: &str) -> (s: Self)
        requires
            is_ascii_chars(text@),
            text@.len() >= 8,
        ensures
            s@ == "sess_"@ + text@.subrange(text@.len() - 8, text@.len() as int),
    {
        let n = text.unicode_len();
        let tail = text.substring_ascii(n - 8, n);
        let mut id = String::from_str("sess_");
        id.append(tail);
        SessionId { id }
    }

    /// A fresh identifier: `sess_` and the last eight hex digits of a random
    /// version-4 UUID.
    pub fn new() -> (s: Self)
        ensures
            s@.len() == 13,
            s@.subrange(0, 5) == "sess_"@,
            forall|i: int| 5 <= i < 13 ==> is_lower_hex(#[trigger] s@[i]),
    {
        let t = uuid_v4_text();
        assert(is_ascii_chars(t@)) by {
            assert forall|i: int| 0 <= i < t@.len() implies '\0' <= #[trigger] t@[i] <= '\u{7f}' by {
                if !(i == 8 || i == 13 || i == 18 || i == 23) {
                    assert(is_lower_hex(t@[i]));
                }
            }
        }
        let s = SessionId::from_text(t.as_str());
        proof {
            reveal_strlit("sess_");
            assert forall|i: int| 5 <= i < 13 implies is_lower_hex(#[trigger] s@[i]) by {
                assert(s@[i] == t@[28 + i - 5]);
                assert(is_lower_hex(t@[28 + i - 5]));
            }
            assert(s@.subrange(0, 5) =~= "sess_"@);
        }
        s
    }

    /// The identifier's text.
    pub fn as_str(&self) -> (r: &str)
        ensures
            r@ == self@,
    {
        self.id.as_str()
    }

    /// The identifier's text, as `Display` writes it.
    pub fn to_string(&self) -> (r: String)
        ensures
            r@ == self@,
    {
        self.id.clone()
    }
}

} // verus!
