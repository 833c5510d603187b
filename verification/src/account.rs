use vstd::prelude::*;
use vstd::string::StrSliceExecFns;
use crate::errors::SaturnError;

verus! {

/// The character set of the human-readable address encoding: the
/// base-58 alphabet, which leaves out zero, capital o, capital i and
/// lowercase L.
pub open spec fn is_base58_char(c: char) -> bool {
    ('1' as int <= c as int <= '9' as int) || ('A' as int <= c as int <= 'Z' as int && c != 'I'
        && c != 'O') || ('a' as int <= c as int <= 'z' as int && c != 'l')
}

pub open spec fn is_base58_seq(s: Seq<char>) -> bool {
    forall|i: int| 0 <= i < s.len() ==> is_base58_char(#[trigger] s[i])
}

/// A character that can stand inside a JSON string without escaping.
pub open spec fn json_safe_char(c: char) -> bool {
    c != '"' && c != '\\' && c as int >= 0x20
}

pub open spec fn json_safe_seq(s: Seq<char>) -> bool {
    forall|i: int| 0 <= i < s.len() ==> json_safe_char(#[trigger] s[i])
}

/// Every base-58 character stands inside a JSON string as it is, so a
/// well-formed address never needs escaping in the signing payload.
pub proof fn lemma_base58_is_json_safe(s: Seq<char>)
    requires
        is_base58_seq(s),
    ensures
        json_safe_seq(s),
{
    assert forall|i: int| 0 <= i < s.len() implies json_safe_char(#[trigger] s[i]) by {
        assert(is_base58_char(s[i]));
    }
}

fn is_base58_char_exec(c: char) -> (b: bool)
    ensures
        b == is_base58_char(c),
{
    let u = c as u32;
    (49 <= u && u <= 57) || (65 <= u && u <= 90 && u != 73 && u != 79) || (97 <= u && u <= 122
        && u != 108)
}

/// Whether every character of the string belongs to the base-58 alphabet.
pub fn is_base58_str(s: &str) -> (b: bool)
    ensures
        b == is_base58_seq(s@),
{
    let len = s.unicode_len();
    let mut i: usize = 0;
    while i < len
        invariant
            len == s@.len(),
            i <= len,
            forall|j: int| 0 <= j < i ==> is_base58_char(#[trigger] s@[j]),
        decreases len - i,
    {
        if !is_base58_char_exec(s.get_char(i)) {
            return false;
        }
        i = i + 1;
    }
    true
}

/// Whether every character of the string can stand inside a JSON string
/// without escaping.
pub fn is_json_safe_str(s: &str) -> (b: bool)
    ensures
        b == json_safe_seq(s@),
{
    let len = s.unicode_len();
    let mut i: usize = 0;
    while i < len
        invariant
            len == s@.len(),
            i <= len,
            forall|j: int| 0 <= j < i ==> json_safe_char(#[trigger] s@[j]),
        decreases len - i,
    {
        let c = s.get_char(i);
        if c == '"' || c == '\\' || (c as u32) < 0x20 {
            return false;
        }
        i = i + 1;
    }
    true
}

/// The length of the public key an address must decode to.
pub const ACCOUNT_KEY_LEN: usize = 32;

/// An account identifier: the human-readable address together with the
/// fixed-length public key it decodes to.  The decoding itself (base-58
/// plus checksum) belongs to the surrounding transport layer; the library
/// holds both forms and checks their shape.
#[derive(Debug)]
pub struct AccountId {
    /// The human-readable address, as the signing payload displays it.
    pub display: String,
    /// The decoded public key.
    pub key: Vec<u8>,
}

impl AccountId {
    /// Shape invariant: the key has the chain's expected length and the
    /// display form uses only base-58 characters.
    pub open spec fn wf(self) -> bool {
        self.key@.len() == ACCOUNT_KEY_LEN && self.display@.len() > 0 && is_base58_seq(
            self.display@,
        )
    }

    /// Accepts an address exactly when its display form is non-empty
    /// base-58 text and its decoded key has the expected length; anything
    /// else is an address parse failure.
    pub fn new(display: String, key: Vec<u8>) -> (r: Result<AccountId, SaturnError>)
        ensures
            (r is Ok) == (key@.len() == ACCOUNT_KEY_LEN && display@.len() > 0 && is_base58_seq(
                display@,
            )),
            r is Ok ==> (r->Ok_0).display == display && (r->Ok_0).key == key && (r->Ok_0).wf()
                && json_safe_seq(display@),
            r is Err ==> r->Err_0 == SaturnError::AddressParse,
    {
        if key.len() != ACCOUNT_KEY_LEN {
            return Err(SaturnError::AddressParse);
        }
        if display.as_str().unicode_len() == 0 {
            return Err(SaturnError::AddressParse);
        }
        if !is_base58_str(display.as_str()) {
            return Err(SaturnError::AddressParse);
        }
        proof {
            lemma_base58_is_json_safe(display@);
        }
        Ok(AccountId { display, key })
    }
}

} // verus!
