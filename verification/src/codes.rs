//! Lobby code format and blank-value checks.
//!
//! A lobby code is 4 to 12 ASCII letters or digits, normalized to upper case
//! before every comparison and before storage. The code is handled as its
//! UTF-8 bytes: for a well-formed code those are exactly its ASCII characters,
//! and anything outside ASCII fails the format check byte by byte.
//!
//! A selection or song value is rejected as blank when it trims to nothing;
//! whitespace here is the Unicode White_Space set, the same set `str::trim`
//! removes.

use vstd::prelude::*;
use vstd::string::StrSliceExecFns;
use vstd::string::StringSliceAdditionalSpecFns;

use crate::errors::LobbyError;

verus! {

/// An ASCII letter or digit: the only bytes a lobby code may hold.
pub open spec fn is_code_byte(b: u8) -> bool {
    (48 <= b && b <= 57) || (65 <= b && b <= 90) || (97 <= b && b <= 122)
}

/// Upper-cases one ASCII byte; everything but a lower-case letter is kept.
pub open spec fn upper_byte(b: u8) -> u8 {
    if 97 <= b && b <= 122 {
        (b - 32) as u8
    } else {
        b
    }
}

/// The canonical (upper-case) form of a code's bytes.
pub open spec fn norm_bytes(s: Seq<u8>) -> Seq<u8> {
    s.map_values(|b: u8| upper_byte(b))
}

/// The code format rule: 4 to 12 bytes, each an ASCII letter or digit.
pub open spec fn valid_code_bytes(s: Seq<u8>) -> bool {
    &&& 4 <= s.len() && s.len() <= 12
    &&& forall|i: int| 0 <= i < s.len() ==> is_code_byte(#[trigger] s[i])
}

/// Normalization is idempotent: a canonical code normalizes to itself.
pub proof fn lemma_norm_idempotent(s: Seq<u8>)
    ensures
        norm_bytes(norm_bytes(s)) == norm_bytes(s),
{
    assert(norm_bytes(norm_bytes(s)) =~= norm_bytes(s));
}

/// Normalization never changes whether a code is well-formed.
pub proof fn lemma_norm_preserves_valid(s: Seq<u8>)
    ensures
        valid_code_bytes(norm_bytes(s)) == valid_code_bytes(s),
{
    assert(norm_bytes(s).len() == s.len());
    if valid_code_bytes(s) {
        assert forall|i: int| 0 <= i < norm_bytes(s).len() implies is_code_byte(
            #[trigger] norm_bytes(s)[i],
        ) by {
            assert(is_code_byte(s[i]));
        }
    }
    if valid_code_bytes(norm_bytes(s)) {
        assert forall|i: int| 0 <= i < s.len() implies is_code_byte(#[trigger] s[i]) by {
            assert(is_code_byte(norm_bytes(s)[i]));
        }
    }
}

/// Checks the code format rule on the raw code as supplied.
pub fn validate_code(code: &str) -> (r: Result<(), LobbyError>)
    ensures
        r is Ok <==> valid_code_bytes(code.spec_bytes()),
        r is Err ==> r == Err::<(), LobbyError>(LobbyError::InvalidCode),
{
    let bytes = code.as_bytes();
    let n = bytes.len();
    if n < 4 || n > 12 {
        return Err(LobbyError::InvalidCode);
    }
    let mut i: usize = 0;
    while i < n
        invariant
            n == bytes@.len(),
            bytes@ == code.spec_bytes(),
            i <= n,
            forall|j: int| 0 <= j < i ==> is_code_byte(#[trigger] bytes@[j]),
        decreases n - i,
    {
        let b = bytes[i];
        if !((48 <= b && b <= 57) || (65 <= b && b <= 90) || (97 <= b && b <= 122)) {
            return Err(LobbyError::InvalidCode);
        }
        i += 1;
    }
    Ok(())
}

/// Normalizes a code to canonical upper case, or rejects an ill-formed one.
pub fn normalize_code(code: &str) -> (r: Option<Vec<u8>>)
    ensures
        match r {
            Some(v) => valid_code_bytes(code.spec_bytes()) && v@ == norm_bytes(code.spec_bytes()),
            None => !valid_code_bytes(code.spec_bytes()),
        },
{
    match validate_code(code) {
        Err(_) => None,
        Ok(()) => {
            let bytes = code.as_bytes();
            let n = bytes.len();
            let mut out: Vec<u8> = Vec::new();
            let mut i: usize = 0;
            while i < n
                invariant
                    n == bytes@.len(),
                    bytes@ == code.spec_bytes(),
                    i <= n,
                    out@ == norm_bytes(code.spec_bytes()).take(i as int),
                decreases n - i,
            {
                let b = bytes[i];
                let up = if 97 <= b && b <= 122 {
                    b - 32
                } else {
                    b
                };
                out.push(up);
                assert(out@ =~= norm_bytes(code.spec_bytes()).take(i + 1 as int));
                i += 1;
            }
            assert(out@ =~= norm_bytes(code.spec_bytes()));
            Some(out)
        },
    }
}

/// Upper-cases a code's bytes without judging its format; lookups use this
/// so that comparisons are case-insensitive even for codes that could never
/// have been stored.
pub fn upper_bytes(code: &str) -> (r: Vec<u8>)
    ensures
        r@ == norm_bytes(code.spec_bytes()),
{
    let bytes = code.as_bytes();
    let n = bytes.len();
    let mut out: Vec<u8> = Vec::new();
    let mut i: usize = 0;
    while i < n
        invariant
            n == bytes@.len(),
            bytes@ == code.spec_bytes(),
            i <= n,
            out@ == norm_bytes(code.spec_bytes()).take(i as int),
        decreases n - i,
    {
        let b = bytes[i];
        let up = if 97 <= b && b <= 122 {
            b - 32
        } else {
            b
        };
        out.push(up);
        assert(out@ =~= norm_bytes(code.spec_bytes()).take(i + 1 as int));
        i += 1;
    }
    assert(out@ =~= norm_bytes(code.spec_bytes()));
    out
}

/// A whitespace character: the Unicode White_Space set, exactly what
/// `str::trim` removes — the ASCII whitespace (space, tab, line feed,
/// vertical tab, form feed, carriage return) together with next line,
/// no-break space, the Ogham space mark, the typographic spaces, the line
/// and paragraph separators, the narrow and mathematical spaces and the
/// ideographic space.
pub open spec fn is_space_char(c: char) -> bool {
    let u = c as u32;
    ||| u == 0x20
    ||| (0x09 <= u && u <= 0x0D)
    ||| u == 0x85
    ||| u == 0xA0
    ||| u == 0x1680
    ||| (0x2000 <= u && u <= 0x200A)
    ||| u == 0x2028
    ||| u == 0x2029
    ||| u == 0x202F
    ||| u == 0x205F
    ||| u == 0x3000
}

/// A value is blank when it is empty or holds nothing but whitespace.
pub open spec fn blank(s: Seq<char>) -> bool {
    forall|i: int| 0 <= i < s.len() ==> is_space_char(#[trigger] s[i])
}

/// Tests whether a selection or song value is blank.
pub fn is_blank(s: &str) -> (r: bool)
    ensures
        r == blank(s@),
{
    let n = s.unicode_len();
    let mut i: usize = 0;
    while i < n
        invariant
            n == s@.len(),
            i <= n,
            forall|j: int| 0 <= j < i ==> is_space_char(#[trigger] s@[j]),
        decreases n - i,
    {
        let c = s.get_char(i);
        let u = c as u32;
        let space = u == 0x20 || (0x09 <= u && u <= 0x0D) || u == 0x85 || u == 0xA0 || u == 0x1680
            || (0x2000 <= u && u <= 0x200A) || u == 0x2028 || u == 0x2029 || u == 0x202F
            || u == 0x205F || u == 0x3000;
        if !space {
            return false;
        }
        i += 1;
    }
    true
}

} // verus!
