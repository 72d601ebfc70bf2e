//! The scalar codecs of the replay documents: the lenient boolean and the closed
//! integer enumerations.
use vstd::prelude::*;
use vstd::string::StrSliceExecFns;

verus! {

/// A JSON scalar as it stands where a boolean is expected leniently.
#[derive(Debug)]
pub enum WireScalar {
    Null,
    Bool(bool),
    /// A whole number that fits `i64`.
    Int(i64),
    /// A whole number above `i64::MAX`.
    UInt(u64),
    /// A number with a fractional part or an exponent.
    Fractional,
    Text(String),
    /// An array or an object.
    Compound,
}

/// Whether `c` is an ASCII decimal digit.
pub open spec fn is_digit(c: char) -> bool {
    '0' <= c && c <= '9'
}

/// The digits of an integer text: what follows an optional leading sign.
pub open spec fn unsigned_part(s: Seq<char>) -> Seq<char> {
    if s.len() > 0 && (s[0] == '-' || s[0] == '+') {
        s.drop_first()
    } else {
        s
    }
}

/// Whether `s` spells a whole number: an optional sign, then one or more digits.
pub open spec fn is_integer_text(s: Seq<char>) -> bool {
    let d = unsigned_part(s);
    d.len() > 0 && forall|i: int| 0 <= i < d.len() ==> is_digit(#[trigger] d[i])
}

/// Whether the whole number that `s` spells is zero.
pub open spec fn integer_text_is_zero(s: Seq<char>) -> bool {
    let d = unsigned_part(s);
    forall|i: int| 0 <= i < d.len() ==> #[trigger] d[i] == '0'
}

/// The boolean that a scalar stands for, where any is accepted: a boolean as it is; a
/// whole number or a text spelling one, true unless zero; the texts `true` and `false`.
pub open spec fn lenient_bool(w: WireScalar) -> Option<bool> {
    match w {
        WireScalar::Bool(b) => Some(b),
        WireScalar::Int(i) => Some(i != 0),
        WireScalar::UInt(u) => Some(u != 0),
        WireScalar::Text(s) => if s@ == seq!['t', 'r', 'u', 'e'] {
            Some(true)
        } else if s@ == seq!['f', 'a', 'l', 's', 'e'] {
            Some(false)
        } else if is_integer_text(s@) {
            Some(!integer_text_is_zero(s@))
        } else {
            None
        },
        _ => None,
    }
}

fn text_is(s: &str, word: &str) -> (r: bool)
    ensures
        r == (s@ == word@),
{
    let n = s.unicode_len();
    if n != word.unicode_len() {
        return false;
    }
    let mut i: usize = 0;
    while i < n
        invariant
            n == s@.len(),
            n == word@.len(),
            i <= n,
            forall|k: int| 0 <= k < i ==> s@[k] == word@[k],
        decreases n - i,
    {
        if s.get_char(i) != word.get_char(i) {
            return false;
        }
        i = i + 1;
    }
    assert(s@ =~= word@);
    true
}

/// Reads a whole-number text: `None` where `s` spells no whole number, else whether
/// the number is zero.
fn integer_text_zero(s: &str) -> (r: Option<bool>)
    ensures
        r == (if is_integer_text(s@) {
            Some(integer_text_is_zero(s@))
        } else {
            None
        }),
{
    let n = s.unicode_len();
    let mut start: usize = 0;
    if n > 0 {
        let c = s.get_char(0);
        if c == '-' || c == '+' {
            start = 1;
        }
    }
    let ghost d = unsigned_part(s@);
    assert(d =~= s@.subrange(start as int, n as int));
    if start == n {
        return None;
    }
    let mut zero = true;
    let mut i: usize = start;
    while i < n
        invariant
            start <= i <= n,
            n == s@.len(),
            d == s@.subrange(start as int, n as int),
            d == unsigned_part(s@),
            forall|k: int| start <= k < i ==> is_digit(#[trigger] s@[k]),
            zero == (forall|k: int| start <= k < i ==> #[trigger] s@[k] == '0'),
        decreases n - i,
    {
        let c = s.get_char(i);
        if !('0' <= c && c <= '9') {
            assert(!is_digit(d[i - start]));
            return None;
        }
        if c != '0' {
            zero = false;
        }
        i = i + 1;
    }
    assert forall|k: int| 0 <= k < d.len() implies is_digit(#[trigger] d[k]) by {
        assert(d[k] == s@[k + start]);
    }
    if zero {
        assert forall|k: int| 0 <= k < d.len() implies #[trigger] d[k] == '0' by {
            assert(d[k] == s@[k + start]);
        }
    } else {
        let ghost w = choose|k: int| start <= k < n && #[trigger] s@[k] != '0';
        assert(d[w - start] != '0');
    }
    Some(zero)
}

/// Decodes a boolean that may arrive as a boolean, a whole number or a text.
pub fn bool_from_anything(w: &WireScalar) -> (r: Option<bool>)
    ensures
        r == lenient_bool(*w),
{
    match w {
        WireScalar::Bool(b) => Some(*b),
        WireScalar::Int(i) => Some(*i != 0),
        WireScalar::UInt(u) => Some(*u != 0),
        WireScalar::Text(s) => {
            proof {
                reveal_strlit("true");
                reveal_strlit("false");
            }
            assert("true"@ == seq!['t', 'r', 'u', 'e']);
            assert("false"@ == seq!['f', 'a', 'l', 's', 'e']);
            if text_is(s.as_str(), "true") {
                Some(true)
            } else if text_is(s.as_str(), "false") {
                Some(false)
            } else {
                match integer_text_zero(s.as_str()) {
                    Some(z) => Some(!z),
                    None => None,
                }
            }
        },
        _ => None,
    }
}

} // verus!
