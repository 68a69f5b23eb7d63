use vstd::prelude::*;
use vstd::string::*;

verus! {

/// The views of a list of borrowed strings.
pub open spec fn names_view(strings: Seq<&str>) -> Seq<Seq<char>> {
    strings.map_values(|t: &str| t@)
}

/// The first `n` list entries, each followed by a comma and a space.
pub open spec fn comma_join_prefix(strings: Seq<Seq<char>>, n: int) -> Seq<char>
    decreases n,
{
    if n <= 0 {
        Seq::empty()
    } else {
        comma_join_prefix(strings, n - 1) + strings[n - 1] + ", "@
    }
}

/// An English list: nothing, the word itself, "a and b", or
/// "a, b, ..., and z" with an Oxford comma.
pub open spec fn friendly_join_spec(strings: Seq<Seq<char>>) -> Seq<char> {
    if strings.len() == 0 {
        Seq::empty()
    } else if strings.len() == 1 {
        strings[0]
    } else if strings.len() == 2 {
        strings[0] + " and "@ + strings[1]
    } else {
        comma_join_prefix(strings, strings.len() - 1) + "and "@ + strings.last()
    }
}

/// Join words into an English list, as `friendly_join_spec` lays it out.
pub fn friendly_join(strings: Vec<&str>) -> (r: String)
    ensures
        r@ == friendly_join_spec(names_view(strings@)),
{
    if strings.len() == 0 {
        String::new()
    } else if strings.len() == 1 {
        strings[0].to_owned()
    } else if strings.len() == 2 {
        let mut out = strings[0].to_owned();
        out.append(" and ");
        out.append(strings[1]);
        out
    } else {
        let mut out = String::new();
        let mut i: usize = 0;
        while i < strings.len() - 1
            invariant
                strings.len() >= 3,
                i <= strings.len() - 1,
                out@ == comma_join_prefix(names_view(strings@), i as int),
            decreases strings.len() - 1 - i,
        {
            out.append(strings[i]);
            out.append(", ");
            i = i + 1;
        }
        out.append("and ");
        out.append(strings[strings.len() - 1]);
        out
    }
}

/// Whether two strings hold the same characters.
pub fn str_eq(a: &str, b: &str) -> (r: bool)
    ensures
        r == (a@ == b@),
{
    let la = a.unicode_len();
    let lb = b.unicode_len();
    if la != lb {
        proof {
            assert(a@ != b@) by {
                if a@ == b@ {
                    assert(a@.len() == b@.len());
                }
            }
        }
        return false;
    }
    let mut i: usize = 0;
    while i < la
        invariant
            i <= la,
            la == a@.len(),
            la == b@.len(),
            forall|j: int| 0 <= j < i ==> a@[j] == b@[j],
        decreases la - i,
    {
        if a.get_char(i) != b.get_char(i) {
            return false;
        }
        i = i + 1;
    }
    proof {
        assert(a@ =~= b@);
    }
    true
}

/// Whether `c` is one of the ten decimal digits.
pub open spec fn is_ascii_digit_char(c: char) -> bool {
    '0' <= c && c <= '9'
}

/// The numeric value of a digit.
pub open spec fn digit_value(c: char) -> int {
    c as int - '0' as int
}

/// Whether a string is digits throughout.
pub open spec fn all_ascii_digits(s: Seq<char>) -> bool {
    forall|i: int| 0 <= i < s.len() ==> is_ascii_digit_char(#[trigger] s[i])
}

/// The number a digit string denotes, most significant digit first.
pub open spec fn digits_value(s: Seq<char>) -> int
    decreases s.len(),
{
    if s.len() == 0 {
        0
    } else {
        digits_value(s.drop_last()) * 10 + digit_value(s.last())
    }
}

/// A digit string denotes a non-negative number.
pub proof fn lemma_digits_value_nonneg(s: Seq<char>)
    requires
        all_ascii_digits(s),
    ensures
        digits_value(s) >= 0,
    decreases s.len(),
{
    if s.len() > 0 {
        assert(all_ascii_digits(s.drop_last()));
        lemma_digits_value_nonneg(s.drop_last());
    }
}

/// Extending a digit string never shrinks its value.
pub proof fn lemma_digits_value_prefix(s: Seq<char>, k: int)
    requires
        all_ascii_digits(s),
        0 <= k <= s.len(),
    ensures
        digits_value(s) >= digits_value(s.take(k)),
    decreases s.len() - k,
{
    if k == s.len() {
        assert(s.take(k) =~= s);
    } else {
        assert(all_ascii_digits(s.take(k)));
        lemma_digits_value_nonneg(s.take(k));
        assert(s.take(k + 1).drop_last() =~= s.take(k));
        assert(s.take(k + 1).last() == s[k]);
        lemma_digits_value_prefix(s, k + 1);
    }
}

/// How many leading characters of `s` are a sign.
pub open spec fn parse_sign_len(s: Seq<char>) -> int {
    if s.len() > 0 && (s[0] == '-' || s[0] == '+') {
        1
    } else {
        0
    }
}

/// Whether `s` begins with a minus sign.
pub open spec fn parse_is_negative(s: Seq<char>) -> bool {
    s.len() > 0 && s[0] == '-'
}

/// What `str::parse::<i32>` accepts: an optional sign, then one or more
/// decimal digits, denoting a value that fits in an `i32`.
pub open spec fn parse_i32_spec(s: Seq<char>) -> Option<i32> {
    let mag = s.skip(parse_sign_len(s));
    if mag.len() == 0 || !all_ascii_digits(mag) {
        None
    } else {
        let v = if parse_is_negative(s) {
            -digits_value(mag)
        } else {
            digits_value(mag)
        };
        if i32::MIN <= v <= i32::MAX {
            Some(v as i32)
        } else {
            None
        }
    }
}

/// Read a (possibly signed) decimal integer, exactly as
/// `parse_i32_spec` defines it.
pub fn parse_i32(s: &str) -> (r: Option<i32>)
    ensures
        r == parse_i32_spec(s@),
{
    let len = s.unicode_len();
    if len == 0 {
        return None;
    }
    let first = s.get_char(0);
    let negative = first == '-';
    let start: usize = if negative || first == '+' {
        1
    } else {
        0
    };
    if len == start {
        return None;
    }
    let mut i: usize = start;
    let mut acc: i64 = 0;
    while i < len
        invariant
            start <= i <= len,
            len == s@.len(),
            start as int == parse_sign_len(s@),
            negative == parse_is_negative(s@),
            all_ascii_digits(s@.subrange(start as int, i as int)),
            acc == digits_value(s@.subrange(start as int, i as int)),
            0 <= acc <= 0x8000_0000i64,
        decreases len - i,
    {
        let c = s.get_char(i);
        if !('0' <= c && c <= '9') {
            proof {
                assert(s@.skip(start as int)[i - start] == s@[i as int]);
            }
            return None;
        }
        let d = (c as u32) - ('0' as u32);
        acc = acc * 10 + (d as i64);
        proof {
            let prev = s@.subrange(start as int, i as int);
            let cur = s@.subrange(start as int, i + 1);
            assert(cur.drop_last() =~= prev);
            assert(cur.last() == s@[i as int]);
        }
        if acc > 0x8000_0000i64 {
            proof {
                let mag = s@.skip(start as int);
                if all_ascii_digits(mag) {
                    lemma_digits_value_prefix(mag, i + 1 - start);
                    assert(mag.take(i + 1 - start) =~= s@.subrange(start as int, i + 1));
                }
            }
            return None;
        }
        i = i + 1;
    }
    proof {
        assert(s@.subrange(start as int, len as int) =~= s@.skip(start as int));
    }
    if negative {
        Some((-acc) as i32)
    } else if acc == 0x8000_0000i64 {
        None
    } else {
        Some(acc as i32)
    }
}

} // verus!
