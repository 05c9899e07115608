//! Character-level helpers shared by every flag validator: decimal number
//! classification and separator-based splitting, specified over `Seq<char>`.
use vstd::prelude::*;

verus! {

/// Outcome of reading a flag value as a decimal integer.
#[derive(PartialEq, Eq, Structural, Clone, Copy, Debug)]
pub enum NumParse {
    /// The string is a non-empty run of digits whose value fits in `u64`.
    Value(u64),
    /// A `-` followed by a non-empty run of digits: a negative number.
    Negative,
    /// A non-empty run of digits whose value exceeds `u64`.
    TooLarge,
    /// Anything else.
    NotANumber,
}

pub open spec fn is_digit(c: char) -> bool {
    '0' <= c && c <= '9'
}

pub open spec fn digit_val(c: char) -> nat {
    (c as int - '0' as int) as nat
}

pub open spec fn all_digits(s: Seq<char>) -> bool {
    forall|i: int| 0 <= i < s.len() ==> is_digit(#[trigger] s[i])
}

/// The value of a digit string, most significant digit first.
pub open spec fn dec_value(s: Seq<char>) -> nat
    decreases s.len(),
{
    if s.len() == 0 {
        0
    } else {
        dec_value(s.drop_last()) * 10 + digit_val(s.last())
    }
}

/// How a raw flag value reads as a decimal integer.
pub open spec fn classify_decimal(s: Seq<char>) -> NumParse {
    if s.len() > 0 && all_digits(s) {
        if dec_value(s) <= u64::MAX {
            NumParse::Value(dec_value(s) as u64)
        } else {
            NumParse::TooLarge
        }
    } else if s.len() >= 2 && s[0] == '-' && all_digits(s.skip(1)) {
        NumParse::Negative
    } else {
        NumParse::NotANumber
    }
}

proof fn lemma_dec_value_push(s: Seq<char>, c: char)
    ensures
        dec_value(s.push(c)) == dec_value(s) * 10 + digit_val(c),
{
    assert(s.push(c).drop_last() =~= s);
    assert(s.push(c).last() == c);
}

/// Read a flag value as a decimal integer.
pub fn parse_decimal(s: &str) -> (r: NumParse)
    ensures
        r == classify_decimal(s@),
{
    if !s.is_ascii() {
        proof {
            if s@.len() > 0 && all_digits(s@) {
                assert(vstd::utf8::is_ascii_chars(s@)) by {
                    assert(forall|i: int|
                        0 <= i < s@.len() ==> '\0' <= #[trigger] s@[i] <= '\u{7f}');
                };
            }
            if s@.len() >= 2 && s@[0] == '-' && all_digits(s@.skip(1)) {
                assert forall|i: int| 0 <= i < s@.len() implies
                    '\0' <= #[trigger] s@[i] <= '\u{7f}' by {
                    if i >= 1 {
                        assert(s@[i] == s@.skip(1)[i - 1]);
                        assert(is_digit(s@.skip(1)[i - 1]));
                    }
                }
                assert(vstd::utf8::is_ascii_chars(s@));
            }
        }
        return NumParse::NotANumber;
    }
    let n: usize = s.unicode_len();
    if n == 0 {
        return NumParse::NotANumber;
    }
    let first: u8 = s.get_ascii(0);
    if first == 45 {
        // a possible negative number: every later character must be a digit
        if n == 1 {
            return NumParse::NotANumber;
        }
        let mut i: usize = 1;
        while i < n
            invariant
                1 <= i <= n,
                n == s@.len(),
                s.is_ascii(),
                s@[0] == '-',
                forall|j: int| 1 <= j < i ==> is_digit(#[trigger] s@[j]),
            decreases n - i,
        {
            let b: u8 = s.get_ascii(i);
            if b < 48 || b > 57 {
                proof {
                    assert(!is_digit(s@[i as int]));
                    assert(!all_digits(s@));
                    assert(s@.skip(1)[i - 1] == s@[i as int]);
                    assert(!all_digits(s@.skip(1)));
                }
                return NumParse::NotANumber;
            }
            i += 1;
        }
        proof {
            assert(!is_digit('-'));
            assert(!all_digits(s@));
            assert(forall|j: int|
                0 <= j < s@.skip(1).len() ==> #[trigger] s@.skip(1)[j] == s@[j + 1]);
            assert(all_digits(s@.skip(1)));
        }
        return NumParse::Negative;
    }
    proof {
        vstd::utf8::is_ascii_chars_nat_bound(s@);
        assert(s@[0] != '-');
    }
    let mut i: usize = 0;
    let mut acc: u64 = 0;
    let mut too_large = false;
    while i < n
        invariant
            0 <= i <= n,
            n == s@.len(),
            s.is_ascii(),
            s@[0] != '-',
            forall|j: int| 0 <= j < i ==> is_digit(#[trigger] s@[j]),
            !too_large ==> acc as nat == dec_value(s@.subrange(0, i as int))
                && dec_value(s@.subrange(0, i as int)) <= u64::MAX,
            too_large ==> dec_value(s@.subrange(0, i as int)) > u64::MAX,
        decreases n - i,
    {
        let b: u8 = s.get_ascii(i);
        if b < 48 || b > 57 {
            proof {
                assert(!is_digit(s@[i as int]));
                assert(!all_digits(s@));
            }
            return NumParse::NotANumber;
        }
        let d: u64 = (b - 48) as u64;
        proof {
            let pre = s@.subrange(0, i as int);
            assert(s@.subrange(0, i + 1) =~= pre.push(s@[i as int]));
            lemma_dec_value_push(pre, s@[i as int]);
            assert(digit_val(s@[i as int]) == d as nat);
        }
        if !too_large {
            let wide: u128 = (acc as u128) * 10 + (d as u128);
            if wide > u64::MAX as u128 {
                too_large = true;
            } else {
                acc = wide as u64;
            }
        }
        i += 1;
    }
    proof {
        assert(s@.subrange(0, n as int) =~= s@);
        assert(all_digits(s@));
    }
    if too_large {
        NumParse::TooLarge
    } else {
        NumParse::Value(acc)
    }
}

/// Split a character sequence at every occurrence of `sep`. The result always
/// holds one more part than there are separators; parts may be empty.
pub open spec fn split_by(s: Seq<char>, sep: char) -> Seq<Seq<char>>
    decreases s.len(),
{
    if s.len() == 0 {
        seq![Seq::empty()]
    } else {
        let r = split_by(s.drop_last(), sep);
        if s.last() == sep {
            r.push(Seq::empty())
        } else {
            r.update(r.len() - 1, r.last().push(s.last()))
        }
    }
}

pub proof fn lemma_split_by_len(s: Seq<char>, sep: char)
    ensures
        split_by(s, sep).len() >= 1,
    decreases s.len(),
{
    if s.len() > 0 {
        lemma_split_by_len(s.drop_last(), sep);
    }
}

/// Split an ASCII string at every occurrence of the ASCII character `sep`.
pub fn split_str(s: &str, sep: u8) -> (r: Vec<String>)
    requires
        s.is_ascii(),
        sep < 128,
    ensures
        r.deep_view() == split_by(s@, sep as char),
        forall|i: int| 0 <= i < r.len() ==> vstd::utf8::is_ascii_chars(#[trigger] r[i]@),
{
    let n: usize = s.unicode_len();
    let mut out: Vec<String> = Vec::new();
    let mut start: usize = 0;
    let mut i: usize = 0;
    proof {
        vstd::utf8::is_ascii_chars_nat_bound(s@);
        assert(s@.subrange(0, 0) =~= Seq::<char>::empty());
        assert(out.deep_view().push(s@.subrange(0, 0))
            =~~= split_by(s@.subrange(0, 0), sep as char));
    }
    while i < n
        invariant
            0 <= start <= i <= n,
            n == s@.len(),
            s.is_ascii(),
            sep < 128,
            forall|j: int| 0 <= j < s@.len() ==> #[trigger] s@[j] <= '\u{7f}',
            out.deep_view().push(s@.subrange(start as int, i as int))
                == split_by(s@.subrange(0, i as int), sep as char),
            forall|k: int| 0 <= k < out.len() ==> vstd::utf8::is_ascii_chars(#[trigger] out[k]@),
        decreases n - i,
    {
        let b: u8 = s.get_ascii(i);
        proof {
            let pre = s@.subrange(0, i as int);
            let c = s@[i as int];
            assert(s@.subrange(0, i + 1) =~= pre.push(c));
            assert(pre.push(c).drop_last() =~= pre);
            lemma_split_by_len(pre, sep as char);
            // an ASCII character is determined by its byte
            assert(c <= '\u{7f}');
            assert((c as u8 == sep) == (c == sep as char));
        }
        if b == sep {
            let part = s.substring_ascii(start, i);
            out.push(part.to_owned());
            start = i + 1;
            proof {
                assert(out.deep_view().push(s@.subrange(start as int, i + 1))
                    =~~= split_by(s@.subrange(0, i + 1), sep as char));
            }
        } else {
            proof {
                let pre = s@.subrange(0, i as int);
                let r0 = split_by(pre, sep as char);
                assert(r0.last() == s@.subrange(start as int, i as int));
                assert(s@.subrange(start as int, i as int).push(s@[i as int])
                    =~= s@.subrange(start as int, i + 1));
                assert(out.deep_view().push(s@.subrange(start as int, i + 1))
                    =~~= split_by(s@.subrange(0, i + 1), sep as char));
            }
        }
        i += 1;
    }
    let last = s.substring_ascii(start, n);
    out.push(last.to_owned());
    proof {
        assert(s@.subrange(0, n as int) =~= s@);
        assert(out.deep_view() =~~= split_by(s@, sep as char));
    }
    out
}

} // verus!
