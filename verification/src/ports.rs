//! Materializing a port set: from an inclusive range, from a comma list
//! embedded in the target, or from the lines of a list file.
use vstd::prelude::*;
use crate::opts::{FlagKind, ValidationError, ViolationReason};
use crate::target::valid_port;
use crate::text::{classify_decimal, dec_value, parse_decimal, split_by, NumParse};

verus! {

/// The ports of the inclusive range `lo..=hi`, in order.
pub open spec fn range_seq(lo: u16, hi: u16) -> Seq<u16> {
    Seq::new((hi - lo + 1) as nat, |i: int| (lo + i) as u16)
}

/// The ports named by a sequence of digit strings, in order.
pub open spec fn ports_of_parts(parts: Seq<Seq<char>>) -> Seq<u16> {
    Seq::new(parts.len(), |i: int| dec_value(parts[i]) as u16)
}

/// The ports named by file lines, in order.
pub open spec fn ports_of_lines(lines: Seq<String>) -> Seq<u16> {
    Seq::new(lines.len(), |i: int| dec_value(lines[i]@) as u16)
}

/// The first index whose line is not a valid port; the length when all are.
pub open spec fn first_bad_port_line(lines: Seq<String>) -> int
    decreases lines.len(),
{
    if lines.len() == 0 {
        0
    } else if !valid_port(lines[0]@) {
        0
    } else {
        1 + first_bad_port_line(lines.drop_first())
    }
}

pub proof fn lemma_first_bad_port_line(lines: Seq<String>, i: int)
    requires
        0 <= i <= lines.len(),
        forall|j: int| 0 <= j < i ==> valid_port(#[trigger] lines[j]@),
        i < lines.len() ==> !valid_port(lines[i]@),
    ensures
        first_bad_port_line(lines) == i,
    decreases lines.len(),
{
    if lines.len() > 0 {
        if i == 0 {
        } else {
            assert(valid_port(lines[0]@));
            let rest = lines.drop_first();
            assert(forall|j: int| 0 <= j < i - 1 ==> #[trigger] rest[j]@ == lines[j + 1]@);
            lemma_first_bad_port_line(rest, i - 1);
        }
    }
}

/// Why a digit string fails as a port: non-digits, or out of port range.
pub open spec fn port_text_reason(l: Seq<char>) -> ViolationReason {
    match classify_decimal(l) {
        NumParse::NotANumber => ViolationReason::NotANumber,
        _ => ViolationReason::OutOfRange,
    }
}

/// Check one piece of text as a port number.
pub fn parse_port_text(l: &str, flag: FlagKind) -> (r: Result<u16, ValidationError>)
    ensures
        r is Ok <==> valid_port(l@),
        r is Ok ==> r->Ok_0 as nat == dec_value(l@),
        r is Err ==> r->Err_0 == (ValidationError { flag, reason: port_text_reason(l@) }),
{
    let n = l.unicode_len();
    match parse_decimal(l) {
        NumParse::Value(v) => {
            if n <= 5 && 1 <= v && v <= 65535 {
                Ok(v as u16)
            } else {
                Err(ValidationError { flag, reason: ViolationReason::OutOfRange })
            }
        },
        NumParse::NotANumber => Err(ValidationError { flag, reason: ViolationReason::NotANumber }),
        _ => Err(ValidationError { flag, reason: ViolationReason::OutOfRange }),
    }
}

/// Expand an inclusive range into the ports it covers.
pub fn expand_range(lo: u16, hi: u16) -> (r: Vec<u16>)
    requires
        lo <= hi,
    ensures
        r@ == range_seq(lo, hi),
{
    let mut v: Vec<u16> = Vec::new();
    let mut p: u32 = lo as u32;
    while p <= hi as u32
        invariant
            lo <= hi,
            lo as u32 <= p <= hi as u32 + 1,
            v@.len() == p - lo,
            forall|i: int| 0 <= i < v@.len() ==> v@[i] == (lo + i) as u16,
        decreases hi as u32 + 1 - p,
    {
        v.push(p as u16);
        p += 1;
    }
    proof {
        assert(v@ =~= range_seq(lo, hi));
    }
    v
}

/// Read every line of a list file as a port number, rejecting at the first
/// bad line with its specific reason.
pub fn ports_from_lines(lines: &Vec<String>) -> (r: Result<Vec<u16>, ValidationError>)
    ensures
        r is Ok <==> forall|i: int| 0 <= i < lines@.len() ==> valid_port(#[trigger] lines@[i]@),
        r is Ok ==> r->Ok_0@ == ports_of_lines(lines@),
        r is Err ==> r->Err_0 == (ValidationError {
            flag: FlagKind::List,
            reason: port_text_reason(lines@[first_bad_port_line(lines@)]@),
        }),
{
    let n = lines.len();
    let mut v: Vec<u16> = Vec::new();
    let mut i: usize = 0;
    while i < n
        invariant
            0 <= i <= n,
            n == lines@.len(),
            v@.len() == i,
            forall|j: int| 0 <= j < i ==> valid_port(#[trigger] lines@[j]@),
            forall|j: int| 0 <= j < i ==> v@[j] as nat == dec_value(#[trigger] lines@[j]@),
        decreases n - i,
    {
        match parse_port_text(lines[i].as_str(), FlagKind::List) {
            Ok(p) => {
                v.push(p);
            },
            Err(e) => {
                proof {
                    lemma_first_bad_port_line(lines@, i as int);
                }
                return Err(e);
            },
        }
        i += 1;
    }
    proof {
        assert(v@ =~= ports_of_lines(lines@));
    }
    Ok(v)
}

/// Read every comma-separated piece of an embedded port list.
pub fn ports_from_list_text(parts: &Vec<String>, flag: FlagKind) -> (r: Result<
    Vec<u16>,
    ValidationError,
>)
    requires
        forall|i: int| 0 <= i < parts@.len() ==> valid_port(#[trigger] parts@[i]@),
    ensures
        r is Ok,
        r->Ok_0@ == ports_of_parts(parts.deep_view()),
{
    let n = parts.len();
    let mut v: Vec<u16> = Vec::new();
    let mut i: usize = 0;
    while i < n
        invariant
            0 <= i <= n,
            n == parts@.len(),
            v@.len() == i,
            forall|j: int| 0 <= j < parts@.len() ==> valid_port(#[trigger] parts@[j]@),
            forall|j: int| 0 <= j < i ==> v@[j] as nat == dec_value(#[trigger] parts@[j]@),
        decreases n - i,
    {
        match parse_port_text(parts[i].as_str(), flag) {
            Ok(p) => {
                v.push(p);
            },
            Err(e) => {
                proof {
                    assert(valid_port(parts@[i as int]@));
                    assert(false);
                }
                return Err(e);
            },
        }
        i += 1;
    }
    proof {
        assert(forall|j: int|
            0 <= j < parts@.len() ==> parts.deep_view()[j] == #[trigger] parts@[j]@);
        assert(v@ =~= ports_of_parts(parts.deep_view()));
    }
    Ok(v)
}

} // verus!
