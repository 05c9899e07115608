//! Shapes a target string may take, one predicate per shape, and executable
//! checkers proved against them. All accepted shapes are ASCII.
use vstd::prelude::*;
use crate::text::{
    all_digits, dec_value, is_digit, parse_decimal, split_by, split_str, NumParse,
};
use vstd::utf8::is_ascii_chars;

verus! {

/// A decimal port number between 1 and 65535, at most five digits.
pub open spec fn valid_port(p: Seq<char>) -> bool {
    1 <= p.len() <= 5 && all_digits(p) && 1 <= dec_value(p) <= 65535
}

/// A dotted-quad octet: up to three digits, value at most 255, no leading zero.
pub open spec fn valid_octet(p: Seq<char>) -> bool {
    1 <= p.len() <= 3 && all_digits(p) && dec_value(p) <= 255 && (p.len() == 1 || p[0] != '0')
}

/// Four valid octets separated by dots.
pub open spec fn is_ipv4(s: Seq<char>) -> bool {
    let parts = split_by(s, '.');
    parts.len() == 4 && forall|i: int| 0 <= i < parts.len() ==> valid_octet(#[trigger] parts[i])
}

pub open spec fn valid_label_char(c: char) -> bool {
    is_digit(c) || ('a' <= c && c <= 'z') || ('A' <= c && c <= 'Z') || c == '-'
}

/// A DNS label: 1 to 63 letters, digits or hyphens, no hyphen at either end.
pub open spec fn valid_label(l: Seq<char>) -> bool {
    1 <= l.len() <= 63
        && (forall|i: int| 0 <= i < l.len() ==> valid_label_char(#[trigger] l[i]))
        && l[0] != '-' && l[l.len() - 1] != '-'
}

/// A hostname: at most 253 characters, every dot-separated label valid.
pub open spec fn valid_hostname(s: Seq<char>) -> bool {
    let labels = split_by(s, '.');
    1 <= s.len() <= 253
        && forall|i: int| 0 <= i < labels.len() ==> valid_label(#[trigger] labels[i])
}

/// A single host: an IPv4 address or a hostname.
pub open spec fn valid_host(s: Seq<char>) -> bool {
    is_ipv4(s) || valid_hostname(s)
}

/// A routing prefix length between 0 and 32, one or two digits.
pub open spec fn valid_prefix_len(p: Seq<char>) -> bool {
    1 <= p.len() <= 2 && all_digits(p) && dec_value(p) <= 32
}

/// An IPv4 network in CIDR notation.
pub open spec fn valid_cidr(s: Seq<char>) -> bool {
    let parts = split_by(s, '/');
    parts.len() == 2 && is_ipv4(parts[0]) && valid_prefix_len(parts[1])
}

/// An inclusive port range `low-high`.
pub open spec fn valid_port_range(p: Seq<char>) -> bool {
    let parts = split_by(p, '-');
    parts.len() == 2 && valid_port(parts[0]) && valid_port(parts[1])
        && dec_value(parts[0]) <= dec_value(parts[1])
}

/// A comma-separated list of ports (a single port is a list of one).
pub open spec fn valid_port_list(p: Seq<char>) -> bool {
    let parts = split_by(p, ',');
    forall|i: int| 0 <= i < parts.len() ==> valid_port(#[trigger] parts[i])
}

/// A comma-separated list of hosts (a single host is a list of one).
pub open spec fn valid_host_list(s: Seq<char>) -> bool {
    let parts = split_by(s, ',');
    forall|i: int| 0 <= i < parts.len() ==> valid_host(#[trigger] parts[i])
}

/// A path to a list file, recognized by its `.txt` suffix over a non-empty stem.
pub open spec fn is_list_file_path(s: Seq<char>) -> bool {
    s.len() >= 5 && s[s.len() - 4] == '.' && s[s.len() - 3] == 't' && s[s.len() - 2] == 'x'
        && s[s.len() - 1] == 't'
}

/// A port-scan target: `host`, `host:low-high` or `host:p1,p2,...`.
pub open spec fn valid_port_target(s: Seq<char>) -> bool {
    let parts = split_by(s, ':');
    (parts.len() == 1 && valid_host(parts[0])) || (parts.len() == 2 && valid_host(parts[0])
        && (valid_port_range(parts[1]) || valid_port_list(parts[1])))
}

/// A host-scan target: a list file, a CIDR network, or hosts separated by commas.
pub open spec fn valid_hostscan_target(s: Seq<char>) -> bool {
    is_list_file_path(s) || valid_cidr(s) || valid_host_list(s)
}

/// A sub-domain scan target: a hostname of at least two labels.
pub open spec fn valid_domain(s: Seq<char>) -> bool {
    valid_hostname(s) && split_by(s, '.').len() >= 2
}

pub fn check_port(p: &str) -> (r: bool)
    requires
        p.is_ascii(),
    ensures
        r == valid_port(p@),
{
    let n = p.unicode_len();
    match parse_decimal(p) {
        NumParse::Value(v) => n <= 5 && 1 <= v && v <= 65535,
        _ => false,
    }
}

pub fn check_octet(p: &str) -> (r: bool)
    requires
        p.is_ascii(),
    ensures
        r == valid_octet(p@),
{
    let n = p.unicode_len();
    match parse_decimal(p) {
        NumParse::Value(v) => n <= 3 && v <= 255 && (n == 1 || p.get_ascii(0) != 48),
        _ => false,
    }
}

pub fn check_ipv4(s: &str) -> (r: bool)
    requires
        s.is_ascii(),
    ensures
        r == is_ipv4(s@),
{
    let parts = split_str(s, 46);
    if parts.len() != 4 {
        return false;
    }
    let mut i: usize = 0;
    while i < 4
        invariant
            0 <= i <= 4,
            parts.deep_view() == split_by(s@, '.'),
            parts.len() == 4,
            forall|k: int| 0 <= k < parts.len() ==> is_ascii_chars(#[trigger] parts[k]@),
            forall|j: int| 0 <= j < i ==> valid_octet(#[trigger] split_by(s@, '.')[j]),
        decreases 4 - i,
    {
        if !check_octet(parts[i].as_str()) {
            proof {
                assert(parts.deep_view()[i as int] == parts@[i as int]@);
                assert(!valid_octet(split_by(s@, '.')[i as int]));
            }
            return false;
        }
        i += 1;
    }
    true
}

pub fn check_label(l: &str) -> (r: bool)
    requires
        l.is_ascii(),
    ensures
        r == valid_label(l@),
{
    let n = l.unicode_len();
    if n < 1 || n > 63 {
        return false;
    }
    proof {
        vstd::utf8::is_ascii_chars_nat_bound(l@);
    }
    if l.get_ascii(0) == 45 || l.get_ascii(n - 1) == 45 {
        return false;
    }
    let mut i: usize = 0;
    while i < n
        invariant
            0 <= i <= n,
            n == l@.len(),
            l.is_ascii(),
            forall|j: int| 0 <= j < l@.len() ==> #[trigger] l@[j] <= '\u{7f}',
            forall|j: int| 0 <= j < i ==> valid_label_char(#[trigger] l@[j]),
            l@[0] != '-',
            l@[l@.len() - 1] != '-',
        decreases n - i,
    {
        let b = l.get_ascii(i);
        let ok = (48 <= b && b <= 57) || (97 <= b && b <= 122) || (65 <= b && b <= 90)
            || b == 45;
        if !ok {
            proof {
                assert(!valid_label_char(l@[i as int]));
            }
            return false;
        }
        i += 1;
    }
    true
}

pub fn check_hostname(s: &str) -> (r: bool)
    requires
        s.is_ascii(),
    ensures
        r == valid_hostname(s@),
{
    let n = s.unicode_len();
    if n < 1 || n > 253 {
        return false;
    }
    let labels = split_str(s, 46);
    let m = labels.len();
    let mut i: usize = 0;
    while i < m
        invariant
            0 <= i <= m,
            labels.deep_view() == split_by(s@, '.'),
            m == labels.len(),
            forall|k: int| 0 <= k < labels.len() ==> is_ascii_chars(#[trigger] labels[k]@),
            forall|j: int| 0 <= j < i ==> valid_label(#[trigger] split_by(s@, '.')[j]),
        decreases m - i,
    {
        if !check_label(labels[i].as_str()) {
            proof {
                assert(labels.deep_view()[i as int] == labels@[i as int]@);
                assert(!valid_label(split_by(s@, '.')[i as int]));
            }
            return false;
        }
        i += 1;
    }
    true
}

pub fn check_host(s: &str) -> (r: bool)
    requires
        s.is_ascii(),
    ensures
        r == valid_host(s@),
{
    if check_ipv4(s) {
        true
    } else {
        check_hostname(s)
    }
}

pub fn check_cidr(s: &str) -> (r: bool)
    requires
        s.is_ascii(),
    ensures
        r == valid_cidr(s@),
{
    let parts = split_str(s, 47);
    if parts.len() != 2 {
        return false;
    }
    if !check_ipv4(parts[0].as_str()) {
        return false;
    }
    let p = parts[1].as_str();
    let n = p.unicode_len();
    match parse_decimal(p) {
        NumParse::Value(v) => n <= 2 && v <= 32,
        _ => false,
    }
}

pub fn check_port_range(p: &str) -> (r: bool)
    requires
        p.is_ascii(),
    ensures
        r == valid_port_range(p@),
{
    let parts = split_str(p, 45);
    if parts.len() != 2 {
        return false;
    }
    let lo = parts[0].as_str();
    let hi = parts[1].as_str();
    if !check_port(lo) || !check_port(hi) {
        return false;
    }
    match (parse_decimal(lo), parse_decimal(hi)) {
        (NumParse::Value(a), NumParse::Value(b)) => a <= b,
        _ => false,
    }
}

pub fn check_port_list(p: &str) -> (r: bool)
    requires
        p.is_ascii(),
    ensures
        r == valid_port_list(p@),
{
    let parts = split_str(p, 44);
    let m = parts.len();
    let mut i: usize = 0;
    while i < m
        invariant
            0 <= i <= m,
            parts.deep_view() == split_by(p@, ','),
            m == parts.len(),
            forall|k: int| 0 <= k < parts.len() ==> is_ascii_chars(#[trigger] parts[k]@),
            forall|j: int| 0 <= j < i ==> valid_port(#[trigger] split_by(p@, ',')[j]),
        decreases m - i,
    {
        if !check_port(parts[i].as_str()) {
            proof {
                assert(parts.deep_view()[i as int] == parts@[i as int]@);
                assert(!valid_port(split_by(p@, ',')[i as int]));
            }
            return false;
        }
        i += 1;
    }
    true
}

pub fn check_host_list(s: &str) -> (r: bool)
    requires
        s.is_ascii(),
    ensures
        r == valid_host_list(s@),
{
    let parts = split_str(s, 44);
    let m = parts.len();
    let mut i: usize = 0;
    while i < m
        invariant
            0 <= i <= m,
            parts.deep_view() == split_by(s@, ','),
            m == parts.len(),
            forall|k: int| 0 <= k < parts.len() ==> is_ascii_chars(#[trigger] parts[k]@),
            forall|j: int| 0 <= j < i ==> valid_host(#[trigger] split_by(s@, ',')[j]),
        decreases m - i,
    {
        if !check_host(parts[i].as_str()) {
            proof {
                assert(parts.deep_view()[i as int] == parts@[i as int]@);
                assert(!valid_host(split_by(s@, ',')[i as int]));
            }
            return false;
        }
        i += 1;
    }
    true
}

pub fn check_list_file_path(s: &str) -> (r: bool)
    requires
        s.is_ascii(),
    ensures
        r == is_list_file_path(s@),
{
    let n = s.unicode_len();
    if n < 5 {
        return false;
    }
    proof {
        vstd::utf8::is_ascii_chars_nat_bound(s@);
    }
    s.get_ascii(n - 4) == 46 && s.get_ascii(n - 3) == 116 && s.get_ascii(n - 2) == 120
        && s.get_ascii(n - 1) == 116
}

pub fn check_port_target(s: &str) -> (r: bool)
    requires
        s.is_ascii(),
    ensures
        r == valid_port_target(s@),
{
    let parts = split_str(s, 58);
    if parts.len() == 1 {
        check_host(parts[0].as_str())
    } else if parts.len() == 2 {
        if !check_host(parts[0].as_str()) {
            return false;
        }
        let spec_part = parts[1].as_str();
        check_port_range(spec_part) || check_port_list(spec_part)
    } else {
        false
    }
}

pub fn check_hostscan_target(s: &str) -> (r: bool)
    requires
        s.is_ascii(),
    ensures
        r == valid_hostscan_target(s@),
{
    if check_list_file_path(s) {
        true
    } else if check_cidr(s) {
        true
    } else {
        check_host_list(s)
    }
}

pub fn check_domain(s: &str) -> (r: bool)
    requires
        s.is_ascii(),
    ensures
        r == valid_domain(s@),
{
    if !check_hostname(s) {
        return false;
    }
    let labels = split_str(s, 46);
    labels.len() >= 2
}

} // verus!
