//! Recognition of dotted-decimal IPv4 addresses and of absolute paths.
use vstd::prelude::*;
use crate::text::{split_chars, split_on, string_views};

verus! {

/// A decimal digit.
pub open spec fn is_digit(c: char) -> bool {
    '0' <= c && c <= '9'
}

/// The number that a string of decimal digits writes.
pub open spec fn digits_value(p: Seq<char>) -> nat
    decreases p.len(),
{
    if p.len() == 0 {
        0
    } else {
        digits_value(p.drop_last()) * 10 + ((p.last() as u32) - ('0' as u32)) as nat
    }
}

/// One to three decimal digits, no leading zero but in "0", at most 255.
pub open spec fn is_octet(p: Seq<char>) -> bool {
    &&& 1 <= p.len() <= 3
    &&& forall|i: int| 0 <= i < p.len() ==> is_digit(#[trigger] p[i])
    &&& p.len() > 1 ==> p[0] != '0'
    &&& digits_value(p) <= 255
}

/// Four octets separated by dots.
pub open spec fn is_ipv4(s: Seq<char>) -> bool {
    let parts = split_on(s, '.');
    &&& parts.len() == 4
    &&& forall|i: int| 0 <= i < 4 ==> is_octet(#[trigger] parts[i])
}

/// A path that begins at the root directory.
pub open spec fn is_absolute_path(s: Seq<char>) -> bool {
    s.len() > 0 && s[0] == '/'
}

/// Whether `p` is an octet of a dotted-decimal address.
fn is_octet_text(p: &str) -> (r: bool)
    ensures
        r == is_octet(p@),
{
    let n = p.unicode_len();
    if n < 1 || n > 3 {
        return false;
    }
    if n > 1 && p.get_char(0) == '0' {
        return false;
    }
    let mut value: u32 = 0;
    let mut i: usize = 0;
    while i < n
        invariant
            n == p@.len(),
            1 <= n <= 3,
            i <= n,
            forall|k: int| 0 <= k < i ==> is_digit(#[trigger] p@[k]),
            value as nat == digits_value(p@.take(i as int)),
            value < 1000,
            i == 0 ==> value == 0,
            i == 1 ==> value < 10,
            i == 2 ==> value < 100,
        decreases n - i,
    {
        let c = p.get_char(i);
        if !('0' <= c && c <= '9') {
            return false;
        }
        proof {
            assert(p@.take(i + 1).drop_last() =~= p@.take(i as int));
        }
        value = value * 10 + (c as u32 - '0' as u32);
        i = i + 1;
    }
    assert(p@.take(n as int) =~= p@);
    value <= 255
}

/// Whether `s` is a dotted-decimal IPv4 address such as "192.168.0.1".
pub fn is_ipv4_text(s: &str) -> (r: bool)
    ensures
        r == is_ipv4(s@),
{
    let parts = split_chars(s, '.');
    if parts.len() != 4 {
        return false;
    }
    let mut i: usize = 0;
    while i < 4
        invariant
            parts@.len() == 4,
            string_views(parts@) == split_on(s@, '.'),
            i <= 4,
            forall|k: int| 0 <= k < i ==> is_octet(#[trigger] split_on(s@, '.')[k]),
        decreases 4 - i,
    {
        assert(string_views(parts@)[i as int] == parts@[i as int]@);
        if !is_octet_text(parts[i].as_str()) {
            return false;
        }
        i = i + 1;
    }
    true
}

/// Whether `path` is absolute: it begins at the root directory.
pub fn is_absolute(path: &str) -> (r: bool)
    ensures
        r == is_absolute_path(path@),
{
    path.unicode_len() > 0 && path.get_char(0) == '/'
}

} // verus!
