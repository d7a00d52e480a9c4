//! Small text helpers of the exporters.
use vstd::prelude::*;
use vstd::string::StringSliceAdditionalSpecFns;
use vstd::utf8::is_char_boundary;

verus! {

/// A byte with ASCII upper case letters turned into lower case.
pub open spec fn ascii_lower(b: u8) -> u8 {
    if 65 <= b <= 90 { (b + 32) as u8 } else { b }
}

/// Byte `i` of the prefix `::ffff:` that marks an IPv4-mapped IPv6 address.
pub open spec fn mapped_prefix_byte(i: int) -> u8 {
    if i == 0 || i == 1 || i == 6 { 58u8 } else { 102u8 }
}

/// The length of `::ffff:`.
pub const MAPPED_PREFIX_LEN: usize = 7;

/// The address starts with `::ffff:` (in any letter case) and has more after it.
pub open spec fn has_mapped_prefix(b: Seq<u8>) -> bool {
    &&& b.len() > MAPPED_PREFIX_LEN
    &&& forall|i: int| 0 <= i < MAPPED_PREFIX_LEN ==> #[trigger] ascii_lower(b[i]) == mapped_prefix_byte(i)
}

/// The address text with the IPv4-mapped prefix taken off, if it has one.
pub open spec fn stripped_ip(b: Seq<u8>) -> Seq<u8> {
    if has_mapped_prefix(b) { b.subrange(MAPPED_PREFIX_LEN as int, b.len() as int) } else { b }
}

/// The inputs on which the prefix comparison can look at the first seven bytes: those
/// that do not start with `:`, are short, or have a character boundary after byte seven.
pub open spec fn ip_prefix_sliceable(b: Seq<u8>) -> bool {
    (b.len() > MAPPED_PREFIX_LEN && b[0] == 58u8) ==> is_char_boundary(b, MAPPED_PREFIX_LEN as int)
}

fn lower_ascii(b: u8) -> (r: u8)
    ensures
        r == ascii_lower(b),
{
    if 65 <= b && b <= 90 { b + 32 } else { b }
}

fn prefix_byte(i: usize) -> (r: u8)
    ensures
        r == mapped_prefix_byte(i as int),
{
    if i == 0 || i == 1 || i == 6 { 58 } else { 102 }
}

/// Removes the IPv4-mapped IPv6 prefix (`::ffff:192.168.1.1` gives `192.168.1.1`),
/// comparing the prefix without regard to ASCII letter case.
pub fn strip_ip_prefix<'a>(ip: &'a str) -> (r: &'a str)
    requires
        ip_prefix_sliceable(ip.spec_bytes()),
    ensures
        r.spec_bytes() == stripped_ip(ip.spec_bytes()),
{
    let b = ip.as_bytes();
    if b.len() == 0 || b[0] != 58 {
        proof {
            if b@.len() > 0 {
                assert(ascii_lower(b@[0]) != mapped_prefix_byte(0));
            }
        }
        return ip;
    }
    if b.len() <= MAPPED_PREFIX_LEN {
        return ip;
    }
    let mut i: usize = 0;
    while i < MAPPED_PREFIX_LEN
        invariant
            b@ == ip.spec_bytes(),
            b@.len() > MAPPED_PREFIX_LEN,
            i <= MAPPED_PREFIX_LEN,
            forall|j: int| 0 <= j < i ==> #[trigger] ascii_lower(b@[j]) == mapped_prefix_byte(j),
        decreases MAPPED_PREFIX_LEN - i,
    {
        if lower_ascii(b[i]) != prefix_byte(i) {
            assert(ascii_lower(b@[i as int]) != mapped_prefix_byte(i as int));
            return ip;
        }
        i = i + 1;
    }
    let (_head, rest) = ip.split_at(MAPPED_PREFIX_LEN);
    rest
}

} // verus!
