use vstd::prelude::*;
use vstd::string::StrSliceExecFns;

verus! {

/// The number of characters in an Ethereum address written as `0x` and 40 hex digits.
pub const ETH_ADDRESS_LEN: usize = 42;

pub open spec fn is_hex_digit(c: char) -> bool {
    ('0' <= c && c <= '9') || ('a' <= c && c <= 'f') || ('A' <= c && c <= 'F')
}

/// A well-formed Ethereum address: `0x` followed by exactly 40 hexadecimal digits.
pub open spec fn is_eth_address(s: Seq<char>) -> bool {
    &&& s.len() == ETH_ADDRESS_LEN
    &&& s[0] == '0'
    &&& s[1] == 'x'
    &&& forall|i: int| 2 <= i < s.len() ==> is_hex_digit(#[trigger] s[i])
}

fn hex_digit(c: char) -> (r: bool)
    ensures
        r == is_hex_digit(c),
{
    ('0' <= c && c <= '9') || ('a' <= c && c <= 'f') || ('A' <= c && c <= 'F')
}

/// Tells whether `s` is a well-formed Ethereum address.
pub fn valid_eth_address(s: &str) -> (r: bool)
    ensures
        r == is_eth_address(s@),
{
    if s.unicode_len() != ETH_ADDRESS_LEN {
        return false;
    }
    if s.get_char(0) != '0' || s.get_char(1) != 'x' {
        return false;
    }
    let mut i: usize = 2;
    while i < ETH_ADDRESS_LEN
        invariant
            2 <= i <= ETH_ADDRESS_LEN,
            s@.len() == ETH_ADDRESS_LEN,
            forall|j: int| 2 <= j < i ==> is_hex_digit(#[trigger] s@[j]),
        decreases ETH_ADDRESS_LEN - i,
    {
        if !hex_digit(s.get_char(i)) {
            return false;
        }
        i = i + 1;
    }
    true
}

} // verus!
