//! Content hashes.

use vstd::prelude::*;
use crate::common::text::{from_chars, to_chars};

verus! {

/// A lower-case hexadecimal digit.
pub open spec fn is_hex_digit(c: char) -> bool {
    ('0' <= c && c <= '9') || ('a' <= c && c <= 'f')
}

/// The lower-case digit that `c` stands for, where `c` is a hexadecimal
/// digit of either case.
pub open spec fn hex_digit_of(c: char) -> Option<char> {
    if is_hex_digit(c) {
        Some(c)
    } else if c == 'A' {
        Some('a')
    } else if c == 'B' {
        Some('b')
    } else if c == 'C' {
        Some('c')
    } else if c == 'D' {
        Some('d')
    } else if c == 'E' {
        Some('e')
    } else if c == 'F' {
        Some('f')
    } else {
        None
    }
}

/// The text of a hash: at least one character, all of them lower-case
/// hexadecimal digits.  In particular it holds no `-`, no `.` and no path
/// separator.
pub open spec fn is_hash_text(s: Seq<char>) -> bool {
    &&& s.len() > 0
    &&& forall|i: int| 0 <= i < s.len() ==> is_hex_digit(#[trigger] s[i])
}

/// What a hash encoding decodes to: the same digits in lower case, if the
/// encoding is a non-empty run of hexadecimal digits, and nothing otherwise.
pub open spec fn decoded_hash(text: Seq<char>) -> Option<Seq<char>> {
    if text.len() > 0 && (forall|i: int| 0 <= i < text.len() ==> hex_digit_of(#[trigger] text[i]) is Some) {
        Some(Seq::new(text.len(), |i: int| hex_digit_of(text[i]).unwrap()))
    } else {
        None
    }
}

/// Content identity of an artifact.  Two hashes are the same when their
/// digits are; the digits are also the hash's string encoding.
#[derive(Debug, PartialEq, Eq, Hash)]
pub struct Hash {
    digits: Vec<char>,
}

impl View for Hash {
    type V = Seq<char>;

    closed spec fn view(&self) -> Seq<char> {
        self.digits@
    }
}

fn lower_hex(c: char) -> (r: Option<char>)
    ensures
        r == hex_digit_of(c),
{
    if ('0' <= c && c <= '9') || ('a' <= c && c <= 'f') {
        Some(c)
    } else if c == 'A' {
        Some('a')
    } else if c == 'B' {
        Some('b')
    } else if c == 'C' {
        Some('c')
    } else if c == 'D' {
        Some('d')
    } else if c == 'E' {
        Some('e')
    } else if c == 'F' {
        Some('f')
    } else {
        None
    }
}

impl Hash {
    #[verifier::type_invariant]
    spec fn well_formed(self) -> bool {
        is_hash_text(self.digits@)
    }

    /// Decodes a hash from its string encoding.  Upper-case digits are
    /// accepted and stored in lower case; anything but a non-empty run of
    /// hexadecimal digits is refused.
    pub fn parse(text: &str) -> (r: Option<Hash>)
        ensures
            r is Some <==> decoded_hash(text@) is Some,
            r matches Some(h) ==> Some(h@) == decoded_hash(text@) && is_hash_text(h@),
    {
        let chars = to_chars(text);
        let n: usize = chars.len();
        if n == 0 {
            return None;
        }
        let mut digits: Vec<char> = Vec::new();
        let mut i: usize = 0;
        while i < n
            invariant
                n == chars@.len(),
                chars@ == text@,
                i <= n,
                digits@.len() == i,
                forall|j: int| 0 <= j < i ==> hex_digit_of(#[trigger] chars@[j]) == Some(digits@[j]),
            decreases n - i,
        {
            match lower_hex(chars[i]) {
                Some(d) => digits.push(d),
                None => {
                    return None;
                },
            }
            i += 1;
        }
        assert(digits@ =~= decoded_hash(text@).unwrap());
        Some(Hash { digits })
    }

    /// The string encoding of the hash: its digits.
    pub fn to_string(&self) -> (s: String)
        ensures
            s@ == self@,
            is_hash_text(s@),
    {
        proof {
            use_type_invariant(self);
        }
        from_chars(&self.digits)
    }

    /// The digits of the hash, one character each.
    pub fn digits(&self) -> (d: &Vec<char>)
        ensures
            d@ == self@,
            is_hash_text(d@),
    {
        proof {
            use_type_invariant(self);
        }
        &self.digits
    }

    /// Whether two hashes name the same content.
    pub fn same_as(&self, other: &Hash) -> (r: bool)
        ensures
            r == (self@ == other@),
    {
        crate::common::text::same_chars(&self.digits, &other.digits)
    }

    /// A copy of the hash.
    pub fn duplicate(&self) -> (h: Hash)
        ensures
            h@ == self@,
    {
        proof {
            use_type_invariant(self);
        }
        let digits = crate::common::text::copy_chars(&self.digits);
        Hash { digits }
    }
}

} // verus!
