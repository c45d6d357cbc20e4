use vstd::prelude::*;
use crate::error::GititError;

verus! {

/// Length of the hexadecimal form of an object id.
pub const OID_HEX_LEN: usize = 40;

/// Length of the abbreviated id shown in listings.
pub const SHORT_ID_LEN: usize = 7;

pub open spec fn is_hex_digit(c: char) -> bool {
    ('0' <= c && c <= '9') || ('a' <= c && c <= 'f') || ('A' <= c && c <= 'F')
}

pub open spec fn is_lower_hex_digit(c: char) -> bool {
    ('0' <= c && c <= '9') || ('a' <= c && c <= 'f')
}

/// Text that names an object: exactly forty hexadecimal digits, in either case.
pub open spec fn is_hex_id(s: Seq<char>) -> bool {
    s.len() == OID_HEX_LEN && forall|i: int| 0 <= i < s.len() ==> is_hex_digit(#[trigger] s[i])
}

/// An object id in its canonical form: forty lowercase hexadecimal digits.
pub open spec fn is_object_id(s: Seq<char>) -> bool {
    s.len() == OID_HEX_LEN && forall|i: int| 0 <= i < s.len() ==> is_lower_hex_digit(#[trigger] s[i])
}

/// A hexadecimal digit in lowercase.
pub open spec fn lower_digit(c: char) -> char {
    if 'A' <= c && c <= 'F' {
        ((c as u32) + 32) as char
    } else {
        c
    }
}

/// Hexadecimal text with its digits in lowercase.
pub open spec fn lower_hex(s: Seq<char>) -> Seq<char> {
    s.map_values(|c: char| lower_digit(c))
}

/// The id of one object of a mirror, in its hexadecimal form.
#[derive(Debug)]
pub struct ObjectId {
    hex: String,
}

impl View for ObjectId {
    type V = Seq<char>;

    closed spec fn view(&self) -> Seq<char> {
        self.hex@
    }
}

impl ObjectId {
    #[verifier::type_invariant]
    closed spec fn well_formed(self) -> bool {
        is_object_id(self.hex@)
    }

    /// Accepts exactly the strings of forty hexadecimal digits, in either
    /// case; the id keeps them in lowercase.
    pub fn parse(s: &str) -> (r: Result<ObjectId, GititError>)
        ensures
            r is Ok <==> is_hex_id(s@),
            r matches Ok(id) ==> id@ == lower_hex(s@),
            r matches Err(e) ==> e is InvalidInput,
    {
        let n = s.unicode_len();
        if n != OID_HEX_LEN {
            return Err(GititError::InvalidInput);
        }
        let mut hex = String::new();
        let mut i: usize = 0;
        while i < n
            invariant
                n == s@.len(),
                n == OID_HEX_LEN,
                i <= n,
                forall|j: int| 0 <= j < i ==> is_hex_digit(#[trigger] s@[j]),
                hex@ == lower_hex(s@.subrange(0, i as int)),
            decreases n - i,
        {
            let c = s.get_char(i);
            if !(('0' <= c && c <= '9') || ('a' <= c && c <= 'f') || ('A' <= c && c <= 'F')) {
                return Err(GititError::InvalidInput);
            }
            let ghost before = hex@;
            hex.append(lower_digit_text(s, i));
            assert(hex@ =~= lower_hex(s@.subrange(0, i as int + 1)));
            i = i + 1;
        }
        assert(s@.subrange(0, n as int) =~= s@);
        assert forall|j: int| 0 <= j < hex@.len() implies is_lower_hex_digit(#[trigger] hex@[j]) by {
            assert(is_hex_digit(s@[j]));
        }
        Ok(ObjectId { hex })
    }

    /// Wraps a hex string that is known to be a well-formed id.
    pub(crate) fn from_hex(hex: String) -> (r: ObjectId)
        requires
            is_object_id(hex@),
        ensures
            r@ == hex@,
    {
        ObjectId { hex }
    }

    /// The forty hexadecimal digits.
    pub fn as_str(&self) -> (r: &str)
        ensures
            r@ == self@,
            is_object_id(r@),
    {
        proof {
            use_type_invariant(self);
        }
        self.hex.as_str()
    }

    /// The abbreviated id: its first seven digits.
    pub fn short(&self) -> (r: String)
        ensures
            r@ == self@.subrange(0, SHORT_ID_LEN as int),
    {
        proof {
            use_type_invariant(self);
        }
        self.hex.as_str().substring_char(0, SHORT_ID_LEN).to_owned()
    }
}

/// The `i`-th digit of `s`, in lowercase, as text.
fn lower_digit_text(s: &str, i: usize) -> (r: &str)
    requires
        i < s@.len(),
        s@.len() == OID_HEX_LEN,
    ensures
        r@ == seq![lower_digit(s@[i as int])],
{
    let c = s.get_char(i);
    let r = if c == 'A' {
        "a"
    } else if c == 'B' {
        "b"
    } else if c == 'C' {
        "c"
    } else if c == 'D' {
        "d"
    } else if c == 'E' {
        "e"
    } else if c == 'F' {
        "f"
    } else {
        s.substring_char(i, i + 1)
    };
    proof {
        reveal_strlit("a");
        reveal_strlit("b");
        reveal_strlit("c");
        reveal_strlit("d");
        reveal_strlit("e");
        reveal_strlit("f");
    }
    assert(r@ =~= seq![lower_digit(s@[i as int])]);
    r
}

} // verus!
