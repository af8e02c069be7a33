//! Document identifiers: twelve bytes, written as twenty-four hex digits.

use vstd::prelude::*;
use crate::errors::{fails_with, ApiError, ErrorKind};
use crate::text::push_char;

verus! {

/// Value of one hexadecimal digit, in either case.
pub open spec fn hex_digit_value(c: char) -> Option<u8> {
    let n = c as u32;
    if 48 <= n && n <= 57 {
        Some((n - 48) as u8)
    } else if 97 <= n && n <= 102 {
        Some((n - 87) as u8)
    } else if 65 <= n && n <= 70 {
        Some((n - 55) as u8)
    } else {
        None
    }
}

/// Lower-case hexadecimal digit for a value below sixteen.
pub open spec fn hex_digit_char(v: u8) -> char {
    if v < 10 {
        (v + 48) as char
    } else {
        (v + 87) as char
    }
}

/// `s` is the text of a document identifier: exactly twenty-four hex digits.
pub open spec fn is_id_text(s: Seq<char>) -> bool {
    &&& s.len() == 24
    &&& forall|i: int| 0 <= i < 24 ==> (#[trigger] hex_digit_value(s[i])).is_some()
}

/// The bytes that the hex text `s` spells, two digits per byte, high digit first.
pub open spec fn id_bytes_of(s: Seq<char>) -> Seq<u8> {
    Seq::new(
        (s.len() / 2) as nat,
        |i: int|
            (hex_digit_value(s[2 * i]).unwrap() * 16 + hex_digit_value(s[2 * i + 1]).unwrap()) as u8,
    )
}

/// Lower-case hex text of `b`, two digits per byte.
pub open spec fn hex_text(b: Seq<u8>) -> Seq<char> {
    Seq::new(
        2 * b.len(),
        |i: int|
            if i % 2 == 0 {
                hex_digit_char(b[i / 2] / 16)
            } else {
                hex_digit_char(b[i / 2] % 16)
            },
    )
}

/// Key of a stored document: always twelve bytes.
#[derive(Debug)]
pub struct DocumentId {
    bytes: Vec<u8>,
}

impl View for DocumentId {
    type V = Seq<u8>;

    closed spec fn view(&self) -> Seq<u8> {
        self.bytes@
    }
}

fn hex_digit(c: char) -> (r: Option<u8>)
    ensures
        r == hex_digit_value(c),
{
    let n = c as u32;
    if 48 <= n && n <= 57 {
        Some((n - 48) as u8)
    } else if 97 <= n && n <= 102 {
        Some((n - 87) as u8)
    } else if 65 <= n && n <= 70 {
        Some((n - 55) as u8)
    } else {
        None
    }
}

fn digit_char(v: u8) -> (r: char)
    requires
        v < 16,
    ensures
        r == hex_digit_char(v),
{
    if v < 10 {
        (v + 48) as char
    } else {
        (v + 87) as char
    }
}

impl DocumentId {
    #[verifier::type_invariant]
    spec fn twelve_bytes(&self) -> bool {
        self.bytes@.len() == 12
    }

    /// The twelve bytes of the identifier.
    pub fn bytes(&self) -> (r: &Vec<u8>)
        ensures
            r@ == self@,
            r@.len() == 12,
    {
        proof {
            use_type_invariant(self);
        }
        &self.bytes
    }

    /// Builds an identifier from its twelve bytes.
    pub fn from_bytes(b: [u8; 12]) -> (r: DocumentId)
        ensures
            r@ == b@,
            r@.len() == 12,
    {
        let mut bytes: Vec<u8> = Vec::new();
        let mut i: usize = 0;
        while i < 12
            invariant
                i <= 12,
                bytes@ == b@.subrange(0, i as int),
            decreases 12 - i,
        {
            bytes.push(b[i]);
            i = i + 1;
        }
        assert(bytes@ =~= b@);
        DocumentId { bytes }
    }

    /// Parses the text form of an identifier. Fails unless the text is
    /// exactly twenty-four hex digits (either case).
    pub fn parse_str(s: &str) -> (r: Option<DocumentId>)
        ensures
            r is Some <==> is_id_text(s@),
            r matches Some(id) ==> id@ == id_bytes_of(s@) && id@.len() == 12,
    {
        let n = s.unicode_len();
        if n != 24 {
            return None;
        }
        let mut bytes: Vec<u8> = Vec::new();
        let mut i: usize = 0;
        while i < 12
            invariant
                s@.len() == 24,
                i <= 12,
                forall|j: int| 0 <= j < 2 * i ==> (#[trigger] hex_digit_value(s@[j])).is_some(),
                bytes@ == id_bytes_of(s@).subrange(0, i as int),
            decreases 12 - i,
        {
            let hi = hex_digit(s.get_char(2 * i));
            let lo = hex_digit(s.get_char(2 * i + 1));
            match (hi, lo) {
                (Some(h), Some(l)) => {
                    bytes.push(h * 16 + l);
                },
                _ => {
                    assert(!is_id_text(s@)) by {
                        if hi is None {
                            assert(hex_digit_value(s@[2 * i as int]) is None);
                        } else {
                            assert(hex_digit_value(s@[2 * i + 1]) is None);
                        }
                    }
                    return None;
                },
            }
            i = i + 1;
        }
        assert(bytes@ =~= id_bytes_of(s@));
        Some(DocumentId { bytes })
    }

    /// Parses an identifier given in a request; malformed text is a bad
    /// request with `message`.
    pub fn parse_request_id(s: &str, message: &str) -> (r: Result<DocumentId, ApiError>)
        ensures
            r is Ok <==> is_id_text(s@),
            r matches Ok(id) ==> id@ == id_bytes_of(s@),
            r is Err ==> fails_with(r, ErrorKind::BadRequest, message@),
    {
        match DocumentId::parse_str(s) {
            Some(id) => Ok(id),
            None => Err(ApiError::bad_request(message)),
        }
    }

    /// A copy of the identifier.
    pub fn copy(&self) -> (r: DocumentId)
        ensures
            r@ == self@,
    {
        proof {
            use_type_invariant(self);
        }
        let bytes = self.bytes.clone();
        assert(bytes@ =~= self.bytes@);
        DocumentId { bytes }
    }

    /// Lower-case hex text of the identifier.
    pub fn to_hex(&self) -> (r: String)
        ensures
            r@ == hex_text(self@),
    {
        let mut out = String::new();
        let mut i: usize = 0;
        while i < self.bytes.len()
            invariant
                i <= self.bytes@.len(),
                out@ == hex_text(self@).subrange(0, 2 * i as int),
            decreases self.bytes@.len() - i,
        {
            let b = self.bytes[i];
            let hi = digit_char(b / 16);
            let lo = digit_char(b % 16);
            push_char(&mut out, hi);
            push_char(&mut out, lo);
            assert(out@ =~= hex_text(self@).subrange(0, 2 * i + 2));
            i = i + 1;
        }
        assert(out@ =~= hex_text(self@));
        out
    }
}

/// Reading back the hex text of twelve bytes gives the same bytes.
pub proof fn lemma_hex_round_trip(b: Seq<u8>)
    requires
        b.len() == 12,
    ensures
        is_id_text(hex_text(b)),
        id_bytes_of(hex_text(b)) == b,
{
    let h = hex_text(b);
    assert forall|v: u8| v < 16 implies hex_digit_value(#[trigger] hex_digit_char(v)) == Some(v) by {
        if v < 10 {
            assert(((v + 48) as char) as u32 == v + 48);
        } else {
            assert(((v + 87) as char) as u32 == v + 87);
        }
    }
    assert forall|i: int| 0 <= i < 24 implies (#[trigger] hex_digit_value(h[i])).is_some() by {
        if i % 2 == 0 {
            assert(h[i] == hex_digit_char(b[i / 2] / 16));
        } else {
            assert(h[i] == hex_digit_char(b[i / 2] % 16));
        }
    }
    assert forall|i: int| 0 <= i < 12 implies #[trigger] id_bytes_of(h)[i] == b[i] by {
        assert(h[2 * i] == hex_digit_char(b[i] / 16)) by {
            assert((2 * i) / 2 == i);
            assert((2 * i) % 2 == 0);
        }
        assert(h[2 * i + 1] == hex_digit_char(b[i] % 16)) by {
            assert((2 * i + 1) / 2 == i);
            assert((2 * i + 1) % 2 == 1);
        }
    }
    assert(id_bytes_of(h) =~= b);
}

} // verus!
