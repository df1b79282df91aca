//! Student identifiers: the twelve raw bytes of a document-store object id,
//! written on the wire as 24 hexadecimal digits.

use mongodb::bson::oid::ObjectId;
use vstd::prelude::*;
use vstd::string::StringExecFns;

verus! {

#[verifier::external_type_specification]
#[verifier::external_body]
pub struct ExOidError(mongodb::bson::oid::Error);

/// Whether `c` is a hexadecimal digit of either case.
pub open spec fn is_hex_digit(c: char) -> bool {
    ('0' <= c && c <= '9') || ('a' <= c && c <= 'f') || ('A' <= c && c <= 'F')
}

/// The value of a hexadecimal digit.
pub open spec fn hex_value(c: char) -> int {
    if '0' <= c && c <= '9' {
        c as int - '0' as int
    } else if 'a' <= c && c <= 'f' {
        c as int - 'a' as int + 10
    } else {
        c as int - 'A' as int + 10
    }
}

/// Whether `s` is the text of an identifier: exactly 24 hexadecimal digits.
pub open spec fn is_id_text(s: Seq<char>) -> bool {
    s.len() == 24 && forall|i: int| 0 <= i < s.len() ==> is_hex_digit(#[trigger] s[i])
}

/// The twelve bytes that the digits of `s` spell, two digits per byte.
pub open spec fn id_bytes_of(s: Seq<char>) -> Seq<u8> {
    Seq::new(12, |k: int| (hex_value(s[2 * k]) * 16 + hex_value(s[2 * k + 1])) as u8)
}

/// The lower-case digit for a value below 16.
pub open spec fn lower_digit(v: int) -> char {
    seq!['0', '1', '2', '3', '4', '5', '6', '7', '8', '9', 'a', 'b', 'c', 'd', 'e', 'f'][v]
}

/// Lower-case hexadecimal text of `b`, high digit first.
pub open spec fn hex_text(b: Seq<u8>) -> Seq<char> {
    Seq::new(
        2 * b.len(),
        |i: int|
            if i % 2 == 0 {
                lower_digit(b[i / 2] as int / 16)
            } else {
                lower_digit(b[i / 2] as int % 16)
            },
    )
}

/// Relies on bson's `ObjectId::parse_str`: it accepts exactly the strings of
/// 24 hexadecimal digits (either case) and decodes them two digits per byte.
#[verifier::external_body]
fn parse_object_id(s: &str) -> (r: Result<[u8; 12], mongodb::bson::oid::Error>)
    ensures
        r.is_ok() <==> is_id_text(s@),
        r matches Ok(b) ==> b@ == id_bytes_of(s@),
{
    ObjectId::parse_str(s).map(|o| o.bytes())
}

/// The one-character text of the lower-case digit for `v`.
fn digit_text(v: u8) -> (r: &'static str)
    requires
        v < 16,
    ensures
        r@ == seq![lower_digit(v as int)],
{
    let ghost ds = seq!['0', '1', '2', '3', '4', '5', '6', '7', '8', '9', 'a', 'b', 'c', 'd', 'e', 'f'];
    assert(lower_digit(v as int) == ds[v as int]);
    match v {
        0 => {
            proof { reveal_strlit("0"); }
            "0"
        },
        1 => {
            proof { reveal_strlit("1"); }
            "1"
        },
        2 => {
            proof { reveal_strlit("2"); }
            "2"
        },
        3 => {
            proof { reveal_strlit("3"); }
            "3"
        },
        4 => {
            proof { reveal_strlit("4"); }
            "4"
        },
        5 => {
            proof { reveal_strlit("5"); }
            "5"
        },
        6 => {
            proof { reveal_strlit("6"); }
            "6"
        },
        7 => {
            proof { reveal_strlit("7"); }
            "7"
        },
        8 => {
            proof { reveal_strlit("8"); }
            "8"
        },
        9 => {
            proof { reveal_strlit("9"); }
            "9"
        },
        10 => {
            proof { reveal_strlit("a"); }
            "a"
        },
        11 => {
            proof { reveal_strlit("b"); }
            "b"
        },
        12 => {
            proof { reveal_strlit("c"); }
            "c"
        },
        13 => {
            proof { reveal_strlit("d"); }
            "d"
        },
        14 => {
            proof { reveal_strlit("e"); }
            "e"
        },
        _ => {
            proof { reveal_strlit("f"); }
            "f"
        },
    }
}

/// Relies on bson's `ObjectId::new`: a fresh id from the clock, a per-process
/// random value and a counter. Nothing is known of the bytes.
#[verifier::external_body]
fn new_object_id() -> (r: [u8; 12]) {
    ObjectId::new().bytes()
}

/// Why an identifier string was refused.
#[derive(Debug, Clone, Copy, PartialEq, Eq, Structural)]
pub enum IdError {
    /// The text is not 24 hexadecimal digits.
    InvalidIdentifier,
}

/// The identifier of a stored student.
#[derive(Debug, Clone, Copy)]
pub struct StudentId {
    pub bytes: [u8; 12],
}

impl View for StudentId {
    type V = Seq<u8>;

    open spec fn view(&self) -> Seq<u8> {
        self.bytes@
    }
}

impl StudentId {
    /// The identifier with the given raw bytes.
    pub fn from_bytes(bytes: [u8; 12]) -> (r: StudentId)
        ensures
            r@ == bytes@,
    {
        StudentId { bytes }
    }

    /// Reads an identifier from its text form.
    pub fn parse(s: &str) -> (r: Result<StudentId, IdError>)
        ensures
            r.is_ok() <==> is_id_text(s@),
            r matches Ok(id) ==> id@ == id_bytes_of(s@),
            r matches Err(e) ==> e == IdError::InvalidIdentifier,
    {
        match parse_object_id(s) {
            Ok(bytes) => Ok(StudentId { bytes }),
            Err(_) => Err(IdError::InvalidIdentifier),
        }
    }

    /// The text form: 24 lower-case hexadecimal digits.
    pub fn to_hex(&self) -> (r: String)
        ensures
            r@ == hex_text(self@),
    {
        let mut out = String::new();
        let mut i: usize = 0;
        while i < 12
            invariant
                0 <= i <= 12,
                self@.len() == 12,
                out@.len() == 2 * i,
                forall|j: int| 0 <= j < 2 * i ==> #[trigger] out@[j] == hex_text(self@)[j],
            decreases 12 - i,
        {
            let b = self.bytes[i];
            let ghost before = out@;
            out.append(digit_text(b / 16));
            out.append(digit_text(b % 16));
            assert forall|j: int| 0 <= j < 2 * (i + 1) implies #[trigger] out@[j] == hex_text(self@)[j] by {
                if j >= 2 * i {
                    assert(j / 2 == i as int);
                    assert(b as int / 16 == (b / 16) as int && b as int % 16 == (b % 16) as int);
                } else {
                    assert(out@[j] == before[j]);
                }
            }
            i = i + 1;
        }
        assert(out@ =~= hex_text(self@));
        out
    }

    /// A new identifier, as the store hands out for an inserted document.
    pub fn generate() -> (r: StudentId)
        ensures
            r@.len() == 12,
    {
        StudentId { bytes: new_object_id() }
    }

    /// Whether two identifiers have the same bytes.
    pub fn same_as(&self, other: &StudentId) -> (r: bool)
        ensures
            r == (self@ == other@),
    {
        let mut i: usize = 0;
        while i < 12
            invariant
                0 <= i <= 12,
                self@.len() == 12,
                other@.len() == 12,
                forall|j: int| 0 <= j < i ==> self@[j] == other@[j],
            decreases 12 - i,
        {
            if self.bytes[i] != other.bytes[i] {
                return false;
            }
            i = i + 1;
        }
        assert(self@ =~= other@);
        true
    }
}

} // verus!
