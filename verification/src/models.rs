//! The person record, its specialties and its identifier.

use vstd::prelude::*;

verus! {

/// The value of one hexadecimal digit, in either case; `None` for any other character.
pub open spec fn hex_digit(c: char) -> Option<int> {
    let n = c as int;
    if 48 <= n <= 57 {
        Some(n - 48)
    } else if 65 <= n <= 70 {
        Some(n - 55)
    } else if 97 <= n <= 102 {
        Some(n - 87)
    } else {
        None
    }
}

/// Whether `s` is written as an identifier: exactly 24 hexadecimal digits.
pub open spec fn is_object_id_text(s: Seq<char>) -> bool {
    &&& s.len() == 24
    &&& forall|i: int| 0 <= i < 24 ==> (#[trigger] hex_digit(s[i])) is Some
}

/// The 12 bytes that a well-formed identifier text denotes, two digits per byte,
/// the high digit first.
pub open spec fn object_id_bytes(s: Seq<char>) -> Seq<u8> {
    Seq::new(12, |i: int| (16 * hex_digit(s[2 * i]).unwrap() + hex_digit(s[2 * i + 1]).unwrap()) as u8)
}

/// A store-assigned identifier: 12 bytes.
#[derive(Clone, Copy, Debug, PartialEq, Eq)]
pub struct ObjectId {
    pub bytes: [u8; 12],
}

/// Calls `bson::oid::ObjectId::parse_str` and hands out the bytes of the identifier.
///
/// Trusted: the parser accepts exactly the texts of 24 hexadecimal digits
/// (upper or lower case, mixed freely) and decodes each pair of digits into one
/// byte, high digit first. Every other text is refused.
#[verifier::external_body]
fn parse_hex_id(s: &str) -> (r: Option<[u8; 12]>)
    ensures
        r is Some <==> is_object_id_text(s@),
        r matches Some(b) ==> b@ == object_id_bytes(s@),
{
    match bson::oid::ObjectId::parse_str(s) {
        Ok(id) => Some(id.bytes()),
        Err(_) => None,
    }
}

impl ObjectId {
    /// Reads an identifier from its text. Malformed text gives `None`.
    pub fn parse_str(s: &str) -> (r: Option<ObjectId>)
        ensures
            r is Some <==> is_object_id_text(s@),
            r matches Some(id) ==> id.bytes@ == object_id_bytes(s@),
    {
        match parse_hex_id(s) {
            Some(bytes) => Some(ObjectId { bytes }),
            None => None,
        }
    }

    /// Whether two identifiers hold the same bytes.
    pub fn same_as(&self, other: &ObjectId) -> (r: bool)
        ensures
            r == (self.bytes@ == other.bytes@),
    {
        let mut i: usize = 0;
        while i < 12
            invariant
                i <= 12,
                forall|j: int| 0 <= j < i ==> self.bytes@[j] == other.bytes@[j],
            decreases 12 - i,
        {
            if self.bytes[i] != other.bytes[i] {
                return false;
            }
            i += 1;
        }
        assert(self.bytes@ =~= other.bytes@);
        true
    }
}

/// One of the fixed specialties a record can hold.
#[derive(Clone, Copy, Debug, PartialEq, Eq, Structural)]
pub enum Specialty {
    Inf,
    Pri,
    Ing,
    Fra,
    Ef,
    Pt,
    Al,
    Mus,
}

impl Specialty {
    /// The code under which the specialty is stored and queried.
    pub open spec fn code(self) -> Seq<char> {
        match self {
            Specialty::Inf => "inf"@,
            Specialty::Pri => "pri"@,
            Specialty::Ing => "ing"@,
            Specialty::Fra => "fra"@,
            Specialty::Ef => "ef"@,
            Specialty::Pt => "pt"@,
            Specialty::Al => "al"@,
            Specialty::Mus => "mus"@,
        }
    }

    /// The code as text.
    pub fn code_text(self) -> (r: &'static str)
        ensures
            r@ == self.code(),
    {
        match self {
            Specialty::Inf => "inf",
            Specialty::Pri => "pri",
            Specialty::Ing => "ing",
            Specialty::Fra => "fra",
            Specialty::Ef => "ef",
            Specialty::Pt => "pt",
            Specialty::Al => "al",
            Specialty::Mus => "mus",
        }
    }

    /// Whether `code` names one of the specialties.
    pub open spec fn is_code(code: Seq<char>) -> bool {
        exists|s: Specialty| #[trigger] s.code() == code
    }

    /// Looks a code up in the fixed set. The match is exact: case counts.
    pub fn from_code(code: &str) -> (r: Option<Specialty>)
        ensures
            r is Some <==> Specialty::is_code(code@),
            r matches Some(s) ==> s.code() == code@,
    {
        let chars = crate::text::chars_of(code);
        let r = if crate::text::spells(&chars, "inf") {
            Some(Specialty::Inf)
        } else if crate::text::spells(&chars, "pri") {
            Some(Specialty::Pri)
        } else if crate::text::spells(&chars, "ing") {
            Some(Specialty::Ing)
        } else if crate::text::spells(&chars, "fra") {
            Some(Specialty::Fra)
        } else if crate::text::spells(&chars, "ef") {
            Some(Specialty::Ef)
        } else if crate::text::spells(&chars, "pt") {
            Some(Specialty::Pt)
        } else if crate::text::spells(&chars, "al") {
            Some(Specialty::Al)
        } else if crate::text::spells(&chars, "mus") {
            Some(Specialty::Mus)
        } else {
            None
        };
        proof {
            match r {
                Some(s) => {
                    assert(s.code() == code@);
                },
                None => {
                    assert forall|s: Specialty| #[trigger] s.code() != code@ by {}
                },
            }
        }
        r
    }
}

/// No two specialties share a code.
pub proof fn lemma_codes_distinct()
    ensures
        forall|a: Specialty, b: Specialty| #[trigger] a.code() == #[trigger] b.code() ==> a == b,
{
    reveal_strlit("inf");
    reveal_strlit("pri");
    reveal_strlit("ing");
    reveal_strlit("fra");
    reveal_strlit("ef");
    reveal_strlit("pt");
    reveal_strlit("al");
    reveal_strlit("mus");
    assert forall|a: Specialty, b: Specialty| #[trigger] a.code() == #[trigger] b.code() implies a
        == b by {
        if a != b {
            assert(a.code().len() != b.code().len() || a.code()[0] != b.code()[0] || a.code()[1]
                != b.code()[1] || (a.code().len() == 3 && a.code()[2] != b.code()[2]));
        }
    }
}

/// Which specialties a record holds. Every specialty is always present, as a flag.
#[derive(Clone, Copy, Debug, PartialEq, Eq, Structural)]
pub struct Specialties {
    pub inf: bool,
    pub pri: bool,
    pub ing: bool,
    pub fra: bool,
    pub ef: bool,
    pub pt: bool,
    pub al: bool,
    pub mus: bool,
}

impl Specialties {
    /// The flag of one specialty.
    pub open spec fn holds(self, s: Specialty) -> bool {
        match s {
            Specialty::Inf => self.inf,
            Specialty::Pri => self.pri,
            Specialty::Ing => self.ing,
            Specialty::Fra => self.fra,
            Specialty::Ef => self.ef,
            Specialty::Pt => self.pt,
            Specialty::Al => self.al,
            Specialty::Mus => self.mus,
        }
    }

    /// Whether the flag stored under `code` is set. A code outside the fixed
    /// set names no flag, so nothing holds it.
    pub open spec fn holds_code(self, code: Seq<char>) -> bool {
        exists|s: Specialty| #[trigger] s.code() == code && self.holds(s)
    }

    /// Reads the flag of one specialty.
    pub fn has(&self, s: Specialty) -> (r: bool)
        ensures
            r == self.holds(s),
    {
        match s {
            Specialty::Inf => self.inf,
            Specialty::Pri => self.pri,
            Specialty::Ing => self.ing,
            Specialty::Fra => self.fra,
            Specialty::Ef => self.ef,
            Specialty::Pt => self.pt,
            Specialty::Al => self.al,
            Specialty::Mus => self.mus,
        }
    }
}

/// A teacher as stored: personal data and specialties.
#[derive(Debug, PartialEq, Eq)]
pub struct Teacher {
    /// The store's identifier; absent on a record that was never stored.
    pub id: Option<ObjectId>,
    /// Initial position in the list; carried as data, never used to sort.
    pub initial_position: i32,
    pub name: String,
    pub surname: String,
    /// Whether the teacher has services assigned.
    pub has_services: bool,
    pub specialties: Specialties,
}

/// A teacher as a value: the texts as sequences of characters.
pub struct TeacherView {
    pub id: Option<ObjectId>,
    pub initial_position: i32,
    pub name: Seq<char>,
    pub surname: Seq<char>,
    pub has_services: bool,
    pub specialties: Specialties,
}

impl View for Teacher {
    type V = TeacherView;

    open spec fn view(&self) -> TeacherView {
        TeacherView {
            id: self.id,
            initial_position: self.initial_position,
            name: self.name@,
            surname: self.surname@,
            has_services: self.has_services,
            specialties: self.specialties,
        }
    }
}

impl Clone for Teacher {
    fn clone(&self) -> (r: Self)
        ensures
            r == *self,
    {
        Teacher {
            id: self.id,
            initial_position: self.initial_position,
            name: self.name.clone(),
            surname: self.surname.clone(),
            has_services: self.has_services,
            specialties: self.specialties,
        }
    }
}

/// A user record has the shape of a teacher record.
pub type User = Teacher;

} // verus!
