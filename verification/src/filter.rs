//! From query criteria to a predicate on records, and the selection it makes.

use vstd::prelude::*;
use crate::models::{
    is_object_id_text, lemma_codes_distinct, object_id_bytes, ObjectId, Specialty, Teacher,
};
use crate::text::{
    chars_of, contains_chars, contains_ignoring_case, contains_text, equal_ignoring_case,
    same_chars, to_upper, uppercase,
};

verus! {

/// How the `name` criterion is compared with the stored name.
#[derive(Clone, Copy, Debug, PartialEq, Eq, Structural)]
pub enum NameMatch {
    /// The stored name equals the criterion, case ignored.
    Exact,
    /// The criterion stands somewhere in the stored name, case ignored.
    Substring,
}

/// The text of an optional criterion.
pub open spec fn text_of(criterion: Option<&str>) -> Option<Seq<char>> {
    match criterion {
        Some(s) => Some(s@),
        None => None,
    }
}

/// The text of an optional owned criterion.
pub open spec fn owned_text_of(criterion: Option<String>) -> Option<Seq<char>> {
    match criterion {
        Some(s) => Some(s@),
        None => None,
    }
}

/// An owned criterion as a borrowed one.
pub fn borrowed(criterion: &Option<String>) -> (r: Option<&str>)
    ensures
        text_of(r) == owned_text_of(*criterion),
{
    match criterion {
        Some(s) => Some(s.as_str()),
        None => None,
    }
}

/// Whether a record meets every criterion that is present. An absent criterion
/// asks nothing. The surname is always searched as a substring; a specialty
/// code asks for that flag to be set.
pub open spec fn satisfies(
    t: Teacher,
    mode: NameMatch,
    name: Option<Seq<char>>,
    surname: Option<Seq<char>>,
    specialty: Option<Seq<char>>,
) -> bool {
    &&& name matches Some(n) ==> match mode {
        NameMatch::Exact => equal_ignoring_case(t.name@, n),
        NameMatch::Substring => contains_ignoring_case(t.name@, n),
    }
    &&& surname matches Some(s) ==> contains_ignoring_case(t.surname@, s)
    &&& specialty matches Some(c) ==> t.specialties.holds_code(c)
}

/// The records that meet the criteria, in stored order.
pub open spec fn matching(
    records: Seq<Teacher>,
    mode: NameMatch,
    name: Option<Seq<char>>,
    surname: Option<Seq<char>>,
    specialty: Option<Seq<char>>,
) -> Seq<Teacher> {
    records.filter(|t: Teacher| satisfies(t, mode, name, surname, specialty))
}

/// What a specialty criterion asks of a record.
#[derive(Clone, Copy, Debug)]
pub enum SpecialtyClause {
    /// The flag of this specialty is set.
    Requires(Specialty),
    /// The code names no specialty: no record can meet it.
    Unsatisfiable,
}

/// A conjunction of clauses, one for each criterion that was present, with
/// the texts already upper-cased.
#[derive(Debug)]
pub struct Predicate {
    pub mode: NameMatch,
    pub name: Option<Vec<char>>,
    pub surname: Option<Vec<char>>,
    pub specialty: Option<SpecialtyClause>,
}

impl Predicate {
    /// Whether a record meets every clause.
    pub open spec fn accepts(self, t: Teacher) -> bool {
        &&& self.name matches Some(n) ==> match self.mode {
            NameMatch::Exact => uppercase(t.name@) == n@,
            NameMatch::Substring => contains_text(uppercase(t.name@), n@),
        }
        &&& self.surname matches Some(s) ==> contains_text(uppercase(t.surname@), s@)
        &&& self.specialty matches Some(c) ==> match c {
            SpecialtyClause::Requires(s) => t.specialties.holds(s),
            SpecialtyClause::Unsatisfiable => false,
        }
    }

    /// The records that the predicate accepts, in order.
    pub open spec fn selected(self, records: Seq<Teacher>) -> Seq<Teacher> {
        records.filter(|t: Teacher| self.accepts(t))
    }

    /// Turns the criteria into clauses: a criterion that is absent gives no
    /// clause, a text is upper-cased, and a specialty code is looked up in the
    /// fixed set.
    pub fn build(
        mode: NameMatch,
        name: Option<&str>,
        surname: Option<&str>,
        specialty: Option<&str>,
    ) -> (p: Predicate)
        ensures
            p.mode == mode,
            match name {
                Some(n) => p.name is Some && p.name.unwrap()@ == uppercase(n@),
                None => p.name is None,
            },
            match surname {
                Some(s) => p.surname is Some && p.surname.unwrap()@ == uppercase(s@),
                None => p.surname is None,
            },
            match specialty {
                Some(c) => match p.specialty {
                    Some(SpecialtyClause::Requires(s)) => s.code() == c@,
                    Some(SpecialtyClause::Unsatisfiable) => !Specialty::is_code(c@),
                    None => false,
                },
                None => p.specialty is None,
            },
            forall|t: Teacher|
                #[trigger] p.accepts(t) == satisfies(
                    t,
                    mode,
                    text_of(name),
                    text_of(surname),
                    text_of(specialty),
                ),
    {
        let name_clause = match name {
            Some(n) => Some(chars_of(to_upper(n).as_str())),
            None => None,
        };
        let surname_clause = match surname {
            Some(s) => Some(chars_of(to_upper(s).as_str())),
            None => None,
        };
        let specialty_clause = match specialty {
            Some(c) => match Specialty::from_code(c) {
                Some(s) => Some(SpecialtyClause::Requires(s)),
                None => Some(SpecialtyClause::Unsatisfiable),
            },
            None => None,
        };
        let p = Predicate { mode, name: name_clause, surname: surname_clause, specialty: specialty_clause };
        proof {
            lemma_codes_distinct();
            assert forall|t: Teacher|
                #[trigger] p.accepts(t) == satisfies(
                    t,
                    mode,
                    text_of(name),
                    text_of(surname),
                    text_of(specialty),
                ) by {
                match p.specialty {
                    Some(SpecialtyClause::Requires(s)) => {
                        let c = specialty.unwrap()@;
                        assert(s.code() == c);
                        if t.specialties.holds(s) {
                            assert(s.code() == c && t.specialties.holds(s));
                        }
                    },
                    _ => {},
                }
            }
        }
        p
    }

    /// Evaluates the predicate on one record.
    pub fn matches(&self, t: &Teacher) -> (r: bool)
        ensures
            r == self.accepts(*t),
    {
        if let Some(n) = &self.name {
            let stored = chars_of(to_upper(t.name.as_str()).as_str());
            let ok = match self.mode {
                NameMatch::Exact => same_chars(&stored, n),
                NameMatch::Substring => contains_chars(&stored, n),
            };
            if !ok {
                return false;
            }
        }
        if let Some(s) = &self.surname {
            let stored = chars_of(to_upper(t.surname.as_str()).as_str());
            if !contains_chars(&stored, s) {
                return false;
            }
        }
        match self.specialty {
            Some(SpecialtyClause::Requires(s)) => t.specialties.has(s),
            Some(SpecialtyClause::Unsatisfiable) => false,
            None => true,
        }
    }
}

/// Copies out the records that the predicate accepts, in stored order.
pub fn select(records: &Vec<Teacher>, p: &Predicate) -> (r: Vec<Teacher>)
    ensures
        r@ == p.selected(records@),
{
    let mut out: Vec<Teacher> = Vec::new();
    let mut i: usize = 0;
    while i < records.len()
        invariant
            i <= records.len(),
            out@ == p.selected(records@.take(i as int)),
        decreases records.len() - i,
    {
        let ghost before = out@;
        if p.matches(&records[i]) {
            out.push(records[i].clone());
        }
        proof {
            reveal(Seq::filter);
            let next = records@.take(i + 1);
            assert(next.drop_last() =~= records@.take(i as int));
            assert(next.last() == records@[i as int]);
            assert(p.selected(next) == if p.accepts(next.last()) {
                before.push(next.last())
            } else {
                before
            });
        }
        i += 1;
    }
    assert(records@.take(records.len() as int) =~= records@);
    out
}

/// The records selected by the criteria: the whole query in one step.
pub fn find_matching(
    records: &Vec<Teacher>,
    mode: NameMatch,
    name: Option<&str>,
    surname: Option<&str>,
    specialty: Option<&str>,
) -> (r: Vec<Teacher>)
    ensures
        r@ == matching(records@, mode, text_of(name), text_of(surname), text_of(specialty)),
{
    let p = Predicate::build(mode, name, surname, specialty);
    let r = select(records, &p);
    proof {
        let f = |t: Teacher| p.accepts(t);
        let g = |t: Teacher|
            satisfies(t, mode, text_of(name), text_of(surname), text_of(specialty));
        assert(f =~= g);
    }
    r
}

/// Whether a record carries the identifier with these bytes.
pub open spec fn has_id(t: Teacher, bytes: Seq<u8>) -> bool {
    t.id matches Some(id) && id.bytes@ == bytes
}

/// The first record, in stored order, that carries the identifier.
pub open spec fn first_with_id(records: Seq<Teacher>, bytes: Seq<u8>) -> Option<Teacher>
    decreases records.len(),
{
    if records.len() == 0 {
        None
    } else if has_id(records.first(), bytes) {
        Some(records.first())
    } else {
        first_with_id(records.drop_first(), bytes)
    }
}

/// What a lookup by identifier text finds: nothing where the text is no
/// identifier, else the record that carries it, if there is one.
pub open spec fn lookup(records: Seq<Teacher>, id: Seq<char>) -> Option<Teacher> {
    if is_object_id_text(id) {
        first_with_id(records, object_id_bytes(id))
    } else {
        None
    }
}

/// Looks a record up by the text of its identifier. Malformed text finds nothing.
pub fn find_by_id(records: &Vec<Teacher>, id: &str) -> (r: Option<Teacher>)
    ensures
        r == lookup(records@, id@),
{
    let wanted = match ObjectId::parse_str(id) {
        Some(w) => w,
        None => {
            return None;
        },
    };
    let mut i: usize = 0;
    assert(records@.skip(0) =~= records@);
    while i < records.len()
        invariant
            i <= records.len(),
            is_object_id_text(id@),
            wanted.bytes@ == object_id_bytes(id@),
            first_with_id(records@, wanted.bytes@) == first_with_id(
                records@.skip(i as int),
                wanted.bytes@,
            ),
        decreases records.len() - i,
    {
        proof {
            assert(records@.skip(i as int).drop_first() =~= records@.skip(i + 1));
        }
        let found = match &records[i].id {
            Some(stored) => stored.same_as(&wanted),
            None => false,
        };
        assert(records@.skip(i as int).first() == records@[i as int]);
        if found {
            return Some(records[i].clone());
        }
        i += 1;
    }
    None
}

} // verus!
