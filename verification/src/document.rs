//! A record as a document: a list of named values, as the store holds it and
//! as a response shows it.

use vstd::prelude::*;
use crate::filter::{NameMatch, Predicate, SpecialtyClause};
use crate::models::{ObjectId, Specialties, Specialty, Teacher, TeacherView};
use crate::text::{chars_of, contains_chars, contains_text, same_chars, to_upper, uppercase};

verus! {

/// One flag of a nested document of flags.
#[derive(Debug, Clone, PartialEq, Eq)]
pub struct Flag {
    pub key: String,
    pub set: bool,
}

/// The value of a field.
#[derive(Debug, Clone, PartialEq, Eq)]
pub enum Value {
    Bool(bool),
    Int32(i32),
    Text(String),
    Id(ObjectId),
    Flags(Vec<Flag>),
    /// A value of a kind that no field of a record holds.
    Other,
}

/// A named value.
#[derive(Debug, Clone, PartialEq, Eq)]
pub struct Field {
    pub key: String,
    pub value: Value,
}

/// A flag as a value: its name as a sequence of characters.
pub struct FlagView {
    pub key: Seq<char>,
    pub set: bool,
}

/// The value of a field, with texts as sequences of characters.
pub enum ValueView {
    Bool(bool),
    Int32(i32),
    Text(Seq<char>),
    Id(ObjectId),
    Flags(Seq<FlagView>),
    Other,
}

/// A named value, with its name as a sequence of characters.
pub struct FieldView {
    pub key: Seq<char>,
    pub value: ValueView,
}

impl View for Flag {
    type V = FlagView;

    open spec fn view(&self) -> FlagView {
        FlagView { key: self.key@, set: self.set }
    }
}

/// The flags of a nested document, as values.
pub open spec fn flag_views(flags: Seq<Flag>) -> Seq<FlagView> {
    Seq::new(flags.len(), |i: int| flags[i]@)
}

impl View for Value {
    type V = ValueView;

    open spec fn view(&self) -> ValueView {
        match self {
            Value::Bool(b) => ValueView::Bool(*b),
            Value::Int32(n) => ValueView::Int32(*n),
            Value::Text(s) => ValueView::Text(s@),
            Value::Id(id) => ValueView::Id(*id),
            Value::Flags(flags) => ValueView::Flags(flag_views(flags@)),
            Value::Other => ValueView::Other,
        }
    }
}

impl View for Field {
    type V = FieldView;

    open spec fn view(&self) -> FieldView {
        FieldView { key: self.key@, value: self.value@ }
    }
}

/// The fields of a document, as values.
pub open spec fn field_views(fields: Seq<Field>) -> Seq<FieldView> {
    Seq::new(fields.len(), |i: int| fields[i]@)
}

/// Whether the field at `i` is the first one named `key`.
pub open spec fn is_first_field(doc: Seq<FieldView>, key: Seq<char>, i: int) -> bool {
    &&& 0 <= i < doc.len()
    &&& doc[i].key == key
    &&& forall|j: int| 0 <= j < i ==> (#[trigger] doc[j]).key != key
}

/// The value of the first field named `key`, if there is one.
pub open spec fn value_of(doc: Seq<FieldView>, key: Seq<char>) -> Option<ValueView> {
    if exists|i: int| is_first_field(doc, key, i) {
        Some(doc[choose|i: int| is_first_field(doc, key, i)].value)
    } else {
        None
    }
}

/// Whether the flag at `i` is the first one named `key`.
pub open spec fn is_first_flag(flags: Seq<FlagView>, key: Seq<char>, i: int) -> bool {
    &&& 0 <= i < flags.len()
    &&& flags[i].key == key
    &&& forall|j: int| 0 <= j < i ==> (#[trigger] flags[j]).key != key
}

/// The first flag named `key`, if there is one.
pub open spec fn flag_of(flags: Seq<FlagView>, key: Seq<char>) -> Option<bool> {
    if exists|i: int| is_first_flag(flags, key, i) {
        Some(flags[choose|i: int| is_first_flag(flags, key, i)].set)
    } else {
        None
    }
}

/// The specialties in the order in which their flags are written.
pub open spec fn specialty_at(i: int) -> Specialty {
    if i == 0 {
        Specialty::Inf
    } else if i == 1 {
        Specialty::Pri
    } else if i == 2 {
        Specialty::Ing
    } else if i == 3 {
        Specialty::Fra
    } else if i == 4 {
        Specialty::Ef
    } else if i == 5 {
        Specialty::Pt
    } else if i == 6 {
        Specialty::Al
    } else {
        Specialty::Mus
    }
}

/// The nested document of a record's specialties: one flag for each
/// specialty, under its code.
pub open spec fn encoded_flags(s: Specialties) -> Seq<FlagView> {
    Seq::new(
        8,
        |i: int| FlagView { key: specialty_at(i).code(), set: s.holds(specialty_at(i)) },
    )
}

/// The fields that every record shows, whether or not it has an identifier.
pub open spec fn encoded_body(t: TeacherView) -> Seq<FieldView> {
    seq![
        FieldView { key: "initial_position"@, value: ValueView::Int32(t.initial_position) },
        FieldView { key: "name"@, value: ValueView::Text(t.name) },
        FieldView { key: "surname"@, value: ValueView::Text(t.surname) },
        FieldView { key: "has_services"@, value: ValueView::Bool(t.has_services) },
        FieldView { key: "specialties"@, value: ValueView::Flags(encoded_flags(t.specialties)) },
    ]
}

/// The document of a record. The identifier comes first where there is one;
/// where there is none, no field stands for it.
pub open spec fn encoded(t: TeacherView) -> Seq<FieldView> {
    match t.id {
        Some(id) => seq![FieldView { key: "_id"@, value: ValueView::Id(id) }] + encoded_body(t),
        None => encoded_body(t),
    }
}

/// The specialties that a nested document holds: every code must have a
/// flag; the first flag of a code counts, and other keys are passed over.
pub open spec fn decoded_flags(flags: Seq<FlagView>) -> Option<Specialties> {
    if flag_of(flags, "inf"@) is Some && flag_of(flags, "pri"@) is Some && flag_of(flags, "ing"@) is Some
        && flag_of(flags, "fra"@) is Some && flag_of(flags, "ef"@) is Some && flag_of(flags, "pt"@) is Some
        && flag_of(flags, "al"@) is Some && flag_of(flags, "mus"@) is Some {
        Some(
            Specialties {
                inf: flag_of(flags, "inf"@).unwrap(),
                pri: flag_of(flags, "pri"@).unwrap(),
                ing: flag_of(flags, "ing"@).unwrap(),
                fra: flag_of(flags, "fra"@).unwrap(),
                ef: flag_of(flags, "ef"@).unwrap(),
                pt: flag_of(flags, "pt"@).unwrap(),
                al: flag_of(flags, "al"@).unwrap(),
                mus: flag_of(flags, "mus"@).unwrap(),
            },
        )
    } else {
        None
    }
}

/// The flags under a document's `specialties` field; none where the field
/// is missing or holds something else.
pub open spec fn flags_in(doc: Seq<FieldView>) -> Seq<FlagView> {
    match value_of(doc, "specialties"@) {
        Some(ValueView::Flags(flags)) => flags,
        _ => Seq::empty(),
    }
}

/// The identifier that a document holds: none where no field is named
/// `_id`; refused (the outer `None`) where that field holds anything but an
/// identifier.
pub open spec fn decoded_id(doc: Seq<FieldView>) -> Option<Option<ObjectId>> {
    match value_of(doc, "_id"@) {
        None => Some(None),
        Some(ValueView::Id(id)) => Some(Some(id)),
        Some(_) => None,
    }
}

/// The record that a document holds. Every field but the identifier must be
/// there with a value of its kind; the first field of a name counts, and
/// fields of other names are passed over.
pub open spec fn decoded(doc: Seq<FieldView>) -> Option<TeacherView> {
    match (
        decoded_id(doc),
        value_of(doc, "initial_position"@),
        value_of(doc, "name"@),
        value_of(doc, "surname"@),
        value_of(doc, "has_services"@),
        value_of(doc, "specialties"@),
    ) {
        (
            Some(id),
            Some(ValueView::Int32(initial_position)),
            Some(ValueView::Text(name)),
            Some(ValueView::Text(surname)),
            Some(ValueView::Bool(has_services)),
            Some(ValueView::Flags(flags)),
        ) => match decoded_flags(flags) {
            Some(specialties) => Some(
                TeacherView { id, initial_position, name, surname, has_services, specialties },
            ),
            None => None,
        },
        _ => None,
    }
}

/// The first field of a name is at one place only.
pub proof fn lemma_value_at(doc: Seq<FieldView>, key: Seq<char>, i: int)
    requires
        is_first_field(doc, key, i),
    ensures
        value_of(doc, key) == Some(doc[i].value),
{
    let c = choose|c: int| is_first_field(doc, key, c);
    assert(is_first_field(doc, key, c));
    if c < i {
        assert(doc[c].key != key);
    }
    if i < c {
        assert(doc[i].key != key);
    }
}

/// A field whose name no other field has is the one that its name finds.
pub proof fn lemma_sole_field(doc: Seq<FieldView>, i: int)
    requires
        0 <= i < doc.len(),
        forall|j: int| 0 <= j < doc.len() && j != i ==> (#[trigger] doc[j]).key != doc[i].key,
    ensures
        value_of(doc, doc[i].key) == Some(doc[i].value),
{
    assert(is_first_field(doc, doc[i].key, i));
    lemma_value_at(doc, doc[i].key, i);
}

/// A flag whose name no other flag has is the one that its name finds.
pub proof fn lemma_sole_flag(flags: Seq<FlagView>, i: int)
    requires
        0 <= i < flags.len(),
        forall|j: int| 0 <= j < flags.len() && j != i ==> (#[trigger] flags[j]).key != flags[i].key,
    ensures
        flag_of(flags, flags[i].key) == Some(flags[i].set),
{
    assert(is_first_flag(flags, flags[i].key, i));
    lemma_flag_at(flags, flags[i].key, i);
}

/// The first flag of a name is at one place only.
pub proof fn lemma_flag_at(flags: Seq<FlagView>, key: Seq<char>, i: int)
    requires
        is_first_flag(flags, key, i),
    ensures
        flag_of(flags, key) == Some(flags[i].set),
{
    let c = choose|c: int| is_first_flag(flags, key, c);
    assert(is_first_flag(flags, key, c));
    if c < i {
        assert(flags[c].key != key);
    }
    if i < c {
        assert(flags[i].key != key);
    }
}

fn field<'a>(doc: &'a Vec<Field>, key: &str) -> (r: Option<&'a Value>)
    ensures
        match r {
            Some(v) => value_of(field_views(doc@), key@) == Some(v@),
            None => value_of(field_views(doc@), key@) is None,
        },
{
    let wanted = chars_of(key);
    let mut i: usize = 0;
    while i < doc.len()
        invariant
            i <= doc.len(),
            wanted@ == key@,
            forall|j: int| 0 <= j < i ==> (#[trigger] field_views(doc@)[j]).key != key@,
        decreases doc.len() - i,
    {
        let here = chars_of(doc[i].key.as_str());
        if same_chars(&here, &wanted) {
            proof {
                assert(is_first_field(field_views(doc@), key@, i as int));
                lemma_value_at(field_views(doc@), key@, i as int);
            }
            return Some(&doc[i].value);
        }
        i += 1;
    }
    None
}

fn flag(flags: &Vec<Flag>, key: &str) -> (r: Option<bool>)
    ensures
        r == flag_of(flag_views(flags@), key@),
{
    let wanted = chars_of(key);
    let mut i: usize = 0;
    while i < flags.len()
        invariant
            i <= flags.len(),
            wanted@ == key@,
            forall|j: int| 0 <= j < i ==> (#[trigger] flag_views(flags@)[j]).key != key@,
        decreases flags.len() - i,
    {
        let here = chars_of(flags[i].key.as_str());
        if same_chars(&here, &wanted) {
            proof {
                assert(is_first_flag(flag_views(flags@), key@, i as int));
                lemma_flag_at(flag_views(flags@), key@, i as int);
            }
            return Some(flags[i].set);
        }
        i += 1;
    }
    None
}

fn specialties_from(flags: &Vec<Flag>) -> (r: Option<Specialties>)
    ensures
        r == decoded_flags(flag_views(flags@)),
{
    match (
        flag(flags, "inf"),
        flag(flags, "pri"),
        flag(flags, "ing"),
        flag(flags, "fra"),
        flag(flags, "ef"),
        flag(flags, "pt"),
        flag(flags, "al"),
        flag(flags, "mus"),
    ) {
        (Some(inf), Some(pri), Some(ing), Some(fra), Some(ef), Some(pt), Some(al), Some(mus)) => Some(
            Specialties { inf, pri, ing, fra, ef, pt, al, mus },
        ),
        _ => None,
    }
}

fn flag_named(key: &str, set: bool) -> (r: Flag)
    ensures
        r@ == (FlagView { key: key@, set }),
{
    Flag { key: key.to_owned(), set }
}

fn field_named(key: &str, value: Value) -> (r: Field)
    ensures
        r@ == (FieldView { key: key@, value: value@ }),
{
    Field { key: key.to_owned(), value }
}

impl Specialties {
    /// The nested document of the flags: one for each code, in the fixed order.
    pub fn to_flags(&self) -> (r: Vec<Flag>)
        ensures
            flag_views(r@) == encoded_flags(*self),
    {
        let mut out: Vec<Flag> = Vec::new();
        out.push(flag_named("inf", self.inf));
        out.push(flag_named("pri", self.pri));
        out.push(flag_named("ing", self.ing));
        out.push(flag_named("fra", self.fra));
        out.push(flag_named("ef", self.ef));
        out.push(flag_named("pt", self.pt));
        out.push(flag_named("al", self.al));
        out.push(flag_named("mus", self.mus));
        assert(flag_views(out@) =~= encoded_flags(*self));
        out
    }
}

impl Teacher {
    /// The record as a document. A record without an identifier gives a
    /// document without an `_id` field.
    pub fn to_document(&self) -> (r: Vec<Field>)
        ensures
            field_views(r@) == encoded(self@),
    {
        let mut out: Vec<Field> = Vec::new();
        match self.id {
            Some(id) => {
                out.push(field_named("_id", Value::Id(id)));
            },
            None => {},
        }
        out.push(field_named("initial_position", Value::Int32(self.initial_position)));
        out.push(field_named("name", Value::Text(self.name.clone())));
        out.push(field_named("surname", Value::Text(self.surname.clone())));
        out.push(field_named("has_services", Value::Bool(self.has_services)));
        out.push(field_named("specialties", Value::Flags(self.specialties.to_flags())));
        assert(field_views(out@) =~= encoded(self@));
        out
    }

    /// Reads a record from a document. A document that lacks a field, or
    /// holds a value of another kind under its name, is refused. A field or a
    /// flag under a name that no record has is passed over, whatever it holds,
    /// and of two fields of one name the first counts.
    pub fn from_document(doc: &Vec<Field>) -> (r: Option<Teacher>)
        ensures
            match r {
                Some(t) => decoded(field_views(doc@)) == Some(t@),
                None => decoded(field_views(doc@)) is None,
            },
    {
        let id = match field(doc, "_id") {
            None => None,
            Some(Value::Id(id)) => Some(*id),
            Some(_) => {
                return None;
            },
        };
        match (
            field(doc, "initial_position"),
            field(doc, "name"),
            field(doc, "surname"),
            field(doc, "has_services"),
            field(doc, "specialties"),
        ) {
            (
                Some(Value::Int32(initial_position)),
                Some(Value::Text(name)),
                Some(Value::Text(surname)),
                Some(Value::Bool(has_services)),
                Some(Value::Flags(flags)),
            ) => match specialties_from(flags) {
                Some(specialties) => Some(
                    Teacher {
                        id,
                        initial_position: *initial_position,
                        name: name.clone(),
                        surname: surname.clone(),
                        has_services: *has_services,
                        specialties,
                    },
                ),
                None => None,
            },
            _ => None,
        }
    }
}

impl Predicate {
    /// Whether a stored document meets every clause, read as it stands: a
    /// text clause needs a text under the field's name, and a specialty
    /// clause needs the flag of that code to be there and set.
    pub open spec fn accepts_document(self, doc: Seq<FieldView>) -> bool {
        &&& self.name matches Some(n) ==> match value_of(doc, "name"@) {
            Some(ValueView::Text(stored)) => match self.mode {
                NameMatch::Exact => uppercase(stored) == n@,
                NameMatch::Substring => contains_text(uppercase(stored), n@),
            },
            _ => false,
        }
        &&& self.surname matches Some(n) ==> match value_of(doc, "surname"@) {
            Some(ValueView::Text(stored)) => contains_text(uppercase(stored), n@),
            _ => false,
        }
        &&& self.specialty matches Some(c) ==> match c {
            SpecialtyClause::Requires(s) => flag_of(flags_in(doc), s.code()) == Some(true),
            SpecialtyClause::Unsatisfiable => false,
        }
    }

    /// Evaluates the predicate on a stored document, without reading a
    /// record from it.
    pub fn matches_document(&self, doc: &Vec<Field>) -> (r: bool)
        ensures
            r == self.accepts_document(field_views(doc@)),
    {
        if let Some(n) = &self.name {
            let ok = match field(doc, "name") {
                Some(Value::Text(stored)) => {
                    let upper = chars_of(to_upper(stored.as_str()).as_str());
                    match self.mode {
                        NameMatch::Exact => same_chars(&upper, n),
                        NameMatch::Substring => contains_chars(&upper, n),
                    }
                },
                _ => false,
            };
            if !ok {
                return false;
            }
        }
        if let Some(n) = &self.surname {
            let ok = match field(doc, "surname") {
                Some(Value::Text(stored)) => {
                    let upper = chars_of(to_upper(stored.as_str()).as_str());
                    contains_chars(&upper, n)
                },
                _ => false,
            };
            if !ok {
                return false;
            }
        }
        match self.specialty {
            Some(SpecialtyClause::Requires(s)) => match field(doc, "specialties") {
                Some(Value::Flags(flags)) => match flag(flags, s.code_text()) {
                    Some(set) => set,
                    None => false,
                },
                _ => false,
            },
            Some(SpecialtyClause::Unsatisfiable) => false,
            None => true,
        }
    }
}

/// Stored documents, as values.
pub open spec fn document_views(docs: Seq<Vec<Field>>) -> Seq<Seq<FieldView>> {
    Seq::new(docs.len(), |i: int| field_views(docs[i]@))
}

/// Records, as values.
pub open spec fn record_views(records: Seq<Teacher>) -> Seq<TeacherView> {
    Seq::new(records.len(), |i: int| records[i]@)
}

/// The records of the documents that meet the predicate, in stored order.
/// A document that does not meet it is passed over unread; one that meets it
/// and holds no record makes the whole reading fail.
pub open spec fn decoded_matching(docs: Seq<Seq<FieldView>>, p: Predicate) -> Option<
    Seq<TeacherView>,
>
    decreases docs.len(),
{
    if docs.len() == 0 {
        Some(Seq::empty())
    } else {
        match decoded_matching(docs.drop_last(), p) {
            None => None,
            Some(before) => if p.accepts_document(docs.last()) {
                match decoded(docs.last()) {
                    Some(t) => Some(before.push(t)),
                    None => None,
                }
            } else {
                Some(before)
            },
        }
    }
}

/// Reads the records of the documents that meet the predicate. `None` says
/// that a document met it and held no record.
pub fn decode_matching(docs: &Vec<Vec<Field>>, p: &Predicate) -> (r: Option<Vec<Teacher>>)
    ensures
        match r {
            Some(records) => decoded_matching(document_views(docs@), *p) == Some(
                record_views(records@),
            ),
            None => decoded_matching(document_views(docs@), *p) is None,
        },
{
    let ghost views = document_views(docs@);
    let mut out: Vec<Teacher> = Vec::new();
    let mut failed = false;
    let mut i: usize = 0;
    assert(record_views(out@) =~= Seq::<TeacherView>::empty());
    while i < docs.len()
        invariant
            i <= docs.len(),
            views == document_views(docs@),
            failed ==> decoded_matching(views.take(i as int), *p) is None,
            !failed ==> decoded_matching(views.take(i as int), *p) == Some(record_views(out@)),
        decreases docs.len() - i,
    {
        let ghost before = out@;
        proof {
            assert(views.take(i + 1).drop_last() =~= views.take(i as int));
            assert(views.take(i + 1).last() == field_views(docs@[i as int]@));
        }
        if !failed && p.matches_document(&docs[i]) {
            match Teacher::from_document(&docs[i]) {
                Some(t) => {
                    out.push(t);
                    proof {
                        assert(record_views(out@) =~= record_views(before).push(t@));
                    }
                },
                None => {
                    failed = true;
                },
            }
        }
        i += 1;
    }
    proof {
        assert(views.take(docs.len() as int) =~= views);
    }
    if failed {
        None
    } else {
        Some(out)
    }
}

} // verus!
