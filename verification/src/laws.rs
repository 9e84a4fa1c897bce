//! What holds of every query, stated over the selection and the lookup that
//! the repositories promise.

use vstd::prelude::*;
use crate::document::{
    decoded, decoded_flags, decoded_id, decoded_matching, encoded, encoded_body, encoded_flags,
    flag_of, flags_in, lemma_sole_field, lemma_sole_flag, record_views, specialty_at, value_of,
    FieldView, ValueView,
};
use crate::filter::{
    first_with_id, has_id, lookup, matching, satisfies, NameMatch, Predicate, SpecialtyClause,
};
use crate::models::{
    is_object_id_text, lemma_codes_distinct, object_id_bytes, Specialties, Specialty, Teacher,
    TeacherView,
};
use crate::text::{contains_ignoring_case, contains_text, equal_ignoring_case, occurs_at, uppercase};

verus! {

/// A query without criteria selects every stored record, in stored order; so
/// its result is empty only where nothing is stored.
pub proof fn law_no_criteria_selects_all(records: Seq<Teacher>, mode: NameMatch)
    ensures
        matching(records, mode, None, None, None) == records,
        matching(records, mode, None, None, None).len() == 0 <==> records.len() == 0,
    decreases records.len(),
{
    reveal(Seq::filter);
    if records.len() > 0 {
        law_no_criteria_selects_all(records.drop_last(), mode);
        assert(records.drop_last().push(records.last()) =~= records);
    }
}

/// A record meets the criteria together exactly when it meets each of them
/// taken alone.
pub proof fn law_criteria_are_conjoined(
    t: Teacher,
    mode: NameMatch,
    name: Option<Seq<char>>,
    surname: Option<Seq<char>>,
    specialty: Option<Seq<char>>,
)
    ensures
        satisfies(t, mode, name, surname, specialty) <==> (satisfies(t, mode, name, None, None)
            && satisfies(t, mode, None, surname, None) && satisfies(
            t,
            mode,
            None,
            None,
            specialty,
        )),
{
}

/// The result holds exactly the stored records that meet every criterion
/// given: each record in it is stored and meets them, and each stored record
/// that meets them is in it.
pub proof fn law_result_is_the_matching_subset(
    records: Seq<Teacher>,
    mode: NameMatch,
    name: Option<Seq<char>>,
    surname: Option<Seq<char>>,
    specialty: Option<Seq<char>>,
)
    ensures
        forall|t: Teacher|
            #[trigger] matching(records, mode, name, surname, specialty).contains(t) <==> (
            records.contains(t) && satisfies(t, mode, name, surname, specialty)),
        matching(records, mode, name, surname, specialty).len() <= records.len(),
{
    let pred = |t: Teacher| satisfies(t, mode, name, surname, specialty);
    let result = matching(records, mode, name, surname, specialty);
    assert(result == records.filter(pred));
    records.lemma_filter_len(pred);
    assert forall|t: Teacher| #[trigger] result.contains(t) <==> (records.contains(t) && satisfies(
        t,
        mode,
        name,
        surname,
        specialty,
    )) by {
        if result.contains(t) {
            let i = choose|i: int| 0 <= i < result.len() && result[i] == t;
            records.lemma_filter_pred(pred, i);
            records.lemma_filter_contains_rev(pred, t);
        }
        if records.contains(t) && pred(t) {
            let j = choose|j: int| 0 <= j < records.len() && records[j] == t;
            records.lemma_filter_contains(pred, j);
        }
    }
}

/// A specialty code outside the fixed set is met by no record: the result is
/// empty, whatever else is asked and whatever is stored.
pub proof fn law_unknown_specialty_selects_nothing(
    records: Seq<Teacher>,
    mode: NameMatch,
    name: Option<Seq<char>>,
    surname: Option<Seq<char>>,
    code: Seq<char>,
)
    requires
        !Specialty::is_code(code),
    ensures
        matching(records, mode, name, surname, Some(code)).len() == 0,
{
    let result = matching(records, mode, name, surname, Some(code));
    law_result_is_the_matching_subset(records, mode, name, surname, Some(code));
    if result.len() > 0 {
        let t = result[0];
        assert(result.contains(t));
        assert(t.specialties.holds_code(code));
    }
}

/// Text that is no identifier finds nothing, whatever is stored. A text whose
/// length is not 24 is such a text, and so is one that holds a character that
/// is no hexadecimal digit.
pub proof fn law_malformed_id_finds_nothing(records: Seq<Teacher>, id: Seq<char>)
    requires
        !is_object_id_text(id),
    ensures
        lookup(records, id) is None,
{
}

/// A well-formed identifier that no stored record carries finds nothing.
pub proof fn law_unassigned_id_finds_nothing(records: Seq<Teacher>, id: Seq<char>)
    requires
        is_object_id_text(id),
        forall|i: int| 0 <= i < records.len() ==> !has_id(#[trigger] records[i], object_id_bytes(id)),
    ensures
        lookup(records, id) is None,
{
    lemma_first_with_id(records, object_id_bytes(id));
}

/// What a lookup finds is a stored record that carries the identifier; and it
/// finds one wherever some stored record carries it.
pub proof fn law_lookup_finds_the_carrier(records: Seq<Teacher>, id: Seq<char>)
    ensures
        lookup(records, id) matches Some(t) ==> is_object_id_text(id) && records.contains(t)
            && has_id(t, object_id_bytes(id)),
        lookup(records, id) is None ==> !is_object_id_text(id) || forall|i: int|
            0 <= i < records.len() ==> !has_id(#[trigger] records[i], object_id_bytes(id)),
{
    lemma_first_with_id(records, object_id_bytes(id));
}

/// The first carrier of an identifier is a carrier among the records, and
/// there is one unless no record carries the identifier.
pub proof fn lemma_first_with_id(records: Seq<Teacher>, bytes: Seq<u8>)
    ensures
        first_with_id(records, bytes) matches Some(t) ==> records.contains(t) && has_id(t, bytes),
        first_with_id(records, bytes) is None <==> forall|i: int|
            0 <= i < records.len() ==> !has_id(#[trigger] records[i], bytes),
    decreases records.len(),
{
    if records.len() > 0 {
        let rest = records.drop_first();
        lemma_first_with_id(rest, bytes);
        if has_id(records.first(), bytes) {
            assert(records[0] == records.first());
        } else {
            match first_with_id(rest, bytes) {
                Some(t) => {
                    let j = choose|j: int| 0 <= j < rest.len() && rest[j] == t;
                    assert(records[j + 1] == t);
                },
                None => {
                    assert forall|i: int| 0 <= i < records.len() implies !has_id(
                        #[trigger] records[i],
                        bytes,
                    ) by {
                        if i > 0 {
                            assert(rest[i - 1] == records[i]);
                        }
                    }
                },
            }
        }
    }
}

/// A stored name that equals the criterion, case ignored, also holds it as a
/// substring: whatever the exact mode selects, the substring mode selects too.
pub proof fn law_exact_match_is_substring_match(stored: Seq<char>, wanted: Seq<char>)
    requires
        equal_ignoring_case(stored, wanted),
    ensures
        contains_ignoring_case(stored, wanted),
{
    let hay = uppercase(stored);
    assert(hay.subrange(0, hay.len() as int) =~= hay);
    assert(occurs_at(hay, uppercase(wanted), 0));
    assert(contains_text(hay, uppercase(wanted)));
}

/// The flags written for a record's specialties read back as those
/// specialties.
pub proof fn law_flags_round_trip(s: Specialties)
    ensures
        decoded_flags(encoded_flags(s)) == Some(s),
{
    lemma_codes_distinct();
    let flags = encoded_flags(s);
    assert forall|i: int, j: int| 0 <= i < 8 && 0 <= j < 8 && j != i implies (#[trigger] flags[j]).key
        != (#[trigger] flags[i]).key by {
        assert(specialty_at(i) != specialty_at(j));
        assert(flags[i].key == specialty_at(i).code());
        assert(flags[j].key == specialty_at(j).code());
    }
    lemma_sole_flag(flags, 0);
    lemma_sole_flag(flags, 1);
    lemma_sole_flag(flags, 2);
    lemma_sole_flag(flags, 3);
    lemma_sole_flag(flags, 4);
    lemma_sole_flag(flags, 5);
    lemma_sole_flag(flags, 6);
    lemma_sole_flag(flags, 7);
}

/// The lengths of the six field names: no two are the same.
proof fn lemma_field_name_lengths()
    ensures
        "_id"@.len() == 3,
        "initial_position"@.len() == 16,
        "name"@.len() == 4,
        "surname"@.len() == 7,
        "has_services"@.len() == 12,
        "specialties"@.len() == 11,
{
    reveal_strlit("_id");
    reveal_strlit("initial_position");
    reveal_strlit("name");
    reveal_strlit("surname");
    reveal_strlit("has_services");
    reveal_strlit("specialties");
}

/// The length of the name of the field that stands `n` places after the
/// identifier's place.
spec fn name_length(n: int) -> nat {
    if n == 0 {
        3
    } else if n == 1 {
        16
    } else if n == 2 {
        4
    } else if n == 3 {
        7
    } else if n == 4 {
        12
    } else {
        11
    }
}

/// A record written as a document reads back as the same record, field for
/// field. A record without an identifier is written without an `_id` field:
/// none stands in its document, under any value.
pub proof fn law_document_round_trip(t: TeacherView)
    ensures
        decoded(encoded(t)) == Some(t),
        t.id is None ==> forall|i: int|
            0 <= i < encoded(t).len() ==> (#[trigger] encoded(t)[i]).key != "_id"@,
        t.id matches Some(id) ==> value_of(encoded(t), "_id"@) == Some(ValueView::Id(id)),
{
    lemma_field_name_lengths();
    law_flags_round_trip(t.specialties);
    let doc = encoded(t);
    let body = encoded_body(t);
    let k: int = if t.id is Some {
        1
    } else {
        0
    };
    assert(body.len() == 5);
    assert(doc.len() == k + 5);
    assert(body[0].key == "initial_position"@ && body[1].key == "name"@ && body[2].key
        == "surname"@ && body[3].key == "has_services"@ && body[4].key == "specialties"@);
    assert forall|i: int| k <= i < doc.len() implies #[trigger] doc[i] == body[i - k] by {}
    assert forall|i: int| 0 <= i < doc.len() implies (#[trigger] doc[i]).key.len() == name_length(
        i - k + 1,
    ) by {
        if i >= k {
            assert(doc[i] == body[i - k]);
        }
    }
    if t.id is Some {
        lemma_sole_field(doc, 0);
    } else {
        assert(value_of(doc, "_id"@) is None);
    }
    lemma_sole_field(doc, k);
    lemma_sole_field(doc, k + 1);
    lemma_sole_field(doc, k + 2);
    lemma_sole_field(doc, k + 3);
    lemma_sole_field(doc, k + 4);
    assert(doc[k] == body[0] && doc[k + 1] == body[1] && doc[k + 2] == body[2] && doc[k + 3]
        == body[3] && doc[k + 4] == body[4]);
}

/// A stored document that holds a record, read and written out again, shows
/// what it held: the same identifier or none, the same four plain fields,
/// and the same flag for every specialty. What it held besides is dropped.
pub proof fn law_stored_fields_survive(doc: Seq<FieldView>, t: TeacherView)
    requires
        decoded(doc) == Some(t),
    ensures
        decoded_id(encoded(t)) == decoded_id(doc),
        t.id is None ==> value_of(encoded(t), "_id"@) is None,
        value_of(encoded(t), "initial_position"@) == value_of(doc, "initial_position"@),
        value_of(encoded(t), "name"@) == value_of(doc, "name"@),
        value_of(encoded(t), "surname"@) == value_of(doc, "surname"@),
        value_of(encoded(t), "has_services"@) == value_of(doc, "has_services"@),
        forall|s: Specialty|
            flag_of(flags_in(encoded(t)), #[trigger] s.code()) == flag_of(flags_in(doc), s.code()),
{
    law_document_round_trip(t);
    let back = encoded(t);
    assert(decoded(back) == Some(t));
    assert(decoded_flags(flags_in(doc)) == Some(t.specialties));
    assert(decoded_flags(flags_in(back)) == Some(t.specialties));
    assert forall|s: Specialty|
        flag_of(flags_in(back), #[trigger] s.code()) == flag_of(flags_in(doc), s.code()) by {
        match s {
            Specialty::Inf => {},
            Specialty::Pri => {},
            Specialty::Ing => {},
            Specialty::Fra => {},
            Specialty::Ef => {},
            Specialty::Pt => {},
            Specialty::Al => {},
            Specialty::Mus => {},
        }
    }
}

/// A stored document that holds a record meets a predicate exactly when
/// that record meets it: to select among documents and then read them gives
/// what reading them all and then selecting gives.
pub proof fn law_document_meets_what_its_record_meets(
    p: Predicate,
    doc: Seq<FieldView>,
    t: Teacher,
)
    requires
        decoded(doc) == Some(t@),
    ensures
        p.accepts_document(doc) == p.accepts(t),
{
    assert(decoded_flags(flags_in(doc)) == Some(t.specialties));
    match p.specialty {
        Some(SpecialtyClause::Requires(s)) => {
            match s {
                Specialty::Inf => {},
                Specialty::Pri => {},
                Specialty::Ing => {},
                Specialty::Fra => {},
                Specialty::Ef => {},
                Specialty::Pt => {},
                Specialty::Al => {},
                Specialty::Mus => {},
            }
            assert(flag_of(flags_in(doc), s.code()) == Some(t.specialties.holds(s)));
        },
        _ => {},
    }
}

/// Where every stored document holds a record, reading only the documents
/// that meet a predicate gives the records that the predicate selects, in
/// stored order, and never fails.
pub proof fn law_selective_reading_selects(
    p: Predicate,
    docs: Seq<Seq<FieldView>>,
    records: Seq<Teacher>,
)
    requires
        docs.len() == records.len(),
        forall|i: int| 0 <= i < docs.len() ==> decoded(#[trigger] docs[i]) == Some(records[i]@),
    ensures
        decoded_matching(docs, p) == Some(record_views(p.selected(records))),
    decreases docs.len(),
{
    reveal(Seq::filter);
    if docs.len() == 0 {
        assert(record_views(p.selected(records)) =~= Seq::<TeacherView>::empty());
    } else {
        law_selective_reading_selects(p, docs.drop_last(), records.drop_last());
        law_document_meets_what_its_record_meets(p, docs.last(), records.last());
        let before = p.selected(records.drop_last());
        if p.accepts(records.last()) {
            assert(record_views(before.push(records.last())) =~= record_views(before).push(
                records.last()@,
            ));
        }
    }
}

} // verus!
