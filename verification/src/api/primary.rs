//! Teachers: the repository and what a caller is told. The name criterion is
//! searched as a substring of the stored name.

use vstd::prelude::*;
use crate::db::mongodb::MongoError;
use crate::error::{list_outcome, single_outcome, AppError};
use crate::filter::{
    borrowed, find_by_id, find_matching, lookup, matching, owned_text_of, satisfies, text_of,
    NameMatch, Predicate,
};
use crate::models::{is_object_id_text, Teacher};

verus! {

/// Read access to stored teachers.
pub trait UserRepository {
    /// What a failing store reports.
    type Error;

    /// The stored records, in stored order.
    spec fn records(&self) -> Seq<Teacher>;

    /// Whether the store answers. Where it does, no query fails.
    spec fn answers(&self) -> bool;

    /// The teachers that meet every criterion given: `name` and `surname` as
    /// substrings, case ignored, and the flag of `specialty` set. No match is
    /// an empty result, not a failure.
    fn find_teachers(
        &self,
        name: Option<&str>,
        surname: Option<&str>,
        specialty: Option<&str>,
    ) -> (r: Result<Vec<Teacher>, Self::Error>)
        ensures
            r matches Ok(found) ==> found@ == matching(
                self.records(),
                NameMatch::Substring,
                text_of(name),
                text_of(surname),
                text_of(specialty),
            ),
            self.answers() ==> r is Ok,
    ;

    /// The teacher with this identifier. Text that is no identifier finds
    /// nothing and is never a failure: no store is asked about it. An
    /// identifier that no record carries finds nothing either.
    fn find_teacher_by_id(&self, id: &str) -> (r: Result<Option<Teacher>, Self::Error>)
        ensures
            r matches Ok(found) ==> found == lookup(self.records(), id@),
            !is_object_id_text(id@) ==> r is Ok,
            self.answers() ==> r is Ok,
    ;
}

/// The teachers of one MongoDB collection, as read from it.
pub struct MongoUserRepository {
    collection: Vec<Teacher>,
}

impl MongoUserRepository {
    /// A repository over the documents of a collection. They are at hand, so
    /// it always answers.
    pub fn new(collection: Vec<Teacher>) -> (r: Self)
        ensures
            r.records() == collection@,
            r.answers(),
    {
        Self { collection }
    }
}

impl UserRepository for MongoUserRepository {
    type Error = MongoError;

    closed spec fn records(&self) -> Seq<Teacher> {
        self.collection@
    }

    open spec fn answers(&self) -> bool {
        true
    }

    fn find_teachers(
        &self,
        name: Option<&str>,
        surname: Option<&str>,
        specialty: Option<&str>,
    ) -> (r: Result<Vec<Teacher>, Self::Error>)
        ensures
            r is Ok,
    {
        Ok(find_matching(&self.collection, NameMatch::Substring, name, surname, specialty))
    }

    fn find_teacher_by_id(&self, id: &str) -> (r: Result<Option<Teacher>, Self::Error>)
        ensures
            r is Ok,
    {
        Ok(find_by_id(&self.collection, id))
    }
}

/// The criteria of a list query; each may be absent.
#[derive(Debug, Clone, PartialEq, Eq)]
pub struct TeacherQuery {
    /// Part of the first name, case ignored.
    pub name: Option<String>,
    /// Part of the last name, case ignored.
    pub surname: Option<String>,
    /// The code of a specialty that must be held.
    pub specialty: Option<String>,
}

/// The predicate that a query asks for.
pub fn teacher_predicate(query: &TeacherQuery) -> (p: Predicate)
    ensures
        p.mode == NameMatch::Substring,
        forall|t: Teacher|
            #[trigger] p.accepts(t) == satisfies(
                t,
                NameMatch::Substring,
                owned_text_of(query.name),
                owned_text_of(query.surname),
                owned_text_of(query.specialty),
            ),
{
    Predicate::build(
        NameMatch::Substring,
        borrowed(&query.name),
        borrowed(&query.surname),
        borrowed(&query.specialty),
    )
}

/// Lists the teachers that a query selects. Where the store answers, the list
/// comes back if it holds a record and `NotFound` if it holds none; a failing
/// store is answered with `InternalError`.
pub fn get_teachers<R: UserRepository>(repo: &R, query: &TeacherQuery) -> (r: Result<
    Vec<Teacher>,
    AppError,
>)
    ensures
        repo.answers() ==> (r is Ok <==> matching(
            repo.records(),
            NameMatch::Substring,
            owned_text_of(query.name),
            owned_text_of(query.surname),
            owned_text_of(query.specialty),
        ).len() > 0),
        repo.answers() ==> (r == Err::<Vec<Teacher>, AppError>(AppError::NotFound) <==> matching(
            repo.records(),
            NameMatch::Substring,
            owned_text_of(query.name),
            owned_text_of(query.surname),
            owned_text_of(query.specialty),
        ).len() == 0),
        match r {
            Ok(found) => found@.len() > 0 && found@ == matching(
                repo.records(),
                NameMatch::Substring,
                owned_text_of(query.name),
                owned_text_of(query.surname),
                owned_text_of(query.specialty),
            ),
            Err(e) => e == AppError::InternalError || (e == AppError::NotFound && matching(
                repo.records(),
                NameMatch::Substring,
                owned_text_of(query.name),
                owned_text_of(query.surname),
                owned_text_of(query.specialty),
            ).len() == 0),
        },
{
    let found = repo.find_teachers(
        borrowed(&query.name),
        borrowed(&query.surname),
        borrowed(&query.specialty),
    );
    list_outcome(found)
}

/// Fetches one teacher by identifier. An absent record and text that is no
/// identifier are both answered with `NotFound`, the second whatever the
/// state of the store; where the store answers, a record that carries the
/// identifier comes back. A failing store is answered with `InternalError`.
pub fn get_teacher_by_id<R: UserRepository>(repo: &R, id: &str) -> (r: Result<Teacher, AppError>)
    ensures
        !is_object_id_text(id@) ==> r == Err::<Teacher, AppError>(AppError::NotFound),
        repo.answers() ==> match lookup(repo.records(), id@) {
            Some(found) => r == Ok::<Teacher, AppError>(found),
            None => r == Err::<Teacher, AppError>(AppError::NotFound),
        },
        match r {
            Ok(found) => lookup(repo.records(), id@) == Some(found),
            Err(e) => e == AppError::InternalError || (e == AppError::NotFound && lookup(
                repo.records(),
                id@,
            ) is None),
        },
{
    let found = repo.find_teacher_by_id(id);
    single_outcome(found)
}

} // verus!
