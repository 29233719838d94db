//! The enrollment operations, and the decisions that turn store results into
//! outcomes. The operations act on a `StudentRegistry`; a caller that keeps its
//! records elsewhere reuses the outcome functions on what its store returned.
use vstd::prelude::*;
use crate::error::EnrollError;
use crate::matric::{matric_token_of, next_matric_token};
use crate::password::{bcrypt_verdict, cost_allowed, hash_password, verify_password};
use crate::registry::{assignable, assigned, last_index, lookup, matric_count, new_record, with_matric, with_username, StudentRegistry};
use crate::student::{profile_of, profiles, ProfileView, Student, StudentResponse, StudentView};

verus! {

/// Work factor used for new password digests: bcrypt's own default.
pub const DEFAULT_COST: u32 = 12;

pub open spec fn outcome_view(r: Result<StudentResponse, EnrollError>) -> Result<ProfileView, EnrollError> {
    match r {
        Ok(p) => Ok(p@),
        Err(e) => Err(e),
    }
}

pub open spec fn found_view(found: Option<&Student>) -> Option<StudentView> {
    match found {
        Some(s) => Some(s@),
        None => None,
    }
}

/// A login against the record found for the username, if any: unknown users
/// and wrong passwords both give `Unauthorized`.
pub open spec fn login_outcome(found: Option<StudentView>, password: Seq<char>) -> Result<ProfileView, EnrollError> {
    match found {
        None => Err(EnrollError::Unauthorized),
        Some(rec) => if bcrypt_verdict(password, rec.password_hash) == Some(true) {
            Ok(profile_of(rec))
        } else {
            Err(EnrollError::Unauthorized)
        },
    }
}

pub open spec fn login_result(s: Seq<StudentView>, username: Seq<char>, password: Seq<char>) -> Result<ProfileView, EnrollError> {
    login_outcome(lookup(s, with_username(username)), password)
}

/// The sequence number proposed next: one more than the matriculated count.
pub open spec fn next_token(s: Seq<StudentView>) -> Seq<char> {
    matric_token_of(matric_count(s) + 1)
}

/// `after` is `before` with one new record for `username`, whose digest bcrypt
/// accepts for `password`.
pub open spec fn registered(before: Seq<StudentView>, after: Seq<StudentView>, username: Seq<char>, password: Seq<char>, name: Seq<char>) -> bool {
    &&& lookup(before, with_username(username)) is None
    &&& after.len() == before.len() + 1
    &&& after.drop_last() == before
    &&& after.last() == new_record(before.len(), username, after.last().password_hash, name)
    &&& bcrypt_verdict(password, after.last().password_hash) == Some(true)
}

pub open spec fn matric_lookup_outcome(found: Option<StudentView>) -> Result<ProfileView, EnrollError> {
    match found {
        None => Err(EnrollError::NotFound),
        Some(rec) => Ok(profile_of(rec)),
    }
}

pub open spec fn assignment_result(updated: Option<StudentView>) -> Result<ProfileView, EnrollError> {
    match updated {
        None => Err(EnrollError::AssignmentConflict),
        Some(rec) => Ok(profile_of(rec)),
    }
}

/// Decides a login from the record stored under the username, if any.
pub fn check_login(found: Option<&Student>, password: &str) -> (r: Result<StudentResponse, EnrollError>)
    ensures
        outcome_view(r) == login_outcome(found_view(found), password@),
{
    match found {
        None => Err(EnrollError::Unauthorized),
        Some(st) => {
            if verify_password(password, st.password_hash.as_str()) {
                Ok(st.to_response())
            } else {
                Err(EnrollError::Unauthorized)
            }
        },
    }
}

/// The profile of the student found by matriculation number, or `NotFound`.
pub fn lookup_outcome(found: Option<&Student>) -> (r: Result<StudentResponse, EnrollError>)
    ensures
        outcome_view(r) == matric_lookup_outcome(found_view(found)),
{
    match found {
        None => Err(EnrollError::NotFound),
        Some(st) => Ok(st.to_response()),
    }
}

/// The profile of the record a conditional update changed, or
/// `AssignmentConflict` where it changed none.
pub fn assignment_outcome(updated: Option<&Student>) -> (r: Result<StudentResponse, EnrollError>)
    ensures
        outcome_view(r) == assignment_result(found_view(updated)),
{
    match updated {
        None => Err(EnrollError::AssignmentConflict),
        Some(st) => Ok(st.to_response()),
    }
}

/// Registers a student: hashes the password with work factor `cost`, then
/// inserts the record. Nothing changes on failure.
pub fn create_student(reg: &mut StudentRegistry, username: String, password: String, name: String, cost: u32) -> (r: Result<StudentResponse, EnrollError>)
    requires
        old(reg).wf(),
    ensures
        final(reg).wf(),
        r is Err ==> final(reg)@ == old(reg)@,
        !cost_allowed(cost) ==> r == Err::<StudentResponse, EnrollError>(EnrollError::HashingError),
        lookup(old(reg)@, with_username(username@)) is Some ==> r is Err,
        lookup(old(reg)@, with_username(username@)) is Some && r != Err::<StudentResponse, EnrollError>(EnrollError::HashingError)
            ==> r == Err::<StudentResponse, EnrollError>(EnrollError::DuplicateUsername),
        lookup(old(reg)@, with_username(username@)) is None && old(reg)@.len() + 2 < usize::MAX
            ==> r is Ok || r == Err::<StudentResponse, EnrollError>(EnrollError::HashingError),
        r is Ok ==> registered(old(reg)@, final(reg)@, username@, password@, name@)
            && r->Ok_0@ == profile_of(final(reg)@.last()),
{
    let digest = match hash_password(password.as_str(), cost) {
        Ok(d) => d,
        Err(e) => return Err(e),
    };
    let ghost before = reg@;
    let ghost d = digest@;
    match reg.create(username, digest, name) {
        Ok(st) => {
            assert(reg@.drop_last() =~= before);
            assert(reg@.last().password_hash == d);
            Ok(st.to_response())
        },
        Err(e) => Err(e),
    }
}

/// Logs in: the profile of the student whose stored digest matches `password`.
pub fn login(reg: &StudentRegistry, username: &String, password: &String) -> (r: Result<StudentResponse, EnrollError>)
    ensures
        outcome_view(r) == login_result(reg@, username@, password@),
{
    check_login(reg.find_by_username(username), password.as_str())
}

/// Gives `username` the next matriculation number: one more than the count of
/// matriculated students, as a token. Fails with `AssignmentConflict`,
/// changing nothing, where the conditional update does not apply; it does not
/// retry with another number.
pub fn assign_matric_number(reg: &mut StudentRegistry, username: &String) -> (r: Result<StudentResponse, EnrollError>)
    requires
        old(reg).wf(),
    ensures
        final(reg).wf(),
        assignable(old(reg)@, username@, next_token(old(reg)@)) ==> {
            &&& final(reg)@ == assigned(old(reg)@, username@, next_token(old(reg)@))
            &&& outcome_view(r) == Ok::<ProfileView, EnrollError>(
                profile_of(final(reg)@[last_index(old(reg)@, with_username(username@))]))
        },
        !assignable(old(reg)@, username@, next_token(old(reg)@)) ==> r == Err::<StudentResponse, EnrollError>(
            EnrollError::AssignmentConflict) && final(reg)@ == old(reg)@,
{
    let count = reg.matriculated_count();
    let token = next_matric_token(count);
    match reg.assign_matric(username, token) {
        Ok(st) => Ok(st.to_response()),
        Err(e) => Err(e),
    }
}

/// The profile of the student holding `matric_number`, or `NotFound`.
pub fn get_student_by_matric(reg: &StudentRegistry, matric_number: &String) -> (r: Result<StudentResponse, EnrollError>)
    ensures
        outcome_view(r) == matric_lookup_outcome(lookup(reg@, with_matric(matric_number@))),
{
    lookup_outcome(reg.find_by_matric(matric_number))
}

/// The profiles of all students, in order of registration.
pub fn list_students(reg: &StudentRegistry) -> (r: Vec<StudentResponse>)
    ensures
        r@.len() == reg@.len(),
        forall|i: int| 0 <= i < r@.len() ==> (#[trigger] r@[i])@ == profile_of(reg@[i]),
{
    let all = reg.list_all();
    let r = profiles(all);
    assert forall|i: int| 0 <= i < r@.len() implies (#[trigger] r@[i])@ == profile_of(reg@[i]) by {
        assert(all@.map_values(|s: Student| s@)[i] == all@[i]@);
    }
    r
}

} // verus!
