//! The student record and the public profile derived from it.
use vstd::prelude::*;

verus! {

/// A stored student. `password_hash` and `id` never leave the library's callers
/// through a profile.
pub struct Student {
    pub id: u128,
    pub username: String,
    pub password_hash: String,
    pub name: String,
    pub matric_number: Option<String>,
}

pub struct StudentView {
    pub id: u128,
    pub username: Seq<char>,
    pub password_hash: Seq<char>,
    pub name: Seq<char>,
    pub matric_number: Option<Seq<char>>,
}

/// The public fields of a student.
pub struct StudentResponse {
    pub username: String,
    pub name: String,
    pub matric_number: Option<String>,
}

pub struct ProfileView {
    pub username: Seq<char>,
    pub name: Seq<char>,
    pub matric_number: Option<Seq<char>>,
}

pub open spec fn opt_view(o: Option<String>) -> Option<Seq<char>> {
    match o {
        Some(s) => Some(s@),
        None => None,
    }
}

impl View for Student {
    type V = StudentView;

    open spec fn view(&self) -> StudentView {
        StudentView {
            id: self.id,
            username: self.username@,
            password_hash: self.password_hash@,
            name: self.name@,
            matric_number: opt_view(self.matric_number),
        }
    }
}

impl View for StudentResponse {
    type V = ProfileView;

    open spec fn view(&self) -> ProfileView {
        ProfileView {
            username: self.username@,
            name: self.name@,
            matric_number: opt_view(self.matric_number),
        }
    }
}

/// What a profile shows of a record.
pub open spec fn profile_of(s: StudentView) -> ProfileView {
    ProfileView { username: s.username, name: s.name, matric_number: s.matric_number }
}

pub fn copy_matric(m: &Option<String>) -> (r: Option<String>)
    ensures
        opt_view(r) == opt_view(*m),
{
    match m {
        Some(s) => Some(s.clone()),
        None => None,
    }
}

impl Student {
    /// The profile of this student, without the password hash or the id.
    pub fn to_response(&self) -> (r: StudentResponse)
        ensures
            r@ == profile_of(self@),
    {
        StudentResponse {
            username: self.username.clone(),
            name: self.name.clone(),
            matric_number: copy_matric(&self.matric_number),
        }
    }

    /// An equal, independent copy of this record.
    pub fn duplicate(&self) -> (r: Student)
        ensures
            r@ == self@,
    {
        Student {
            id: self.id,
            username: self.username.clone(),
            password_hash: self.password_hash.clone(),
            name: self.name.clone(),
            matric_number: copy_matric(&self.matric_number),
        }
    }
}

/// The profiles of `students`, in the same order.
pub fn profiles(students: &Vec<Student>) -> (r: Vec<StudentResponse>)
    ensures
        r@.len() == students@.len(),
        forall|i: int| 0 <= i < r@.len() ==> (#[trigger] r@[i])@ == profile_of(students@[i]@),
{
    let mut out: Vec<StudentResponse> = Vec::new();
    let mut i: usize = 0;
    while i < students.len()
        invariant
            i <= students@.len(),
            out@.len() == i,
            forall|k: int| 0 <= k < i ==> (#[trigger] out@[k])@ == profile_of(students@[k]@),
        decreases students@.len() - i,
    {
        out.push(students[i].to_response());
        i = i + 1;
    }
    out
}

} // verus!
