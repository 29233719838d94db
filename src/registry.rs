//! The student repository: the records of all students, with unique usernames
//! and unique matriculation numbers enforced by each operation as one step.
use vstd::prelude::*;
use crate::error::EnrollError;
use crate::student::{Student, StudentView};

verus! {

/// Index of the last record that satisfies `p`, or -1 where none does.
pub open spec fn last_index(s: Seq<StudentView>, p: spec_fn(StudentView) -> bool) -> int
    decreases s.len(),
{
    if s.len() == 0 {
        -1
    } else if p(s.last()) {
        s.len() - 1
    } else {
        last_index(s.drop_last(), p)
    }
}

pub open spec fn lookup(s: Seq<StudentView>, p: spec_fn(StudentView) -> bool) -> Option<StudentView> {
    let i = last_index(s, p);
    if 0 <= i { Some(s[i]) } else { None }
}

pub open spec fn with_username(u: Seq<char>) -> spec_fn(StudentView) -> bool {
    |r: StudentView| r.username == u
}

pub open spec fn with_matric(t: Seq<char>) -> spec_fn(StudentView) -> bool {
    |r: StudentView| r.matric_number == Some(t)
}

/// How many records hold a matriculation number.
pub open spec fn matric_count(s: Seq<StudentView>) -> nat
    decreases s.len(),
{
    if s.len() == 0 {
        0
    } else {
        matric_count(s.drop_last()) + if s.last().matric_number is Some { 1nat } else { 0nat }
    }
}

/// Usernames unique, assigned matriculation numbers unique, ids equal to the
/// position of creation, and room for one more count.
pub open spec fn records_wf(s: Seq<StudentView>) -> bool {
    &&& s.len() < usize::MAX
    &&& forall|i: int, j: int| 0 <= i < j < s.len() ==> (#[trigger] s[i]).username != (#[trigger] s[j]).username
    &&& forall|i: int, j: int|
        0 <= i < j < s.len() && (#[trigger] s[i]).matric_number is Some
            ==> s[i].matric_number != (#[trigger] s[j]).matric_number
    &&& forall|i: int| 0 <= i < s.len() ==> (#[trigger] s[i]).id == i
}

/// The record that registration creates at position `id`.
pub open spec fn new_record(id: nat, username: Seq<char>, digest: Seq<char>, name: Seq<char>) -> StudentView {
    StudentView { id: id as u128, username, password_hash: digest, name, matric_number: None }
}

/// `r` with its matriculation number set to `t`.
pub open spec fn matriculated(r: StudentView, t: Seq<char>) -> StudentView {
    StudentView { matric_number: Some(t), ..r }
}

/// The conditional update applies: the student exists, holds no number yet,
/// and no student holds `t`.
pub open spec fn assignable(s: Seq<StudentView>, u: Seq<char>, t: Seq<char>) -> bool {
    &&& lookup(s, with_username(u)) is Some
    &&& lookup(s, with_username(u))->Some_0.matric_number is None
    &&& lookup(s, with_matric(t)) is None
}

/// The records after a successful assignment of `t` to `u`.
pub open spec fn assigned(s: Seq<StudentView>, u: Seq<char>, t: Seq<char>) -> Seq<StudentView> {
    let i = last_index(s, with_username(u));
    s.update(i, matriculated(s[i], t))
}

pub proof fn lemma_last_index(s: Seq<StudentView>, p: spec_fn(StudentView) -> bool)
    ensures
        -1 <= last_index(s, p) < s.len(),
        0 <= last_index(s, p) ==> p(s[last_index(s, p)]),
        forall|k: int| last_index(s, p) < k < s.len() ==> !p(#[trigger] s[k]),
    decreases s.len(),
{
    if s.len() > 0 && !p(s.last()) {
        lemma_last_index(s.drop_last(), p);
        assert forall|k: int| last_index(s, p) < k < s.len() implies !p(#[trigger] s[k]) by {
            if k < s.len() - 1 {
                assert(s[k] == s.drop_last()[k]);
            }
        }
    }
}

proof fn lemma_take_step(s: Seq<StudentView>, i: int)
    requires
        0 < i <= s.len(),
    ensures
        s.take(i).drop_last() =~= s.take(i - 1),
        s.take(i).last() == s[i - 1],
{
}

/// What a search of the records compares against.
enum Key<'a> {
    Username(&'a String),
    Matric(&'a String),
}

impl<'a> Key<'a> {
    spec fn pred(self) -> spec_fn(StudentView) -> bool {
        match self {
            Key::Username(u) => with_username(u@),
            Key::Matric(t) => with_matric(t@),
        }
    }
}

pub struct StudentRegistry {
    students: Vec<Student>,
}

impl View for StudentRegistry {
    type V = Seq<StudentView>;

    closed spec fn view(&self) -> Seq<StudentView> {
        self.students@.map_values(|s: Student| s@)
    }
}

impl StudentRegistry {
    pub open spec fn wf(&self) -> bool {
        records_wf(self@)
    }

    /// An empty directory.
    pub fn new() -> (r: StudentRegistry)
        ensures
            r@ == Seq::<StudentView>::empty(),
            r.wf(),
    {
        let r = StudentRegistry { students: Vec::new() };
        assert(r@ =~= Seq::<StudentView>::empty());
        r
    }

    fn position(&self, key: Key) -> (r: Option<usize>)
        ensures
            self@.len() == self.students@.len(),
            r matches Some(i) ==> i as int == last_index(self@, key.pred()) && i < self@.len(),
            r is None ==> last_index(self@, key.pred()) == -1,
    {
        let ghost s = self@;
        let ghost p = key.pred();
        let mut i: usize = self.students.len();
        assert(s.take(i as int) =~= s);
        while i > 0
            invariant
                i <= s.len(),
                s == self@,
                p == key.pred(),
                s.len() == self.students@.len(),
                last_index(s, p) == last_index(s.take(i as int), p),
            decreases i,
        {
            proof { lemma_take_step(s, i as int); }
            let st = &self.students[i - 1];
            assert(st@ == s[i - 1]);
            let hit = match key {
                Key::Username(u) => st.username == *u,
                Key::Matric(t) => match &st.matric_number {
                    Some(m) => *m == *t,
                    None => false,
                },
            };
            assert(hit == p(s[i - 1]));
            if hit {
                return Some(i - 1);
            }
            i = i - 1;
        }
        None
    }

    /// The student with this username, if any.
    pub fn find_by_username(&self, username: &String) -> (r: Option<&Student>)
        ensures
            r matches Some(st) ==> lookup(self@, with_username(username@)) == Some(st@),
            r is None ==> lookup(self@, with_username(username@)) is None,
    {
        match self.position(Key::Username(username)) {
            Some(i) => Some(&self.students[i]),
            None => None,
        }
    }

    /// The student holding this matriculation number, if any.
    pub fn find_by_matric(&self, matric_number: &String) -> (r: Option<&Student>)
        ensures
            r matches Some(st) ==> lookup(self@, with_matric(matric_number@)) == Some(st@),
            r is None ==> lookup(self@, with_matric(matric_number@)) is None,
    {
        match self.position(Key::Matric(matric_number)) {
            Some(i) => Some(&self.students[i]),
            None => None,
        }
    }

    /// Every record, in order of creation.
    pub fn list_all(&self) -> (r: &Vec<Student>)
        ensures
            r@.map_values(|s: Student| s@) == self@,
    {
        &self.students
    }

    /// How many students hold a matriculation number.
    pub fn matriculated_count(&self) -> (r: usize)
        requires
            self.wf(),
        ensures
            r == matric_count(self@),
            r < usize::MAX,
    {
        let ghost s = self@;
        let mut n: usize = 0;
        let mut i: usize = 0;
        while i < self.students.len()
            invariant
                i <= s.len(),
                s == self@,
                s.len() == self.students@.len(),
                s.len() < usize::MAX,
                n == matric_count(s.take(i as int)),
                n <= i,
            decreases s.len() - i,
        {
            proof { lemma_take_step(s, i as int + 1); }
            if self.students[i].matric_number.is_some() {
                n = n + 1;
            }
            i = i + 1;
        }
        assert(s.take(i as int) =~= s);
        n
    }

    /// Inserts a new, unmatriculated student. Fails with `DuplicateUsername`
    /// where the username is taken, and with `StorageError` where the directory
    /// is full; either way nothing changes.
    pub fn create(&mut self, username: String, password_hash: String, name: String) -> (r: Result<Student, EnrollError>)
        requires
            old(self).wf(),
        ensures
            final(self).wf(),
            lookup(old(self)@, with_username(username@)) is Some ==> r == Err::<Student, EnrollError>(EnrollError::DuplicateUsername) && final(self)@ == old(self)@,
            lookup(old(self)@, with_username(username@)) is None && old(self)@.len() + 2 >= usize::MAX
                ==> r == Err::<Student, EnrollError>(EnrollError::StorageError) && final(self)@ == old(self)@,
            lookup(old(self)@, with_username(username@)) is None && old(self)@.len() + 2 < usize::MAX ==> {
                let rec = new_record(old(self)@.len(), username@, password_hash@, name@);
                &&& r is Ok
                &&& r->Ok_0@ == rec
                &&& final(self)@ == old(self)@.push(rec)
            },
    {
        let ghost s = self@;
        if self.position(Key::Username(&username)).is_some() {
            return Err(EnrollError::DuplicateUsername);
        }
        proof { lemma_last_index(s, with_username(username@)); }
        let len = self.students.len();
        if len >= usize::MAX - 2 {
            return Err(EnrollError::StorageError);
        }
        let st = Student { id: len as u128, username, password_hash, name, matric_number: None };
        let out = st.duplicate();
        self.students.push(st);
        assert(self@ =~= s.push(out@));
        Ok(out)
    }

    /// Sets the matriculation number of `username` to `token` as one step.
    /// Fails with `AssignmentConflict`, changing nothing, where the student is
    /// missing, already has a number, or `token` is held by another student.
    pub fn assign_matric(&mut self, username: &String, token: String) -> (r: Result<Student, EnrollError>)
        requires
            old(self).wf(),
        ensures
            final(self).wf(),
            assignable(old(self)@, username@, token@) ==> {
                let i = last_index(old(self)@, with_username(username@));
                &&& r is Ok
                &&& final(self)@ == assigned(old(self)@, username@, token@)
                &&& r->Ok_0@ == final(self)@[i]
            },
            !assignable(old(self)@, username@, token@)
                ==> r == Err::<Student, EnrollError>(EnrollError::AssignmentConflict) && final(self)@ == old(self)@,
    {
        let ghost s = self@;
        proof { lemma_last_index(s, with_username(username@)); }
        let pos = self.position(Key::Username(username));
        let i = match pos {
            Some(i) => i,
            None => return Err(EnrollError::AssignmentConflict),
        };
        if self.students[i].matric_number.is_some() {
            return Err(EnrollError::AssignmentConflict);
        }
        if self.position(Key::Matric(&token)).is_some() {
            return Err(EnrollError::AssignmentConflict);
        }
        proof { lemma_last_index(s, with_matric(token@)); }
        let old_st = &self.students[i];
        let updated = Student {
            id: old_st.id,
            username: old_st.username.clone(),
            password_hash: old_st.password_hash.clone(),
            name: old_st.name.clone(),
            matric_number: Some(token),
        };
        let out = updated.duplicate();
        self.students.set(i, updated);
        assert(self@ =~= assigned(s, username@, token@));
        proof {
            let t = self@;
            assert forall|a: int, b: int| 0 <= a < b < t.len() && (#[trigger] t[a]).matric_number is Some
                implies t[a].matric_number != (#[trigger] t[b]).matric_number by {
                if a != i && b != i {
                    assert(s[a] == t[a] && s[b] == t[b]);
                }
            }
        }
        Ok(out)
    }
}

} // verus!
