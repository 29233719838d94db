//! Properties that relate several operations of the directory.
use vstd::prelude::*;
use crate::error::EnrollError;
use crate::matric::{lemma_token_order, token_number};
use crate::password::bcrypt_verdict;
use crate::registry::{
    assignable, assigned, last_index, lemma_last_index, lookup, matric_count, matriculated,
    records_wf, with_matric, with_username,
};
use crate::service::{login_result, next_token, registered};
use crate::student::{ProfileView, StudentView};

verus! {

/// After a successful registration, logging in with the same username and
/// password succeeds and shows the registered username and name.
pub proof fn lemma_login_after_registration(
    before: Seq<StudentView>,
    after: Seq<StudentView>,
    username: Seq<char>,
    password: Seq<char>,
    name: Seq<char>,
)
    requires
        registered(before, after, username, password, name),
    ensures
        login_result(after, username, password) == Ok::<ProfileView, EnrollError>(
            ProfileView { username, name, matric_number: None }),
{
    assert(with_username(username)(after.last()));
}

/// A wrong password for an existing student fails with `Unauthorized`, the
/// same outcome as a login under a username that no student has.
pub proof fn lemma_wrong_password_like_unknown_user(
    s: Seq<StudentView>,
    username: Seq<char>,
    password: Seq<char>,
    unknown: Seq<char>,
    any_password: Seq<char>,
)
    requires
        lookup(s, with_username(username)) is Some,
        bcrypt_verdict(password, lookup(s, with_username(username))->Some_0.password_hash) != Some(true),
        lookup(s, with_username(unknown)) is None,
    ensures
        login_result(s, username, password) == Err::<ProfileView, EnrollError>(EnrollError::Unauthorized),
        login_result(s, username, password) == login_result(s, unknown, any_password),
{
}

/// Setting a missing number on one record adds one to the matriculated count.
pub proof fn lemma_count_after_assignment(s: Seq<StudentView>, i: int, r: StudentView)
    requires
        0 <= i < s.len(),
        s[i].matric_number is None,
        r.matric_number is Some,
    ensures
        matric_count(s.update(i, r)) == matric_count(s) + 1,
    decreases s.len(),
{
    let t = s.update(i, r);
    if i == s.len() - 1 {
        assert(t.drop_last() =~= s.drop_last());
    } else {
        assert(t.drop_last() =~= s.drop_last().update(i, r));
        lemma_count_after_assignment(s.drop_last(), i, r);
    }
}

/// A run of successful assignments, each with the token proposed from the
/// state before it.
pub open spec fn assignment_run(states: Seq<Seq<StudentView>>, users: Seq<Seq<char>>) -> bool {
    &&& states.len() == users.len() + 1
    &&& forall|k: int| 0 <= k < users.len() ==> {
        &&& assignable(#[trigger] states[k], users[k], next_token(states[k]))
        &&& states[k + 1] == assigned(states[k], users[k], next_token(states[k]))
    }
}

proof fn lemma_run_counts(states: Seq<Seq<StudentView>>, users: Seq<Seq<char>>, k: int)
    requires
        assignment_run(states, users),
        0 <= k <= users.len(),
    ensures
        matric_count(states[k]) == matric_count(states[0]) + k,
    decreases k,
{
    if k > 0 {
        lemma_run_counts(states, users, k - 1);
        let s = states[k - 1];
        let u = users[k - 1];
        assert(assignable(states[k - 1], u, next_token(s)));
        lemma_last_index(s, with_username(u));
        let i = last_index(s, with_username(u));
        lemma_count_after_assignment(s, i, matriculated(s[i], next_token(s)));
    }
}

/// Tokens handed out by successive successful assignments are pairwise
/// distinct and carry strictly increasing numbers.
pub proof fn lemma_sequential_tokens_increase(states: Seq<Seq<StudentView>>, users: Seq<Seq<char>>)
    requires
        assignment_run(states, users),
    ensures
        forall|a: int, b: int| 0 <= a < b < users.len() ==> {
            &&& next_token(#[trigger] states[a]) != next_token(#[trigger] states[b])
            &&& token_number(next_token(states[a])) < token_number(next_token(states[b]))
        },
{
    assert forall|a: int, b: int| 0 <= a < b < users.len() implies {
        &&& next_token(#[trigger] states[a]) != next_token(#[trigger] states[b])
        &&& token_number(next_token(states[a])) < token_number(next_token(states[b]))
    } by {
        lemma_run_counts(states, users, a);
        lemma_run_counts(states, users, b);
        lemma_token_order(matric_count(states[a]) + 1, matric_count(states[b]) + 1);
    }
}

/// Two assignments that both succeed, whatever states their tokens were
/// proposed from, go to two different students and hold two different tokens.
pub proof fn lemma_two_assignments_distinct(
    s0: Seq<StudentView>,
    u1: Seq<char>,
    t1: Seq<char>,
    u2: Seq<char>,
    t2: Seq<char>,
)
    requires
        records_wf(s0),
        assignable(s0, u1, t1),
        assignable(assigned(s0, u1, t1), u2, t2),
    ensures
        t1 != t2,
        u1 != u2,
        ({
            let s1 = assigned(s0, u1, t1);
            let s2 = assigned(s1, u2, t2);
            let i1 = last_index(s0, with_username(u1));
            let i2 = last_index(s1, with_username(u2));
            &&& i1 != i2
            &&& s2[i1].matric_number == Some(t1)
            &&& s2[i2].matric_number == Some(t2)
        }),
{
    let s1 = assigned(s0, u1, t1);
    lemma_last_index(s0, with_username(u1));
    lemma_last_index(s1, with_username(u2));
    let i1 = last_index(s0, with_username(u1));
    let i2 = last_index(s1, with_username(u2));
    assert(with_matric(t1)(s1[i1]));
    lemma_last_index(s1, with_matric(t1));
    if u1 == u2 {
        lemma_last_index(s1, with_username(u1));
        assert(with_username(u1)(s1[i1]));
    }
    assert(i1 != i2);
}

/// Assignment never applies to a student who already holds a number, so the
/// stored number is never replaced.
pub proof fn lemma_no_reassignment(s: Seq<StudentView>, username: Seq<char>, token: Seq<char>)
    requires
        lookup(s, with_username(username)) is Some,
        lookup(s, with_username(username))->Some_0.matric_number is Some,
    ensures
        !assignable(s, username, token),
{
}

} // verus!
