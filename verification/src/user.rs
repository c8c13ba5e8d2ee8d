//! The user record and the listing of names.

use vstd::prelude::*;

verus! {

/// A person known to the directory.
#[derive(Debug)]
pub struct User {
    pub name: String,
    pub age: u32,
    pub email: Option<String>,
}

/// The mathematical content of a [`User`]: its name as a sequence of
/// characters, its age as a natural number, and its e-mail address, if any.
pub struct UserView {
    pub name: Seq<char>,
    pub age: nat,
    pub email: Option<Seq<char>>,
}

impl View for User {
    type V = UserView;

    open spec fn view(&self) -> UserView {
        UserView {
            name: self.name@,
            age: self.age as nat,
            email: match self.email {
                Some(address) => Some(address@),
                None => None,
            },
        }
    }
}

impl Clone for User {
    /// A second record with the same name, age and e-mail address.
    fn clone(&self) -> (copy: User)
        ensures
            copy == *self,
    {
        User {
            name: self.name.clone(),
            age: self.age,
            email: match &self.email {
                Some(address) => Some(address.clone()),
                None => None,
            },
        }
    }
}

impl User {
    /// A user without an e-mail address.
    pub fn new(name: String, age: u32) -> (user: User)
        ensures
            user@ == (UserView { name: name@, age: age as nat, email: None }),
            user.name == name,
            user.age == age,
            user.email is None,
    {
        User { name, age, email: None }
    }

    /// A user whose e-mail address is `email`.
    pub fn with_email(name: String, age: u32, email: String) -> (user: User)
        ensures
            user@ == (UserView { name: name@, age: age as nat, email: Some(email@) }),
            user.name == name,
            user.age == age,
            user.email == Some(email),
    {
        User { name, age, email: Some(email) }
    }
}

/// The names of `users`, one for each record and in the same order.
pub open spec fn names_of(users: Seq<User>) -> Seq<Seq<char>> {
    Seq::new(users.len(), |i: int| users[i]@.name)
}

/// Lists the name of every user, keeping the order of the records.
pub fn process_users(users: &Vec<User>) -> (names: Vec<String>)
    ensures
        names@.len() == users@.len(),
        forall|i: int| 0 <= i < users@.len() ==> #[trigger] names@[i] == users@[i].name,
        names.deep_view() == names_of(users@),
{
    let mut names: Vec<String> = Vec::new();
    let mut done: usize = 0;
    while done < users.len()
        invariant
            done <= users@.len(),
            names@.len() == done,
            forall|i: int| 0 <= i < done ==> #[trigger] names@[i] == users@[i].name,
        decreases users@.len() - done,
    {
        names.push(users[done].name.clone());
        done = done + 1;
    }
    assert(names.deep_view() =~= names_of(users@));
    names
}

} // verus!
