//! The user record and the payload that creates or replaces one.

use crate::json::{decimal, decimal_text, json_string_text, quote};
use vstd::prelude::*;

verus! {

/// A row of the `users` relation. The store assigns `id`.
#[derive(Debug)]
pub struct User {
    pub id: i32,
    pub name: String,
    pub username: String,
}

/// A user as a mathematical value.
pub struct UserView {
    pub id: int,
    pub name: Seq<char>,
    pub username: Seq<char>,
}

impl View for User {
    type V = UserView;

    open spec fn view(&self) -> UserView {
        UserView { id: self.id as int, name: self.name@, username: self.username@ }
    }
}

impl UserView {
    /// The JSON object of a user: `id`, `name` and `username`, in this order
    /// and without white space.
    pub open spec fn json(self) -> Seq<char> {
        "{\"id\":"@ + decimal_text(self.id) + ",\"name\":"@ + json_string_text(self.name)
            + ",\"username\":"@ + json_string_text(self.username) + "}"@
    }
}

/// The JSON objects of `users`, in their order, with a comma between two of
/// them.
pub open spec fn rows_json(users: Seq<User>) -> Seq<char>
    decreases users.len(),
{
    if users.len() == 0 {
        Seq::empty()
    } else if users.len() == 1 {
        users[0]@.json()
    } else {
        rows_json(users.drop_last()) + ","@ + users.last()@.json()
    }
}

/// The JSON array of `users`.
pub open spec fn list_json(users: Seq<User>) -> Seq<char> {
    "["@ + rows_json(users) + "]"@
}

impl User {
    /// The JSON object of this user.
    pub fn to_json(&self) -> (text: String)
        ensures
            text@ == self@.json(),
    {
        let mut text: String = "{\"id\":".to_owned();
        let id: String = decimal(self.id);
        text.append(id.as_str());
        text.append(",\"name\":");
        let name: String = quote(self.name.as_str());
        text.append(name.as_str());
        text.append(",\"username\":");
        let username: String = quote(self.username.as_str());
        text.append(username.as_str());
        text.append("}");
        text
    }
}

/// The JSON array of `users`, in the order in which they stand.
pub fn users_to_json(users: &Vec<User>) -> (text: String)
    ensures
        text@ == list_json(users@),
{
    let mut text: String = "[".to_owned();
    let mut i: usize = 0;
    while i < users.len()
        invariant
            i <= users.len(),
            text@ == "["@ + rows_json(users@.take(i as int)),
        decreases users.len() - i,
    {
        if i > 0 {
            text.append(",");
        }
        let row: String = users[i].to_json();
        text.append(row.as_str());
        proof {
            let before: Seq<User> = users@.take(i as int);
            let after: Seq<User> = users@.take(i + 1);
            assert(after.drop_last() =~= before);
            assert(after.last() == users@[i as int]);
            assert(text@ =~= "["@ + rows_json(after));
        }
        i = i + 1;
    }
    proof {
        assert(users@.take(i as int) =~= users@);
    }
    text.append("]");
    text
}

/// What a client sends to create a user or to replace one: the two fields
/// that are the client's to choose.
#[derive(Debug)]
pub struct NewUser {
    pub name: String,
    pub username: String,
}

/// A payload as a mathematical value.
pub struct NewUserView {
    pub name: Seq<char>,
    pub username: Seq<char>,
}

impl View for NewUser {
    type V = NewUserView;

    open spec fn view(&self) -> NewUserView {
        NewUserView { name: self.name@, username: self.username@ }
    }
}

impl Clone for NewUser {
    fn clone(&self) -> (copy: Self)
        ensures
            copy@ == self@,
    {
        NewUser { name: self.name.clone(), username: self.username.clone() }
    }
}

} // verus!
