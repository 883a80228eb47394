//! The built-in user table and the username/password check.
use vstd::prelude::*;

verus! {

/// A username and password pair.
#[derive(Clone, Debug, PartialEq)]
pub struct User {
    username: String,
    password: String,
}

impl View for User {
    type V = (Seq<char>, Seq<char>);

    closed spec fn view(&self) -> (Seq<char>, Seq<char>) {
        (self.username@, self.password@)
    }
}

/// The accounts that the server accepts, as (username, password).
pub open spec fn registered_users() -> Seq<(Seq<char>, Seq<char>)> {
    seq![("ali"@, "123456"@), ("admin"@, "123456"@)]
}

/// The built-in table, in the order of `registered_users`.
fn builtin_users() -> (users: Vec<User>)
    ensures
        users@.len() == registered_users().len(),
        forall|i: int| 0 <= i < users@.len() ==> #[trigger] users@[i]@ == registered_users()[i],
{
    let mut users: Vec<User> = Vec::new();
    users.push(User { username: "ali".to_owned(), password: "123456".to_owned() });
    users.push(User { username: "admin".to_owned(), password: "123456".to_owned() });
    users
}

impl User {
    /// Makes a user from a username and a password.
    pub fn new(username: String, password: String) -> (user: User)
        ensures
            user@ == (username@, password@),
    {
        User { username, password }
    }

    /// The username.
    pub fn get_username(&self) -> (name: &str)
        ensures
            name@ == self@.0,
    {
        self.username.as_str()
    }

    /// True exactly when the user's username and password together are an
    /// entry of the built-in table.
    pub fn auth(user: &User) -> (ok: bool)
        ensures
            ok == registered_users().contains(user@),
    {
        let users = builtin_users();
        let mut i: usize = 0;
        while i < users.len()
            invariant
                0 <= i <= users@.len(),
                users@.len() == registered_users().len(),
                forall|j: int| 0 <= j < users@.len() ==> #[trigger] users@[j]@ == registered_users()[j],
                forall|j: int| 0 <= j < i ==> registered_users()[j] != user@,
            decreases users@.len() - i,
        {
            let same_name = users[i].username.eq(&user.username);
            let same_password = users[i].password.eq(&user.password);
            assert(users@[i as int]@ == registered_users()[i as int]);
            if same_name && same_password {
                assert(registered_users()[i as int] == user@);
                return true;
            }
            i = i + 1;
        }
        proof {
            if registered_users().contains(user@) {
                let k = choose|k: int| 0 <= k < registered_users().len() && registered_users()[k] == user@;
                assert(registered_users()[k] != user@);
            }
        }
        false
    }
}

} // verus!
