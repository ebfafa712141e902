use vstd::prelude::*;

verus! {

/// A user account record: a display name, a contact address, an age, and
/// bookkeeping that starts every account active with a single recorded
/// sign-in.
#[derive(Debug)]
pub struct Account {
    pub active: bool,
    pub username: String,
    pub email: String,
    pub age: u8,
    pub sign_in_count: u32,
}

impl Account {
    /// Opens a fresh account with the given details: active, with one
    /// sign-in on record.
    pub fn new(username: String, email: String, age: u8) -> (a: Account)
        ensures
            a.active,
            a.username == username,
            a.email == email,
            a.age == age,
            a.sign_in_count == 1,
    {
        Account { active: true, username, email, age, sign_in_count: 1 }
    }
}

} // verus!
