//! Data model of the user-account service: the stored user record, the
//! create/update/login inputs, and the response shape handed back to clients.

use vstd::prelude::*;

verus! {

/// A stored user record. `id` is assigned by the store; a fresh record
/// carries `id == 0` until inserted.
#[derive(Debug)]
pub struct User {
    pub id: i32,
    pub name: String,
    pub email: String,
    pub password: String,
}

impl User {
    /// Strips the password off a record: what a client is allowed to see.
    pub fn tranform_to_user_response(&self) -> (r: UserResponse)
        ensures
            r.id == self.id,
            r.name@ == self.name@,
            r.email@ == self.email@,
    {
        UserResponse { id: self.id, name: self.name.clone(), email: self.email.clone() }
    }
}

/// Input accepted when creating an account.
#[derive(Debug)]
pub struct UserCreateInput {
    pub name: String,
    pub email: String,
    pub password: String,
    pub confirm_password: String,
}

impl UserCreateInput {
    /// Builds the record to insert: the given hash replaces the clear
    /// password, and the store will assign the id.
    pub fn tranform_to_user(&self, hash_password: String) -> (r: User)
        ensures
            r.id == 0,
            r.name@ == self.name@,
            r.email@ == self.email@,
            r.password@ == hash_password@,
    {
        User {
            id: 0,
            name: self.name.clone(),
            email: self.email.clone(),
            password: hash_password,
        }
    }
}

/// Input accepted when renaming an account.
#[derive(Debug)]
pub struct UserUpdateInput {
    pub id: i32,
    pub name: String,
}

impl UserUpdateInput {
    /// Builds the record for the update statement; only id and name matter.
    pub fn tranform_to_user(&self) -> (r: User)
        ensures
            r.id == self.id,
            r.name@ == self.name@,
            r.email@ == Seq::<char>::empty(),
            r.password@ == Seq::<char>::empty(),
    {
        User {
            id: self.id,
            name: self.name.clone(),
            email: new_empty_string(),
            password: new_empty_string(),
        }
    }
}

/// Credentials presented on login.
#[derive(Debug)]
pub struct LoginUserInput {
    pub email: String,
    pub password: String,
}

/// What a client sees of a user: everything but the password hash.
#[derive(Debug)]
pub struct UserResponse {
    pub id: i32,
    pub name: String,
    pub email: String,
}

fn new_empty_string() -> (r: String)
    ensures
        r@ == Seq::<char>::empty(),
{
    let r = String::new();
    proof {
        assert(r@ =~= Seq::<char>::empty());
    }
    r
}

/// Strips the password off every record of a listing, keeping the order.
pub fn tranform_users_to_user_responses(users: Vec<User>) -> (r: Vec<UserResponse>)
    ensures
        r@.len() == users@.len(),
        forall|i: int|
            0 <= i < users@.len() ==> {
                &&& #[trigger] r@[i].id == users@[i].id
                &&& r@[i].name@ == users@[i].name@
                &&& r@[i].email@ == users@[i].email@
            },
{
    let mut r: Vec<UserResponse> = Vec::new();
    let mut i: usize = 0;
    while i < users.len()
        invariant
            i <= users@.len(),
            r@.len() == i,
            forall|j: int|
                0 <= j < i ==> {
                    &&& #[trigger] r@[j].id == users@[j].id
                    &&& r@[j].name@ == users@[j].name@
                    &&& r@[j].email@ == users@[j].email@
                },
        decreases users@.len() - i,
    {
        r.push(users[i].tranform_to_user_response());
        i += 1;
    }
    r
}

} // verus!
