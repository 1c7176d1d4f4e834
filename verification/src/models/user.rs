use crate::models::role::Role;
use uuid::Uuid;
use vstd::prelude::*;

verus! {

/// A user identified by a UUID.
pub struct User {
    pub id: Uuid,
    pub name: String,
    pub email: String,
    pub roles: Vec<Role>,
}

impl User {
    /// The user with the given identifier, name, address and roles.
    pub fn new(id: Uuid, name: String, email: String, roles: Vec<Role>) -> (user: User)
        ensures
            user.id == id,
            user.name == name,
            user.email == email,
            user.roles == roles,
    {
        User { id, name, email, roles }
    }

    /// The user's identifier.
    pub fn id(&self) -> (id: &Uuid)
        ensures
            id == &self.id,
    {
        &self.id
    }

    /// The user's name.
    pub fn name(&self) -> (name: &String)
        ensures
            name == &self.name,
    {
        &self.name
    }

    /// The user's e-mail address.
    pub fn email(&self) -> (email: &String)
        ensures
            email == &self.email,
    {
        &self.email
    }

    /// The user's roles.
    pub fn roles(&self) -> (roles: &Vec<Role>)
        ensures
            roles == &self.roles,
    {
        &self.roles
    }
}

} // verus!
