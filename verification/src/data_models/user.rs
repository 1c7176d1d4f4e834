use crate::data_models::role::{role_names, Role};
use vstd::prelude::*;

verus! {

/// A user record of the user database.
#[derive(Clone, Debug)]
pub struct User {
    pub oid: String,
    pub name: String,
    pub email: String,
    pub roles: Vec<Role>,
}

/// The contents of a [`User`].
pub struct UserView {
    pub oid: Seq<char>,
    pub name: Seq<char>,
    pub email: Seq<char>,
    pub roles: Seq<Seq<char>>,
}

impl View for User {
    type V = UserView;

    open spec fn view(&self) -> UserView {
        UserView {
            oid: self.oid@,
            name: self.name@,
            email: self.email@,
            roles: role_names(self.roles@),
        }
    }
}

impl User {
    /// A user with object id `oid`, address `email` and `roles`, and an empty name.
    pub fn new(oid: String, email: String, roles: Vec<Role>) -> (user: User)
        ensures
            user@.oid == oid@,
            user@.name == Seq::<char>::empty(),
            user@.email == email@,
            user@.roles == role_names(roles@),
    {
        User { oid, name: String::new(), email, roles }
    }

    /// A user with every field given, as a stored record holds them.
    pub fn with_name(oid: String, name: String, email: String, roles: Vec<Role>) -> (user: User)
        ensures
            user@.oid == oid@,
            user@.name == name@,
            user@.email == email@,
            user@.roles == role_names(roles@),
    {
        User { oid, name, email, roles }
    }

    /// The user's object id.
    pub fn oid(&self) -> (oid: &String)
        ensures
            oid@ == self@.oid,
    {
        &self.oid
    }

    /// The user's display name.
    pub fn name(&self) -> (name: &String)
        ensures
            name@ == self@.name,
    {
        &self.name
    }

    /// The user's e-mail address.
    pub fn email(&self) -> (email: &String)
        ensures
            email@ == self@.email,
    {
        &self.email
    }

    /// The user's roles.
    pub fn roles(&self) -> (roles: &Vec<Role>)
        ensures
            role_names(roles@) == self@.roles,
    {
        &self.roles
    }
}

} // verus!
