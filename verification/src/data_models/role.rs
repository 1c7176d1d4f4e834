use vstd::prelude::*;

verus! {

/// A role that a user holds, as stored in the user database.
#[derive(Clone, Debug)]
pub struct Role {
    pub name: String,
}

impl View for Role {
    type V = Seq<char>;

    /// A role is its name.
    open spec fn view(&self) -> Seq<char> {
        self.name@
    }
}

impl Role {
    /// The role called `name`.
    pub fn new(name: String) -> (role: Role)
        ensures
            role@ == name@,
    {
        Role { name }
    }

    /// The role's name.
    pub fn name(&self) -> (name: &String)
        ensures
            name@ == self@,
    {
        &self.name
    }
}

/// The names of a list of roles.
pub open spec fn role_names(roles: Seq<Role>) -> Seq<Seq<char>> {
    roles.map_values(|r: Role| r@)
}

} // verus!
