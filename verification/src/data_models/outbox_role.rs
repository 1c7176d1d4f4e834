use vstd::prelude::*;

verus! {

/// A role as it arrives in a user-change message.
#[derive(Clone, Debug)]
pub struct OutboxRole {
    id: String,
    name: String,
}

impl OutboxRole {
    /// The role with identifier `id` and name `name`.
    pub fn new(id: String, name: String) -> (role: OutboxRole)
        ensures
            role.spec_id() == id@,
            role.spec_name() == name@,
    {
        OutboxRole { id, name }
    }

    /// The role's identifier.
    pub closed spec fn spec_id(&self) -> Seq<char> {
        self.id@
    }

    /// The role's name.
    pub closed spec fn spec_name(&self) -> Seq<char> {
        self.name@
    }

    /// The role's identifier.
    pub fn id(&self) -> (id: &String)
        ensures
            id@ == self.spec_id(),
    {
        &self.id
    }

    /// The role's name.
    pub fn name(&self) -> (name: &String)
        ensures
            name@ == self.spec_name(),
    {
        &self.name
    }
}

} // verus!
