use uuid::Uuid;
use vstd::prelude::*;

verus! {

/// A UUID of the `uuid` crate, carried as an opaque value.
#[verifier::external_type_specification]
#[verifier::external_body]
pub struct ExUuid(Uuid);

/// A role identified by a UUID.
pub struct Role {
    pub id: Uuid,
    pub name: String,
}

impl Role {
    /// The role `name` with identifier `id`.
    pub fn new(id: Uuid, name: String) -> (role: Role)
        ensures
            role.id == id,
            role.name == name,
    {
        Role { id, name }
    }
}

} // verus!
