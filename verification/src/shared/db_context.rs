use crate::data_models::user::User;
use vstd::prelude::*;

verus! {

/// The text of the query that selects the users with a given e-mail
/// address; the address is not part of it but bound to the parameter `$email`.
pub open spec fn user_by_email_query_text() -> Seq<char> {
    "SELECT * FROM user WHERE email == $email;"@
}

/// A lookup of the users with a given e-mail address: the query text and the
/// value bound to its parameter `param`.
pub struct EmailLookup {
    pub query: String,
    pub param: String,
    pub email: String,
}

/// The lookup of the users with e-mail address `email`. The address is
/// passed as the value of the query's parameter, so whatever characters it
/// holds it is compared as data and never read as query text.
pub fn user_by_email_query(email: &str) -> (lookup: EmailLookup)
    ensures
        lookup.query@ == user_by_email_query_text(),
        lookup.param@ == "email"@,
        lookup.email@ == email@,
{
    EmailLookup {
        query: "SELECT * FROM user WHERE email == $email;".to_owned(),
        param: "email".to_owned(),
        email: email.to_owned(),
    }
}

/// The user that an e-mail lookup reports: the first record returned, if any.
pub fn first_user(users: Vec<User>) -> (user: Option<User>)
    ensures
        users@.len() == 0 ==> user is None,
        users@.len() > 0 ==> user == Some(users@[0]),
{
    let mut users = users;
    if users.len() == 0 {
        None
    } else {
        Some(users.swap_remove(0))
    }
}

/// How a user record received from the user directory is stored.
pub enum UserPatch {
    /// A record exists: overwrite the record with key `record_id`.
    Update { record_id: String },
    /// No record exists: create one with key `record_id`.
    Create { record_id: String },
}

/// Decides how to store `user`, given the record `existing` found under its
/// object id: an existing record is overwritten under that record's own
/// object id, otherwise a record is created under the user's object id.
pub fn plan_user_patch(user: &User, existing: &Option<User>) -> (plan: UserPatch)
    ensures
        match existing {
            Some(e) => plan matches UserPatch::Update { record_id } && record_id@ == e@.oid,
            None => plan matches UserPatch::Create { record_id } && record_id@ == user@.oid,
        },
{
    match existing {
        Some(e) => UserPatch::Update { record_id: e.oid.clone() },
        None => UserPatch::Create { record_id: user.oid.clone() },
    }
}

/// The report that storing a user returns.
pub fn patch_message(plan: &UserPatch) -> (message: String)
    ensures
        plan is Update ==> message@ == "User updated successfully"@,
        plan is Create ==> message@ == "Created new User"@,
{
    match plan {
        UserPatch::Update { .. } => "User updated successfully".to_owned(),
        UserPatch::Create { .. } => "Created new User".to_owned(),
    }
}

} // verus!
