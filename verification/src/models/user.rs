//! Platform users and the view of them that is safe to return to clients.
use vstd::prelude::*;
use vstd::std_specs::convert::FromSpecImpl;

verus! {

/// A platform user.  The first user created at signup is the owner of its
/// organization.  `password_hash` is the PHC string of an Argon2id hash and
/// is never returned to clients (see [`UserPublic`]).
#[derive(Debug)]
pub struct User {
    pub id: String,
    pub organization_id: String,
    pub name: String,
    pub email: String,
    pub password_hash: String,
    pub role: String,
    pub created_at: String,
}

/// A user without the password hash: the shape returned from every endpoint.
#[derive(Debug)]
pub struct UserPublic {
    pub id: String,
    pub organization_id: String,
    pub name: String,
    pub email: String,
    pub role: String,
    pub created_at: String,
}

/// `p` shows exactly the public fields of `u`.
pub open spec fn shows_user(p: UserPublic, u: User) -> bool {
    &&& p.id@ == u.id@
    &&& p.organization_id@ == u.organization_id@
    &&& p.name@ == u.name@
    &&& p.email@ == u.email@
    &&& p.role@ == u.role@
    &&& p.created_at@ == u.created_at@
}

impl User {
    /// A copy of this user.
    pub fn duplicate(&self) -> (r: User)
        ensures
            r == *self,
    {
        User {
            id: self.id.clone(),
            organization_id: self.organization_id.clone(),
            name: self.name.clone(),
            email: self.email.clone(),
            password_hash: self.password_hash.clone(),
            role: self.role.clone(),
            created_at: self.created_at.clone(),
        }
    }
}

impl<'a> From<&'a User> for UserPublic {
    fn from(u: &'a User) -> (r: UserPublic) {
        UserPublic {
            id: u.id.clone(),
            organization_id: u.organization_id.clone(),
            name: u.name.clone(),
            email: u.email.clone(),
            role: u.role.clone(),
            created_at: u.created_at.clone(),
        }
    }
}

impl<'a> FromSpecImpl<&'a User> for UserPublic {
    open spec fn obeys_from_spec() -> bool {
        true
    }

    open spec fn from_spec(u: &'a User) -> UserPublic {
        UserPublic {
            id: u.id,
            organization_id: u.organization_id,
            name: u.name,
            email: u.email,
            role: u.role,
            created_at: u.created_at,
        }
    }
}

impl UserPublic {
    /// The public view of `u`.
    pub fn of(u: &User) -> (r: UserPublic)
        ensures
            shows_user(r, *u),
    {
        UserPublic::from(u)
    }
}

} // verus!
