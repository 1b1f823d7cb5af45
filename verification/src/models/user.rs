use vstd::prelude::*;

verus! {

pub const TYPE: &'static str = "user";
pub const MULTIPLE: &'static str = "users";

/// The role of a user. Roles are ordered: `User < Admin < Owner`.
#[derive(Clone, Copy, Debug, PartialEq, Eq, Structural)]
pub enum Role {
    User,
    Admin,
    Owner,
}

impl Role {
    /// The position of the role in the order of roles.
    pub open spec fn level(self) -> int {
        match self {
            Role::User => 0,
            Role::Admin => 1,
            Role::Owner => 2,
        }
    }

    /// The position of the role in the order of roles.
    pub fn rank(&self) -> (r: u8)
        ensures
            r == self.level(),
    {
        match self {
            Role::User => 0,
            Role::Admin => 1,
            Role::Owner => 2,
        }
    }
}

impl Default for Role {
    fn default() -> (r: Self)
        ensures
            r == Role::User,
    {
        Role::User
    }
}

/// A user of the service.
#[derive(Debug)]
pub struct Model {
    pub id: u128,
    pub name: String,
    pub role: Role,
}

impl Clone for Model {
    fn clone(&self) -> (r: Self)
        ensures
            r == *self,
    {
        Model { id: self.id, name: self.name.clone(), role: self.role }
    }
}

/// The fields of a user that a write sets (`None`: left as it is).
#[derive(Debug)]
pub struct ActiveModel {
    pub id: Option<u128>,
    pub name: Option<String>,
    pub role: Option<Role>,
}

/// A user as the service shows it, with its identities at providers.
#[derive(Debug)]
pub struct Presentation {
    pub id: u128,
    pub name: String,
    pub role: Role,
    pub auth_ids: Vec<(String, String)>,
}

impl Model {
    /// The presentation of the user, given its identities `(provider, value)`.
    pub fn into_presentation(self, auth_ids: Vec<(String, String)>) -> (p: Presentation)
        ensures
            p.id == self.id,
            p.name == self.name,
            p.role == self.role,
            p.auth_ids == auth_ids,
    {
        let Model { id, name, role } = self;
        Presentation { id, name, role, auth_ids }
    }
}

impl From<Presentation> for Model {
    fn from(p: Presentation) -> (m: Self) {
        Model { id: p.id, name: p.name, role: p.role }
    }
}

impl vstd::std_specs::convert::FromSpecImpl<Presentation> for Model {
    open spec fn obeys_from_spec() -> bool {
        true
    }

    open spec fn from_spec(p: Presentation) -> Model {
        Model { id: p.id, name: p.name, role: p.role }
    }
}

/// The ids of a list of users.
pub open spec fn ids(s: Seq<Model>) -> Seq<u128> {
    Seq::new(s.len(), |i: int| s[i].id)
}

/// The ids of a list of users.
pub fn ids_of(items: &Vec<Model>) -> (r: Vec<u128>)
    ensures
        r@ == ids(items@),
{
    let mut r: Vec<u128> = Vec::new();
    for i in 0..items.len()
        invariant
            r@ =~= ids(items@.take(i as int)),
    {
        r.push(items[i].id);
    }
    assert(items@.take(items.len() as int) =~= items@);
    r
}

} // verus!
