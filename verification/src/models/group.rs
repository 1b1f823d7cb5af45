use vstd::prelude::*;

use super::group_user;

verus! {

pub const TYPE: &'static str = "group";
pub const MULTIPLE: &'static str = "groups";

/// A group of users.
#[derive(Debug)]
pub struct Model {
    pub id: u128,
    pub name: String,
    pub description: String,
}

impl Clone for Model {
    fn clone(&self) -> (r: Self)
        ensures
            r == *self,
    {
        Model { id: self.id, name: self.name.clone(), description: self.description.clone() }
    }
}

/// The fields of a group that a write sets (`None`: left as it is).
#[derive(Debug)]
pub struct ActiveModel {
    pub id: Option<u128>,
    pub name: Option<String>,
    pub description: Option<String>,
}

/// A group as the service shows it, with the ids of its admins and members.
#[derive(Debug)]
pub struct Presentation {
    pub id: u128,
    pub name: String,
    pub description: String,
    pub admins: Vec<u128>,
    pub members: Vec<u128>,
}

/// The users of the memberships that have (or lack) the admin flag, in order.
pub open spec fn users_with_flag(rows: Seq<group_user::Model>, is_admin: bool) -> Seq<u128>
    decreases rows.len(),
{
    if rows.len() == 0 {
        Seq::empty()
    } else {
        let rest = users_with_flag(rows.drop_last(), is_admin);
        if rows.last().is_admin == is_admin {
            rest.push(rows.last().user_id)
        } else {
            rest
        }
    }
}

impl Model {
    /// The presentation of the group, given its memberships: those with the
    /// admin flag give the admins, the others the members.
    pub fn into_presentation(self, rows: Vec<group_user::Model>) -> (p: Presentation)
        ensures
            p.id == self.id,
            p.name == self.name,
            p.description == self.description,
            p.admins@ == users_with_flag(rows@, true),
            p.members@ == users_with_flag(rows@, false),
    {
        let mut admins: Vec<u128> = Vec::new();
        let mut members: Vec<u128> = Vec::new();
        for i in 0..rows.len()
            invariant
                admins@ == users_with_flag(rows@.take(i as int), true),
                members@ == users_with_flag(rows@.take(i as int), false),
        {
            assert(rows@.take(i + 1).drop_last() =~= rows@.take(i as int));
            if rows[i].is_admin {
                admins.push(rows[i].user_id);
            } else {
                members.push(rows[i].user_id);
            }
        }
        assert(rows@.take(rows.len() as int) =~= rows@);
        let Model { id, name, description } = self;
        Presentation { id, name, description, admins, members }
    }
}

impl From<Presentation> for Model {
    fn from(p: Presentation) -> (m: Self) {
        Model { id: p.id, name: p.name, description: p.description }
    }
}

impl vstd::std_specs::convert::FromSpecImpl<Presentation> for Model {
    open spec fn obeys_from_spec() -> bool {
        true
    }

    open spec fn from_spec(p: Presentation) -> Model {
        Model { id: p.id, name: p.name, description: p.description }
    }
}

/// The ids of a list of groups.
pub open spec fn ids(s: Seq<Model>) -> Seq<u128> {
    Seq::new(s.len(), |i: int| s[i].id)
}

/// The ids of a list of groups.
pub fn ids_of(items: &Vec<Model>) -> (r: Vec<u128>)
    ensures
        r@ == ids(items@),
{
    let mut r: Vec<u128> = Vec::new();
    for i in 0..items.len()
        invariant
            r@ =~= ids(items@.take(i as int)),
    {
        r.push(items[i].id);
    }
    assert(items@.take(items.len() as int) =~= items@);
    r
}

} // verus!
