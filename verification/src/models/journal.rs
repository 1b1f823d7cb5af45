use vstd::prelude::*;

use super::{journal_group, journal_user, AccessItemType};

verus! {

pub const TYPE: &'static str = "journal";
pub const MULTIPLE: &'static str = "journals";

/// A journal: a book of accounts and records kept in one unit.
#[derive(Debug)]
pub struct Model {
    pub id: u128,
    pub name: String,
    pub description: String,
    pub unit: String,
    pub is_archived: bool,
}

impl Clone for Model {
    fn clone(&self) -> (r: Self)
        ensures
            r == *self,
    {
        Model {
            id: self.id,
            name: self.name.clone(),
            description: self.description.clone(),
            unit: self.unit.clone(),
            is_archived: self.is_archived,
        }
    }
}

/// The fields of a journal that a write sets (`None`: left as it is).
#[derive(Debug)]
pub struct ActiveModel {
    pub id: Option<u128>,
    pub name: Option<String>,
    pub description: Option<String>,
    pub unit: Option<String>,
    pub is_archived: Option<bool>,
}

/// Who may see or administer a journal: a user or a group, by id.
#[derive(Clone, Copy, Debug, PartialEq, Eq, Structural)]
pub struct AccessItem {
    pub typ: AccessItemType,
    pub id: u128,
}

/// A journal as the service shows it.
#[derive(Debug)]
pub struct Presentation {
    pub id: u128,
    pub name: String,
    pub description: String,
    pub unit: String,
    pub is_archived: bool,
    pub tags: Vec<String>,
    pub admins: Vec<AccessItem>,
    pub members: Vec<AccessItem>,
}

/// The access items of the user links with (or without) the admin flag, in order.
pub open spec fn user_items(rows: Seq<journal_user::Model>, is_admin: bool) -> Seq<AccessItem>
    decreases rows.len(),
{
    if rows.len() == 0 {
        Seq::empty()
    } else {
        let rest = user_items(rows.drop_last(), is_admin);
        if rows.last().is_admin == is_admin {
            rest.push(AccessItem { typ: AccessItemType::User, id: rows.last().user_id })
        } else {
            rest
        }
    }
}

/// The access items of the group links with (or without) the admin flag, in order.
pub open spec fn group_items(rows: Seq<journal_group::Model>, is_admin: bool) -> Seq<AccessItem>
    decreases rows.len(),
{
    if rows.len() == 0 {
        Seq::empty()
    } else {
        let rest = group_items(rows.drop_last(), is_admin);
        if rows.last().is_admin == is_admin {
            rest.push(AccessItem { typ: AccessItemType::Group, id: rows.last().group_id })
        } else {
            rest
        }
    }
}

fn collect_user_items(rows: &Vec<journal_user::Model>, is_admin: bool, out: &mut Vec<AccessItem>)
    ensures
        final(out)@ == old(out)@ + user_items(rows@, is_admin),
{
    let ghost start = out@;
    for i in 0..rows.len()
        invariant
            out@ == start + user_items(rows@.take(i as int), is_admin),
    {
        assert(rows@.take(i + 1).drop_last() =~= rows@.take(i as int));
        if rows[i].is_admin == is_admin {
            out.push(rows[i].into());
        }
        assert(out@ =~= start + user_items(rows@.take(i + 1), is_admin));
    }
    assert(rows@.take(rows.len() as int) =~= rows@);
}

fn collect_group_items(rows: &Vec<journal_group::Model>, is_admin: bool, out: &mut Vec<AccessItem>)
    ensures
        final(out)@ == old(out)@ + group_items(rows@, is_admin),
{
    let ghost start = out@;
    for i in 0..rows.len()
        invariant
            out@ == start + group_items(rows@.take(i as int), is_admin),
    {
        assert(rows@.take(i + 1).drop_last() =~= rows@.take(i as int));
        if rows[i].is_admin == is_admin {
            out.push(rows[i].into());
        }
        assert(out@ =~= start + group_items(rows@.take(i + 1), is_admin));
    }
    assert(rows@.take(rows.len() as int) =~= rows@);
}

impl Model {
    /// The presentation of the journal, given its tags and its links to users
    /// and groups: admins are the linked users and then the linked groups with
    /// the admin flag, members those without it.
    pub fn into_presentation(
        self,
        tags: Vec<String>,
        users: Vec<journal_user::Model>,
        groups: Vec<journal_group::Model>,
    ) -> (p: Presentation)
        ensures
            p.id == self.id,
            p.name == self.name,
            p.description == self.description,
            p.unit == self.unit,
            p.is_archived == self.is_archived,
            p.tags == tags,
            p.admins@ == user_items(users@, true) + group_items(groups@, true),
            p.members@ == user_items(users@, false) + group_items(groups@, false),
    {
        let mut admins: Vec<AccessItem> = Vec::new();
        collect_user_items(&users, true, &mut admins);
        collect_group_items(&groups, true, &mut admins);
        let mut members: Vec<AccessItem> = Vec::new();
        collect_user_items(&users, false, &mut members);
        collect_group_items(&groups, false, &mut members);
        let Model { id, name, description, unit, is_archived } = self;
        Presentation { id, name, description, unit, is_archived, tags, admins, members }
    }
}

impl From<Presentation> for Model {
    fn from(p: Presentation) -> (m: Self) {
        Model {
            id: p.id,
            name: p.name,
            description: p.description,
            unit: p.unit,
            is_archived: p.is_archived,
        }
    }
}

impl vstd::std_specs::convert::FromSpecImpl<Presentation> for Model {
    open spec fn obeys_from_spec() -> bool {
        true
    }

    open spec fn from_spec(p: Presentation) -> Model {
        Model {
            id: p.id,
            name: p.name,
            description: p.description,
            unit: p.unit,
            is_archived: p.is_archived,
        }
    }
}

} // verus!
