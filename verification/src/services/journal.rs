//! Journals: their queries, the rules of their access lists, and the plans of
//! their writes.
use vstd::prelude::*;

use super::condition::{id_values, Atom, AtomV, Clause, ClauseV, Column, Condition, Value, ValueV};
use super::read_service::{
    add_eq, add_id_query, add_text_value, containing_view, eq_clauses, externals_view, full_text_view,
    id_clauses, opt_value_view, plain_search, push_external, push_plain_search, push_text_search,
    text_search, text_value_clauses, ContainingUserQuery, ExternalQuery, ExternalQueryV, FullTextQuery,
    IdQuery, TextQuery,
};
use super::auth::{already_exists, id_not_found, name_taken, not_found, permission_refused, refuse_write, AuthUser};
use super::group::{asks_field, group_contains, GroupService};
use super::validation::{
    lemma_no_duplicate_errors, lemma_no_duplicates, append_errors, check_description, check_duplicates, check_name, description_errors, duplicate_errors, name_errors,
    opt_text, push_error,
};
use super::write_service::AbstractCommand;
use super::{FIELD_ADMINS, FIELD_DESCRIPTION, FIELD_MEMBERS, FIELD_NAME, FIELD_TAG, MAX_ACCESS_ITEM, MIN_ADMIN};
use crate::models::journal::AccessItem;
use crate::models::{group, group_user, journal, journal_group, journal_user, user, AccessItemType};
use crate::errors::{errors_view, into_outcome, outcome_of, outcome_view, tag_errors, Error, ErrorV};
use crate::ids::new_id;
use crate::models::journal_tag;
use crate::services::read_service::marked;
use super::full_text::{any_tag_contains, matches_text, text_matches};
use crate::sets::distinct;
use crate::text::{contains_text, dedup_texts, text_is};

verus! {

/// A query on journals.
#[derive(Clone, Debug)]
pub struct JournalQuery {
    pub full_text: Option<FullTextQuery>,
    pub containing_user: Option<ContainingUserQuery>,
    pub id: Option<IdQuery>,
    pub name: Option<TextQuery>,
    pub description: Option<String>,
    pub unit: Option<String>,
    pub tag: Option<TextQuery>,
    pub admins: Option<Vec<AccessItem>>,
    pub members: Option<Vec<AccessItem>>,
    pub include_archived: Option<bool>,
}

/// The ids of the access items of one kind, in order.
pub open spec fn ids_of_type(items: Seq<AccessItem>, typ: AccessItemType) -> Seq<u128>
    decreases items.len(),
{
    if items.len() == 0 {
        Seq::empty()
    } else {
        let rest = ids_of_type(items.drop_last(), typ);
        if items.last().typ == typ {
            rest.push(items.last().id)
        } else {
            rest
        }
    }
}

/// The ids of the access items of one kind, in order.
pub fn ids_of(items: &Vec<AccessItem>, typ: AccessItemType) -> (ids: Vec<u128>)
    ensures
        ids@ == ids_of_type(items@, typ),
{
    let mut ids: Vec<u128> = Vec::new();
    for i in 0..items.len()
        invariant
            ids@ == ids_of_type(items@.take(i as int), typ),
    {
        assert(items@.take(i + 1).drop_last() =~= items@.take(i as int));
        if items[i].typ == typ {
            ids.push(items[i].id);
        }
    }
    assert(items@.take(items.len() as int) =~= items@);
    ids
}

/// The ids as values.
pub open spec fn id_value_seq(ids: Seq<u128>) -> Seq<ValueV> {
    Seq::new(ids.len(), |i: int| ValueV::Id(ids[i]))
}

/// The clause that a journal has some of the access items as admins
/// (`is_admin`) or members: linked to one of the groups, or to one of the
/// users, with the flag. The flag of a user link is compared on the group
/// link table.
pub open spec fn access_clause(items: Seq<AccessItem>, is_admin: bool) -> ClauseV {
    let groups = ids_of_type(items, AccessItemType::Group);
    let users = ids_of_type(items, AccessItemType::User);
    let flag = AtomV::Eq(Column::JournalGroupIsAdmin, ValueV::Bool(is_admin));
    let g = if groups.len() == 0 {
        Seq::<Seq<AtomV>>::empty()
    } else {
        seq![seq![AtomV::IsIn(Column::JournalGroupGroupId, id_value_seq(groups)), flag]]
    };
    let u = if users.len() == 0 {
        Seq::<Seq<AtomV>>::empty()
    } else {
        seq![seq![AtomV::IsIn(Column::JournalUserUserId, id_value_seq(users)), flag]]
    };
    ClauseV::Any(g + u)
}

pub open spec fn access_clauses(items: Option<Vec<AccessItem>>, is_admin: bool) -> Seq<ClauseV> {
    match items {
        Some(v) => seq![access_clause(v@, is_admin)],
        None => Seq::empty(),
    }
}

/// The condition of a journal query: its id, exact name, unit, exact tag,
/// admins and members, and that the journal is not archived unless archived
/// journals are asked for.
pub open spec fn journal_condition(q: JournalQuery) -> Seq<ClauseV> {
    id_clauses(q.id, Column::JournalId)
        + text_value_clauses(q.name, Column::JournalName)
        + eq_clauses(opt_value_view(match q.unit { Some(u) => Some(Value::Text(u)), None => None }), Column::JournalUnit)
        + text_value_clauses(q.tag, Column::JournalTagTag)
        + access_clauses(q.admins, true)
        + access_clauses(q.members, false)
        + if q.include_archived == Some(true) {
            Seq::<ClauseV>::empty()
        } else {
            seq![ClauseV::Atom(AtomV::Eq(Column::JournalIsArchived, ValueV::Bool(false)))]
        }
}

fn link_group(column: Column, ids: Vec<u128>, is_admin: bool) -> (g: Vec<Atom>)
    ensures
        g@.len() == 2,
        g@[0]@ == AtomV::IsIn(column, id_value_seq(ids@)),
        g@[1]@ == AtomV::Eq(Column::JournalGroupIsAdmin, ValueV::Bool(is_admin)),
{
    let vs = id_values(&ids);
    let mut g: Vec<Atom> = Vec::new();
    g.push(Atom::IsIn(column, vs));
    g.push(Atom::Eq(Column::JournalGroupIsAdmin, Value::Bool(is_admin)));
    assert(g@[0]@ == AtomV::IsIn(column, id_value_seq(ids@)));
    g
}

fn make_access_clause(items: &Vec<AccessItem>, is_admin: bool) -> (c: Clause)
    ensures
        c@ == access_clause(items@, is_admin),
{
    let groups = ids_of(items, AccessItemType::Group);
    let users = ids_of(items, AccessItemType::User);
    let ghost gs = groups@;
    let ghost us = users@;
    let mut any: Vec<Vec<Atom>> = Vec::new();
    if groups.len() > 0 {
        any.push(link_group(Column::JournalGroupGroupId, groups, is_admin));
    }
    let ghost after_groups = any@;
    if users.len() > 0 {
        any.push(link_group(Column::JournalUserUserId, users, is_admin));
    }
    let c = Clause::Any(any);
    proof {
        let expected = access_clause(items@, is_admin)->Any_0;
        let flag = AtomV::Eq(Column::JournalGroupIsAdmin, ValueV::Bool(is_admin));
        if gs.len() > 0 {
            assert(crate::services::condition::atoms_view(any@[0]@) =~= seq![AtomV::IsIn(Column::JournalGroupGroupId, id_value_seq(gs)), flag]);
        }
        if us.len() > 0 {
            let k = any@.len() - 1;
            assert(crate::services::condition::atoms_view(any@[k]@) =~= seq![AtomV::IsIn(Column::JournalUserUserId, id_value_seq(us)), flag]);
        }
        assert(c@->Any_0 =~= expected);
    }
    c
}

impl JournalQuery {
    /// The condition that the journals of the query meet in storage.
    pub fn into_condition(self) -> (cond: Condition)
        ensures
            cond@ == journal_condition(self),
    {
        let ghost q = self;
        let mut cond = Condition::all();
        add_id_query(&mut cond, self.id, Column::JournalId);
        add_text_value(&mut cond, self.name, Column::JournalName);
        let unit = match self.unit {
            Some(u) => Some(Value::Text(u)),
            None => None,
        };
        add_eq(&mut cond, unit, Column::JournalUnit);
        add_text_value(&mut cond, self.tag, Column::JournalTagTag);
        let ghost before_admins = cond@;
        if let Some(admins) = self.admins {
            cond.add(make_access_clause(&admins, true));
            assert(cond@ =~= before_admins + access_clauses(Some(admins), true));
        }
        let ghost before_members = cond@;
        if let Some(members) = self.members {
            cond.add(make_access_clause(&members, false));
            assert(cond@ =~= before_members + access_clauses(Some(members), false));
        }
        let ghost before_archived = cond@;
        let with_archived = match self.include_archived {
            Some(b) => b,
            None => false,
        };
        if !with_archived {
            cond.add_atom(Atom::Eq(Column::JournalIsArchived, Value::Bool(false)));
        }
        assert(cond@ =~= journal_condition(q));
        cond
    }

    /// The parts of the query that the service checks itself: the containing
    /// user, the full-text search, and full-text searches of the name, the
    /// description and the tags.
    pub fn into_external_queries(self) -> (v: Vec<ExternalQuery>)
        ensures
            externals_view(v@) == journal_external(self),
    {
        let ghost q = self;
        let mut v: Vec<ExternalQuery> = Vec::new();
        if let Some(c) = self.containing_user {
            push_external(&mut v, ExternalQuery::ContainingUser(c));
        }
        let ghost after_containing = externals_view(v@);
        if let Some(f) = self.full_text {
            push_external(&mut v, ExternalQuery::FullText(f));
        }
        assert(externals_view(v@) =~= after_containing + match q.full_text {
            Some(f) => seq![full_text_view(f)],
            None => Seq::empty(),
        });
        push_text_search(&mut v, self.name, FIELD_NAME);
        push_plain_search(&mut v, self.description, FIELD_DESCRIPTION);
        push_text_search(&mut v, self.tag, FIELD_TAG);
        assert(externals_view(v@) =~= journal_external(q));
        v
    }
}

/// The checks of a journal query that the service makes itself.
pub open spec fn journal_external(q: JournalQuery) -> Seq<ExternalQueryV> {
    (match q.containing_user {
        Some(c) => seq![containing_view(c)],
        None => Seq::empty(),
    }) + (match q.full_text {
        Some(f) => seq![full_text_view(f)],
        None => Seq::empty(),
    }) + text_search(q.name, FIELD_NAME@) + plain_search(q.description, FIELD_DESCRIPTION@) + text_search(
        q.tag,
        FIELD_TAG@,
    )
}

// ---------------------------------------------------------------------------
// Who a journal contains

/// What storage holds of the access to journals: the links of journals to
/// users and to groups, and the memberships of the linked groups.
#[derive(Debug)]
pub struct JournalAccess {
    pub users: Vec<journal_user::Model>,
    pub groups: Vec<journal_group::Model>,
    pub group_users: Vec<group_user::Model>,
}

/// The user is linked to the journal, with (or without) the admin flag.
pub open spec fn linked_user(journal_id: u128, users: Seq<journal_user::Model>, user: u128, is_admin: bool) -> bool {
    exists|j: int|
        0 <= j < users.len() && #[trigger] users[j].journal_id == journal_id && users[j].user_id == user
            && users[j].is_admin == is_admin
}

/// A group linked to the journal with (or without) the admin flag contains
/// the user, as an admin or as a member of the group.
pub open spec fn linked_group_contains(
    journal_id: u128,
    groups: Seq<journal_group::Model>,
    group_users: Seq<group_user::Model>,
    user: u128,
    is_admin: bool,
) -> bool {
    exists|j: int|
        0 <= j < groups.len() && #[trigger] groups[j].journal_id == journal_id && groups[j].is_admin == is_admin
            && group_contains(groups[j].group_id, group_users, user, None)
}

/// The journal holds the user among its admins (or members): linked
/// directly, or through a linked group.
pub open spec fn holds_user(journal_id: u128, access: JournalAccess, user: u128, is_admin: bool) -> bool {
    linked_user(journal_id, access.users@, user, is_admin) || linked_group_contains(
        journal_id,
        access.groups@,
        access.group_users@,
        user,
        is_admin,
    )
}

/// The journal contains the user in one of the fields asked for (`None`: the
/// admins and the members).
pub open spec fn journal_contains(journal_id: u128, access: JournalAccess, user: u128, fields: Option<Seq<Seq<char>>>) -> bool {
    ||| asks_field(fields, FIELD_ADMINS@) && holds_user(journal_id, access, user, true)
    ||| asks_field(fields, FIELD_MEMBERS@) && holds_user(journal_id, access, user, false)
}

fn has_linked_user(journal_id: u128, users: &Vec<journal_user::Model>, user: u128, is_admin: bool) -> (b: bool)
    ensures
        b == linked_user(journal_id, users@, user, is_admin),
{
    for j in 0..users.len()
        invariant
            forall|k: int|
                0 <= k < j ==> !(#[trigger] users@[k].journal_id == journal_id && users@[k].user_id == user
                    && users@[k].is_admin == is_admin),
    {
        if users[j].journal_id == journal_id && users[j].user_id == user && users[j].is_admin == is_admin {
            return true;
        }
    }
    false
}

fn has_linked_group_containing(
    journal_id: u128,
    groups: &Vec<journal_group::Model>,
    group_users: &Vec<group_user::Model>,
    user: u128,
    is_admin: bool,
) -> (b: bool)
    ensures
        b == linked_group_contains(journal_id, groups@, group_users@, user, is_admin),
{
    for j in 0..groups.len()
        invariant
            forall|k: int|
                0 <= k < j ==> !(#[trigger] groups@[k].journal_id == journal_id && groups@[k].is_admin == is_admin
                    && group_contains(groups@[k].group_id, group_users@, user, None)),
    {
        if groups[j].journal_id == journal_id && groups[j].is_admin == is_admin {
            let gid = groups[j].group_id;
            let contains = GroupService::in_group(gid, group_users, user, true) || GroupService::in_group(
                gid,
                group_users,
                user,
                false,
            );
            assert(contains == group_contains(gid, group_users@, user, None));
            if contains {
                return true;
            }
        }
    }
    false
}

/// Whether a list of texts names the given field.
fn names_field(fields: &Vec<String>, field: &str) -> (b: bool)
    ensures
        b == fields.deep_view().contains(field@),
{
    let ghost all = fields.deep_view();
    for i in 0..fields.len()
        invariant
            all == fields.deep_view(),
            forall|k: int| 0 <= k < i ==> all[k] != field@,
    {
        if text_is(&fields[i], field) {
            assert(all[i as int] == field@);
            return true;
        }
    }
    false
}

// ---------------------------------------------------------------------------
// Reading journals

/// Journals.
pub struct JournalService {}

/// Whether a full-text search keeps a journal, given its tags.
pub open spec fn journal_text_matches(
    model: journal::Model,
    tags: Seq<Seq<char>>,
    value: Seq<char>,
    fields: Option<Seq<Seq<char>>>,
) -> bool {
    text_matches(Some(model.name@), model.description@, tags, value, fields)
}

/// What storage holds of one journal for the checks of a query: its tags and
/// its access lists.
#[derive(Debug)]
pub struct JournalFacts {
    pub tags: Vec<String>,
    pub access: JournalAccess,
}

/// Whether an external query keeps a journal.
pub open spec fn journal_keeps(model: journal::Model, facts: JournalFacts, q: ExternalQueryV) -> bool {
    match q {
        ExternalQueryV::FullText { value, fields } => journal_text_matches(model, facts.tags.deep_view(), value, fields),
        ExternalQueryV::ContainingUser { id, fields, .. } => journal_contains(model.id, facts.access, id, fields),
    }
}

/// The marks of the journals that an external query keeps.
pub open spec fn journal_marks(items: Seq<journal::Model>, facts: Seq<JournalFacts>, q: ExternalQueryV) -> Seq<bool> {
    Seq::new(items.len(), |i: int| journal_keeps(items[i], facts[i], q))
}

/// Whether the user may change the journal: an owner of the service may, any
/// other user only as an admin of the journal.
pub open spec fn journal_writeable(user: user::Model, model: journal::Model, access: JournalAccess) -> Result<(), ErrorV> {
    if user.role.level() > user::Role::Admin.level() {
        Ok(())
    } else if journal_contains(model.id, access, user.id, Some(seq![FIELD_ADMINS@])) {
        Ok(())
    } else {
        Err(permission_refused(user.id, journal::TYPE@, model.id))
    }
}

impl JournalService {
    /// Whether the journal contains the user in one of the fields asked for
    /// (`None`: the admins and the members), given its access lists.
    pub fn contain_user(model: &journal::Model, access: &JournalAccess, user: u128, fields: Option<Vec<String>>) -> (b: bool)
        ensures
            b == journal_contains(model.id, *access, user, crate::services::read_service::opt_texts_view(fields)),
    {
        let (asks_admins, asks_members) = match &fields {
            None => (true, true),
            Some(fs) => (names_field(fs, FIELD_ADMINS), names_field(fs, FIELD_MEMBERS)),
        };
        if asks_admins {
            if has_linked_user(model.id, &access.users, user, true) || has_linked_group_containing(
                model.id,
                &access.groups,
                &access.group_users,
                user,
                true,
            ) {
                return true;
            }
        }
        if asks_members {
            if has_linked_user(model.id, &access.users, user, false) || has_linked_group_containing(
                model.id,
                &access.groups,
                &access.group_users,
                user,
                false,
            ) {
                return true;
            }
        }
        false
    }

    /// Whether the operator may read the journal: a known user that is an
    /// admin (or owner) of the service, or that the journal contains; never
    /// an unknown identity.
    pub open spec fn readable(operator: AuthUser, model: journal::Model, access: JournalAccess) -> bool {
        match operator {
            AuthUser::User(u) => u.role.level() > user::Role::User.level() || journal_contains(model.id, access, u.id, None),
            AuthUser::Id(_) => false,
        }
    }

    /// A known user may read a journal if an admin (or owner) of the service,
    /// or if the journal contains the user; an unknown identity may not.
    pub fn is_readable(operator: &AuthUser, model: &journal::Model, access: &JournalAccess) -> (b: bool)
        ensures
            b == JournalService::readable(*operator, *model, *access),
    {
        match operator {
            AuthUser::User(u) => u.role.rank() > user::Role::User.rank() || JournalService::contain_user(model, access, u.id, None),
            AuthUser::Id(_) => false,
        }
    }

    /// Whether a full-text search keeps the journal, given its tags: one of
    /// the named fields (by default the name, the description and the tags)
    /// holds the text.
    pub fn matches_full_text(model: &journal::Model, tags: &Vec<String>, query: &FullTextQuery) -> (b: bool)
        ensures
            b == journal_text_matches(*model, tags.deep_view(), query.value@, crate::services::read_service::opt_texts_view(query.fields)),
    {
        matches_text(Some(&model.name), &model.description, tags, query)
    }

    /// Whether an external query keeps the journal, given what storage holds of it.
    pub fn keeps(model: &journal::Model, facts: &JournalFacts, external_query: &ExternalQuery) -> (b: bool)
        ensures
            b == journal_keeps(*model, *facts, external_query@),
    {
        match external_query {
            ExternalQuery::FullText(q) => JournalService::matches_full_text(model, &facts.tags, q),
            ExternalQuery::ContainingUser(q) => {
                let fields = match q {
                    ContainingUserQuery::Object { fields, .. } => fields.clone(),
                    _ => None,
                };
                proof {
                    if let ContainingUserQuery::Object { fields: Some(fs), .. } = q {
                        assert(fields.unwrap().deep_view() =~= fs.deep_view());
                    }
                }
                JournalService::contain_user(model, &facts.access, q.id(), fields)
            },
        }
    }

    /// Keeps the journals that the external query keeps, in order, given what
    /// storage holds of each.
    pub fn filter_by_external_query(
        items: Vec<journal::Model>,
        facts: &Vec<JournalFacts>,
        external_query: &ExternalQuery,
    ) -> (kept: Vec<journal::Model>)
        requires
            facts@.len() == items@.len(),
        ensures
            kept@ == crate::services::read_service::marked(items@, journal_marks(items@, facts@, external_query@)),
    {
        let mut marks: Vec<bool> = Vec::new();
        for i in 0..items.len()
            invariant
                facts@.len() == items@.len(),
                marks@ =~= journal_marks(items@, facts@, external_query@).take(i as int),
        {
            let keep = JournalService::keeps(&items[i], &facts[i], external_query);
            marks.push(keep);
        }
        assert(marks@ =~= journal_marks(items@, facts@, external_query@));
        crate::services::read_service::keep_marked(items, &marks)
    }

    /// The column of a field that journals can be sorted by.
    pub fn sortable_field(field: &str) -> (c: Option<Column>)
        ensures
            c == (if field@ == "name"@ {
                Some(Column::JournalName)
            } else if field@ == "unit"@ {
                Some(Column::JournalUnit)
            } else if field@ == "is_archived"@ {
                Some(Column::JournalIsArchived)
            } else {
                None::<Column>
            }),
    {
        let f = field.to_owned();
        if text_is(&f, "name") {
            Some(Column::JournalName)
        } else if text_is(&f, "unit") {
            Some(Column::JournalUnit)
        } else if text_is(&f, "is_archived") {
            Some(Column::JournalIsArchived)
        } else {
            None
        }
    }

    /// The id column of journals.
    pub fn primary_field() -> (c: Column)
        ensures
            c == Column::JournalId,
    {
        Column::JournalId
    }

    /// The id of a journal.
    pub fn primary_value(model: &journal::Model) -> (id: u128)
        ensures
            id == model.id,
    {
        model.id
    }

    /// The value of a journal for a sortable field.
    pub fn sortable_value(field: &str, model: &journal::Model) -> (v: Option<Value>)
        ensures
            opt_value_view(v) == (match JournalService::sortable_column(field@) {
                Some(Column::JournalName) => Some(ValueV::Text(model.name@)),
                Some(Column::JournalUnit) => Some(ValueV::Text(model.unit@)),
                Some(_) => Some(ValueV::Bool(model.is_archived)),
                None => None::<ValueV>,
            }),
    {
        match JournalService::sortable_field(field) {
            Some(Column::JournalName) => Some(Value::Text(model.name.clone())),
            Some(Column::JournalUnit) => Some(Value::Text(model.unit.clone())),
            Some(_) => Some(Value::Bool(model.is_archived)),
            None => None,
        }
    }

    /// Whether the user may change the journal.
    pub fn check_writeable(user: &user::Model, model: &journal::Model, access: &JournalAccess) -> (r: Result<(), Error>)
        ensures
            outcome_view(r) == journal_writeable(*user, *model, *access),
    {
        if user.role.rank() > user::Role::Admin.rank() {
            return Ok(());
        }
        let mut fields: Vec<String> = Vec::new();
        fields.push(FIELD_ADMINS.to_owned());
        assert(fields.deep_view() =~= seq![FIELD_ADMINS@]);
        if !JournalService::contain_user(model, access, user.id, Some(fields)) {
            return Err(refuse_write(user.id, journal::TYPE, model.id));
        }
        Ok(())
    }
}

impl JournalService {
    /// The column that a field sorts journals by.
    pub open spec fn sortable_column(field: Seq<char>) -> Option<Column> {
        if field == "name"@ {
            Some(Column::JournalName)
        } else if field == "unit"@ {
            Some(Column::JournalUnit)
        } else if field == "is_archived"@ {
            Some(Column::JournalIsArchived)
        } else {
            None
        }
    }
}

// ---------------------------------------------------------------------------
// Writing journals

/// A command on journals.
#[derive(Debug)]
pub enum JournalCommand {
    Create(JournalCommandCreate),
    Update(JournalCommandUpdate),
    Delete(u128),
}

/// A new journal. The tags and the access items are sets: a repetition
/// counts once.
#[derive(Debug)]
pub struct JournalCommandCreate {
    pub target_id: Option<u128>,
    pub name: String,
    pub description: String,
    pub unit: String,
    pub tags: Vec<String>,
    pub admins: Vec<AccessItem>,
    pub members: Vec<AccessItem>,
}

/// A change of a journal (`None`: left as it is).
#[derive(Debug)]
pub struct JournalCommandUpdate {
    pub target_id: u128,
    pub name: Option<String>,
    pub description: Option<String>,
    pub unit: Option<String>,
    pub is_archived: Option<bool>,
    pub tags: Option<Vec<String>>,
    pub admins: Option<Vec<AccessItem>>,
    pub members: Option<Vec<AccessItem>>,
}

impl JournalCommandUpdate {
    /// The update changes nothing that counts: the archived flag alone does not.
    pub fn is_empty(&self) -> (b: bool)
        ensures
            b == (self.name is None && self.description is None && self.unit is None && self.tags is None
                && self.admins is None && self.members is None),
    {
        self.name.is_none() && self.description.is_none() && self.unit.is_none() && self.tags.is_none()
            && self.admins.is_none() && self.members.is_none()
    }
}

impl AbstractCommand for JournalCommand {
    open spec fn spec_target_id(&self) -> Option<u128> {
        match self {
            JournalCommand::Create(c) => c.target_id,
            JournalCommand::Update(c) => Some(c.target_id),
            JournalCommand::Delete(id) => Some(*id),
        }
    }

    open spec fn spec_with_target_id(self, id: u128) -> Self {
        match self {
            JournalCommand::Create(c) => JournalCommand::Create(JournalCommandCreate { target_id: Some(id), ..c }),
            JournalCommand::Update(c) => JournalCommand::Update(JournalCommandUpdate { target_id: id, ..c }),
            JournalCommand::Delete(_) => JournalCommand::Delete(id),
        }
    }

    proof fn lemma_with_target_id(self, id: u128) {
    }

    fn target_id(&self) -> (id: Option<u128>) {
        match self {
            JournalCommand::Create(c) => c.target_id,
            JournalCommand::Update(c) => Some(c.target_id),
            JournalCommand::Delete(id) => Some(*id),
        }
    }

    fn with_target_id(self, id: u128) -> (c: Self) {
        match self {
            JournalCommand::Create(c) => JournalCommand::Create(JournalCommandCreate { target_id: Some(id), ..c }),
            JournalCommand::Update(c) => JournalCommand::Update(JournalCommandUpdate { target_id: id, ..c }),
            JournalCommand::Delete(_) => JournalCommand::Delete(id),
        }
    }
}

/// The users and groups of the access lists of a journal.
#[derive(Debug)]
pub struct AccessLists {
    pub admin_users: Vec<user::Model>,
    pub member_users: Vec<user::Model>,
    pub admin_groups: Vec<group::Model>,
    pub member_groups: Vec<group::Model>,
}

/// The error of an admin count out of range.
pub open spec fn admin_count_errors(entity: Seq<char>, count: int) -> Seq<ErrorV> {
    if count < MIN_ADMIN || count > MAX_ACCESS_ITEM {
        seq![ErrorV::LengthRange { entity, field: FIELD_ADMINS@, min: MIN_ADMIN, max: MAX_ACCESS_ITEM }]
    } else {
        Seq::empty()
    }
}

/// The error of a member count over the limit.
pub open spec fn member_count_errors(entity: Seq<char>, count: int) -> Seq<ErrorV> {
    if count > MAX_ACCESS_ITEM {
        seq![ErrorV::MaxLength { entity, field: FIELD_MEMBERS@, value: MAX_ACCESS_ITEM }]
    } else {
        Seq::empty()
    }
}

/// The errors of a journal write: name, description, between `MIN_ADMIN` and
/// `MAX_ACCESS_ITEM` admins, at most `MAX_ACCESS_ITEM` members, no user or
/// group both an admin and a member, and the tags when they are set.
pub open spec fn journal_errors(model: journal::ActiveModel, lists: AccessLists, tags: Option<Seq<Seq<char>>>) -> Seq<ErrorV> {
    let entity = journal::TYPE@;
    let id = model.id.unwrap();
    name_errors(entity, opt_text(model.name)) + description_errors(entity, opt_text(model.description))
        + admin_count_errors(entity, (lists.admin_users@.len() + lists.admin_groups@.len()) as int)
        + member_count_errors(entity, (lists.member_users@.len() + lists.member_groups@.len()) as int)
        + duplicate_errors(entity, id, AccessItemType::User, user::ids(lists.admin_users@), user::ids(lists.member_users@))
        + duplicate_errors(entity, id, AccessItemType::Group, group::ids(lists.admin_groups@), group::ids(lists.member_groups@))
        + match tags {
            Some(t) => tag_errors(entity, t),
            None => Seq::empty(),
        }
}

impl JournalService {
    /// The checks of a journal write.
    pub fn validate(model: &journal::ActiveModel, lists: &AccessLists, tags: Option<&Vec<String>>) -> (r: Result<(), Error>)
        requires
            model.id is Some,
        ensures
            outcome_view(r) == outcome_of(journal_errors(*model, *lists, match tags {
                Some(t) => Some(t.deep_view()),
                None => None,
            })),
    {
        let mut errors: Vec<Error> = Vec::new();
        assert(errors_view(errors@) =~= Seq::empty());
        check_name(journal::TYPE, &model.name, &mut errors);
        check_description(journal::TYPE, &model.description, &mut errors);
        let au = lists.admin_users.len();
        let ag = lists.admin_groups.len();
        if au > MAX_ACCESS_ITEM || ag > MAX_ACCESS_ITEM - au || au + ag < MIN_ADMIN {
            push_error(
                &mut errors,
                Error::LengthRange {
                    entity: journal::TYPE.to_owned(),
                    field: FIELD_ADMINS.to_owned(),
                    min: MIN_ADMIN,
                    max: MAX_ACCESS_ITEM,
                },
            );
        }
        let mu = lists.member_users.len();
        let mg = lists.member_groups.len();
        if mu > MAX_ACCESS_ITEM || mg > MAX_ACCESS_ITEM - mu {
            push_error(
                &mut errors,
                Error::MaxLength { entity: journal::TYPE.to_owned(), field: FIELD_MEMBERS.to_owned(), value: MAX_ACCESS_ITEM },
            );
        }
        let id = match model.id {
            Some(id) => id,
            None => 0,
        };
        let admin_users = user::ids_of(&lists.admin_users);
        let member_users = user::ids_of(&lists.member_users);
        check_duplicates(journal::TYPE, id, AccessItemType::User, &admin_users, &member_users, &mut errors);
        let admin_groups = group::ids_of(&lists.admin_groups);
        let member_groups = group::ids_of(&lists.member_groups);
        check_duplicates(journal::TYPE, id, AccessItemType::Group, &admin_groups, &member_groups, &mut errors);
        let ghost before_tags = errors_view(errors@);
        if let Some(t) = tags {
            append_errors(&mut errors, Error::validate_tags(journal::TYPE, t));
        }
        assert(errors_view(errors@) =~= journal_errors(*model, *lists, match tags {
            Some(t) => Some(t.deep_view()),
            None => None,
        }));
        into_outcome(errors)
    }
}

/// Whether the user may read the group: an admin (or owner) of the service
/// may, any other user as a member or admin of the group.
pub open spec fn group_readable_by(u: user::Model, g: group::Model, rows: Seq<group_user::Model>) -> bool {
    u.role.level() > user::Role::User.level() || group_contains(g.id, rows, u.id, None)
}

/// The marks of the groups that the user may read.
pub open spec fn readable_marks(u: user::Model, groups: Seq<group::Model>, rows: Seq<group_user::Model>) -> Seq<bool> {
    Seq::new(groups.len(), |i: int| group_readable_by(u, groups[i], rows))
}

/// The links of a journal to users: the admins with the flag, then the
/// members without.
pub open spec fn user_links(journal_id: u128, admins: Seq<u128>, members: Seq<u128>) -> Seq<journal_user::Model> {
    Seq::new(admins.len(), |i: int| journal_user::Model { journal_id, user_id: admins[i], is_admin: true }) + Seq::new(
        members.len(),
        |i: int| journal_user::Model { journal_id, user_id: members[i], is_admin: false },
    )
}

/// The links of a journal to groups: the admins with the flag, then the
/// members without.
pub open spec fn group_links(journal_id: u128, admins: Seq<u128>, members: Seq<u128>) -> Seq<journal_group::Model> {
    Seq::new(admins.len(), |i: int| journal_group::Model { journal_id, group_id: admins[i], is_admin: true }) + Seq::new(
        members.len(),
        |i: int| journal_group::Model { journal_id, group_id: members[i], is_admin: false },
    )
}

/// The rows of the tags of a journal, one per tag, in order.
pub open spec fn tag_rows(rows: Seq<journal_tag::Model>, journal_id: u128, tags: Seq<Seq<char>>) -> bool {
    &&& rows.len() == tags.len()
    &&& forall|i: int| 0 <= i < rows.len() ==> #[trigger] rows[i].journal_id == journal_id && rows[i].tag@ == tags[i]
}

fn make_tag_rows(journal_id: u128, tags: &Vec<String>) -> (rows: Vec<journal_tag::Model>)
    ensures
        tag_rows(rows@, journal_id, tags.deep_view()),
{
    let mut rows: Vec<journal_tag::Model> = Vec::new();
    let mut i: usize = 0;
    while i < tags.len()
        invariant
            i <= tags@.len(),
            rows@.len() == i,
            forall|k: int| 0 <= k < i ==> #[trigger] rows@[k].journal_id == journal_id && rows@[k].tag@ == tags@[k]@,
        decreases tags@.len() - i,
    {
        let tag = tags[i].clone();
        rows.push(journal_tag::Model { journal_id, tag });
        i = i + 1;
    }
    let ghost all = tags.deep_view();
    assert(all.len() == tags@.len());
    assert(rows@.len() == tags@.len());
    assert forall|k: int| 0 <= k < rows@.len() implies #[trigger] rows@[k].journal_id == journal_id && rows@[k].tag@ == all[k] by {
        assert(rows@[k].journal_id == journal_id);
        assert(all[k] == tags@[k]@);
    }
    assert(rows@.len() == all.len());
    assert(tag_rows(rows@, journal_id, all));
    rows
}

fn make_user_links(journal_id: u128, admins: &Vec<u128>, members: &Vec<u128>) -> (rows: Vec<journal_user::Model>)
    ensures
        rows@ == user_links(journal_id, admins@, members@),
{
    let mut rows: Vec<journal_user::Model> = Vec::new();
    for i in 0..admins.len()
        invariant
            rows@ =~= Seq::new(i as nat, |k: int| journal_user::Model { journal_id, user_id: admins@[k], is_admin: true }),
    {
        rows.push(journal_user::Model { journal_id, user_id: admins[i], is_admin: true });
    }
    let ghost first = rows@;
    for i in 0..members.len()
        invariant
            rows@ =~= first + Seq::new(i as nat, |k: int| journal_user::Model { journal_id, user_id: members@[k], is_admin: false }),
    {
        rows.push(journal_user::Model { journal_id, user_id: members[i], is_admin: false });
    }
    rows
}

fn make_group_links(journal_id: u128, admins: &Vec<u128>, members: &Vec<u128>) -> (rows: Vec<journal_group::Model>)
    ensures
        rows@ == group_links(journal_id, admins@, members@),
{
    let mut rows: Vec<journal_group::Model> = Vec::new();
    for i in 0..admins.len()
        invariant
            rows@ =~= Seq::new(i as nat, |k: int| journal_group::Model { journal_id, group_id: admins@[k], is_admin: true }),
    {
        rows.push(journal_group::Model { journal_id, group_id: admins[i], is_admin: true });
    }
    let ghost first = rows@;
    for i in 0..members.len()
        invariant
            rows@ =~= first + Seq::new(i as nat, |k: int| journal_group::Model { journal_id, group_id: members@[k], is_admin: false }),
    {
        rows.push(journal_group::Model { journal_id, group_id: members[i], is_admin: false });
    }
    rows
}

/// What creating a journal writes: the journal, its tags, and its links to
/// users and groups.
#[derive(Debug)]
pub struct JournalCreation {
    pub model: journal::Model,
    pub tags: Vec<journal_tag::Model>,
    pub users: Vec<journal_user::Model>,
    pub groups: Vec<journal_group::Model>,
}

/// The fields that creating a journal sets.
pub open spec fn created_journal(id: u128, command: JournalCommandCreate) -> journal::ActiveModel {
    journal::ActiveModel {
        id: Some(id),
        name: Some(command.name),
        description: Some(command.description),
        unit: Some(command.unit),
        is_archived: Some(false),
    }
}

impl JournalService {
    /// Of the users and groups that the access items of a command name, those
    /// that the operator may read: every user, and the groups that the
    /// operator may read, given their memberships.
    pub fn load_access_items(
        operator: &user::Model,
        users: Vec<user::Model>,
        groups: Vec<group::Model>,
        group_rows: &Vec<group_user::Model>,
    ) -> (r: (Vec<user::Model>, Vec<group::Model>))
        ensures
            r.0@ == users@,
            r.1@ == marked(groups@, readable_marks(*operator, groups@, group_rows@)),
    {
        let mut marks: Vec<bool> = Vec::new();
        for i in 0..groups.len()
            invariant
                marks@ =~= readable_marks(*operator, groups@, group_rows@).take(i as int),
        {
            let readable = operator.role.rank() > user::Role::User.rank() || GroupService::contain_user(
                &groups[i],
                group_rows,
                operator.id,
                None,
            );
            marks.push(readable);
        }
        assert(marks@ =~= readable_marks(*operator, groups@, group_rows@));
        (users, crate::services::read_service::keep_marked(groups, &marks))
    }

    /// The links of a journal to the users and groups of its access lists.
    pub fn create_access_items(journal_id: u128, lists: &AccessLists) -> (r: (Vec<journal_user::Model>, Vec<journal_group::Model>))
        ensures
            r.0@ == user_links(journal_id, user::ids(lists.admin_users@), user::ids(lists.member_users@)),
            r.1@ == group_links(journal_id, group::ids(lists.admin_groups@), group::ids(lists.member_groups@)),
    {
        let admin_users = user::ids_of(&lists.admin_users);
        let member_users = user::ids_of(&lists.member_users);
        let admin_groups = group::ids_of(&lists.admin_groups);
        let member_groups = group::ids_of(&lists.member_groups);
        (make_user_links(journal_id, &admin_users, &member_users), make_group_links(journal_id, &admin_groups, &member_groups))
    }

    /// The access items to load as the admins of a new journal: those of the
    /// command, or the operator when it names none.
    pub fn admins_to_load(operator: &user::Model, command: &JournalCommandCreate) -> (items: Vec<AccessItem>)
        ensures
            items@ == if command.admins@.len() == 0 {
                seq![AccessItem { typ: AccessItemType::User, id: operator.id }]
            } else {
                command.admins@
            },
    {
        if command.admins.len() == 0 {
            let mut items: Vec<AccessItem> = Vec::new();
            items.push(AccessItem { typ: AccessItemType::User, id: operator.id });
            assert(items@ =~= seq![AccessItem { typ: AccessItemType::User, id: operator.id }]);
            items
        } else {
            command.admins.clone()
        }
    }

    /// Creates a journal: its name must be free; its access lists (as loaded
    /// for the command) and its tags must pass the checks.
    pub fn create(operator: &user::Model, command: JournalCommandCreate, name_is_taken: bool, lists: &AccessLists) -> (r: Result<JournalCreation, Error>)
        ensures
            name_is_taken ==> (r matches Err(e) && e@ == name_taken(journal::TYPE@, command.name@)),
            !name_is_taken ==> match r {
                Ok(c) => outcome_of(journal_errors(created_journal(c.model.id, command), *lists, Some(distinct(command.tags.deep_view()))))
                    == Ok::<(), ErrorV>(())
                    && c.model.name == command.name && c.model.description == command.description
                    && c.model.unit == command.unit && !c.model.is_archived
                    && tag_rows(c.tags@, c.model.id, distinct(command.tags.deep_view()))
                    && c.users@ == user_links(c.model.id, user::ids(lists.admin_users@), user::ids(lists.member_users@))
                    && c.groups@ == group_links(c.model.id, group::ids(lists.admin_groups@), group::ids(lists.member_groups@)),
                Err(e) => exists|id: u128| Err::<(), ErrorV>(e@) == outcome_of(journal_errors(created_journal(id, command), *lists, Some(distinct(command.tags.deep_view())))),
            },
    {
        if name_is_taken {
            return Err(already_exists(journal::TYPE, command.name));
        }
        let ghost c0 = command;
        let id = new_id();
        let tags = dedup_texts(&command.tags);
        let model = journal::ActiveModel {
            id: Some(id),
            name: Some(command.name),
            description: Some(command.description),
            unit: Some(command.unit),
            is_archived: Some(false),
        };
        assert(model == created_journal(id, c0));
        match JournalService::validate(&model, lists, Some(&tags)) {
            Err(e) => Err(e),
            Ok(()) => {
                let tag_rows = make_tag_rows(id, &tags);
                let (users, groups) = JournalService::create_access_items(id, lists);
                let name = match model.name { Some(n) => n, None => String::new() };
                let description = match model.description { Some(d) => d, None => String::new() };
                let unit = match model.unit { Some(u) => u, None => String::new() };
                Ok(JournalCreation {
                    model: journal::Model { id, name, description, unit, is_archived: false },
                    tags: tag_rows,
                    users,
                    groups,
                })
            },
        }
    }
}

/// What updating a journal does: nothing, or write the changed fields,
/// replace the tags when the command sets them, and replace the links to
/// users (and to groups) when there are any to write.
#[derive(Debug)]
pub enum JournalUpdate {
    Unchanged(journal::Model),
    Write {
        model: journal::ActiveModel,
        tags: Option<Vec<journal_tag::Model>>,
        users: Option<Vec<journal_user::Model>>,
        groups: Option<Vec<journal_group::Model>>,
    },
}

/// The fields that an update sets.
pub open spec fn updated_journal(command: JournalCommandUpdate) -> journal::ActiveModel {
    journal::ActiveModel {
        id: Some(command.target_id),
        name: command.name,
        description: command.description,
        unit: command.unit,
        is_archived: command.is_archived,
    }
}

/// The access lists that an update checks and writes: those loaded for the
/// command where it sets them, the current ones where it does not.
pub open spec fn chosen_lists(command: JournalCommandUpdate, loaded: AccessLists, current: AccessLists) -> AccessLists {
    AccessLists {
        admin_users: if command.admins is Some { loaded.admin_users } else { current.admin_users },
        admin_groups: if command.admins is Some { loaded.admin_groups } else { current.admin_groups },
        member_users: if command.members is Some { loaded.member_users } else { current.member_users },
        member_groups: if command.members is Some { loaded.member_groups } else { current.member_groups },
    }
}

/// The admin lists that an update checks and writes follow only whether the
/// command sets admins (the loaded ones if it does, the current ones if not),
/// and the member lists only whether it sets members.
pub proof fn lemma_chosen_lists_follow_command(
    command: JournalCommandUpdate,
    other: JournalCommandUpdate,
    loaded: AccessLists,
    current: AccessLists,
)
    ensures
        chosen_lists(command, loaded, current).admin_users == if command.admins is Some {
            loaded.admin_users
        } else {
            current.admin_users
        },
        chosen_lists(command, loaded, current).admin_groups == if command.admins is Some {
            loaded.admin_groups
        } else {
            current.admin_groups
        },
        chosen_lists(command, loaded, current).member_users == if command.members is Some {
            loaded.member_users
        } else {
            current.member_users
        },
        chosen_lists(command, loaded, current).member_groups == if command.members is Some {
            loaded.member_groups
        } else {
            current.member_groups
        },
        (command.members is Some) == (other.members is Some) ==> chosen_lists(command, loaded, current).member_users
            == chosen_lists(other, loaded, current).member_users && chosen_lists(command, loaded, current).member_groups
            == chosen_lists(other, loaded, current).member_groups,
        (command.admins is Some) == (other.admins is Some) ==> chosen_lists(command, loaded, current).admin_users
            == chosen_lists(other, loaded, current).admin_users && chosen_lists(command, loaded, current).admin_groups
            == chosen_lists(other, loaded, current).admin_groups,
{
}

/// A user that a group linked to a journal contains, as an admin or as a
/// member of the group, is held by the journal among its admins (members)
/// when the group is linked as admin (member); so the journal contains the
/// user and the user may read it.
pub proof fn lemma_linked_group_brings_users(model: journal::Model, access: JournalAccess, u: user::Model, j: int, k: int)
    requires
        0 <= j < access.groups@.len(),
        0 <= k < access.group_users@.len(),
        access.groups@[j].journal_id == model.id,
        access.group_users@[k].group_id == access.groups@[j].group_id,
        access.group_users@[k].user_id == u.id,
    ensures
        holds_user(model.id, access, u.id, access.groups@[j].is_admin),
        journal_contains(model.id, access, u.id, None),
        JournalService::readable(AuthUser::User(u), model, access),
{
    let journal_id = model.id;
    let g = access.groups@[j].group_id;
    let b = access.group_users@[k].is_admin;
    assert(super::group::in_group(g, access.group_users@, u.id, b));
    assert(group_contains(g, access.group_users@, u.id, None));
    assert(linked_group_contains(journal_id, access.groups@, access.group_users@, u.id, access.groups@[j].is_admin));
}

/// The outcome of an update of a journal.
pub open spec fn journal_update_spec(
    operator: user::Model,
    command: JournalCommandUpdate,
    existing: Option<journal::Model>,
    access: JournalAccess,
    name_is_taken: bool,
    lists: AccessLists,
) -> Result<(), ErrorV> {
    match existing {
        None => Err(id_not_found(journal::TYPE@, command.target_id)),
        Some(j) => match journal_writeable(operator, j, access) {
            Err(e) => Err(e),
            Ok(()) => if command.name is None && command.description is None && command.unit is None
                && command.tags is None && command.admins is None && command.members is None {
                Ok(())
            } else if command.name is Some && name_is_taken {
                Err(name_taken(journal::TYPE@, command.name.unwrap()@))
            } else {
                outcome_of(journal_errors(updated_journal(command), lists, match command.tags {
                    Some(t) => Some(distinct(t.deep_view())),
                    None => None,
                }))
            },
        },
    }
}

impl JournalService {
    /// Updates a journal, given the journal (if found), its access lists,
    /// whether the new name is taken, the access lists loaded for the command,
    /// and the current ones.
    pub fn update(
        operator: &user::Model,
        command: JournalCommandUpdate,
        existing: Option<journal::Model>,
        access: &JournalAccess,
        name_is_taken: bool,
        loaded: AccessLists,
        current: AccessLists,
    ) -> (r: Result<JournalUpdate, Error>)
        ensures
            ({
                let lists = chosen_lists(command, loaded, current);
                let expected = journal_update_spec(*operator, command, existing, *access, name_is_taken, lists);
                let users = user_links(command.target_id, user::ids(lists.admin_users@), user::ids(lists.member_users@));
                let groups = group_links(command.target_id, group::ids(lists.admin_groups@), group::ids(lists.member_groups@));
                match r {
                    Err(e) => expected == Err::<(), ErrorV>(e@),
                    Ok(JournalUpdate::Unchanged(m)) => expected == Ok::<(), ErrorV>(()) && Some(m) == existing
                        && command.name is None && command.description is None && command.unit is None
                        && command.tags is None && command.admins is None && command.members is None,
                    Ok(JournalUpdate::Write { model, tags, users: u, groups: g }) => expected == Ok::<(), ErrorV>(())
                        && model == updated_journal(command)
                        && model.id == Some(command.target_id) && model.name == command.name
                        && model.description == command.description && model.unit == command.unit
                        && model.is_archived == command.is_archived
                        && (match command.tags {
                            Some(t) => tags is Some && tag_rows(tags.unwrap()@, command.target_id, distinct(t.deep_view())),
                            None => tags is None,
                        })
                        && (if users.len() > 0 { u is Some && u.unwrap()@ == users } else { u is None })
                        && (if groups.len() > 0 { g is Some && g.unwrap()@ == groups } else { g is None }),
                }
            }),
            r matches Ok(JournalUpdate::Write { users: u, groups: g, .. }) ==> ({
                let admin_users = if command.admins is Some { loaded.admin_users@ } else { current.admin_users@ };
                let admin_groups = if command.admins is Some { loaded.admin_groups@ } else { current.admin_groups@ };
                let member_users = if command.members is Some { loaded.member_users@ } else { current.member_users@ };
                let member_groups = if command.members is Some { loaded.member_groups@ } else { current.member_groups@ };
                let users = user_links(command.target_id, user::ids(admin_users), user::ids(member_users));
                let groups = group_links(command.target_id, group::ids(admin_groups), group::ids(member_groups));
                &&& (if users.len() > 0 { u is Some && u.unwrap()@ == users } else { u is None })
                &&& (if groups.len() > 0 { g is Some && g.unwrap()@ == groups } else { g is None })
            }),
    {
        let j = match existing {
            None => {
                return Err(not_found(journal::TYPE, command.target_id));
            },
            Some(j) => j,
        };
        if let Err(e) = JournalService::check_writeable(operator, &j, access) {
            return Err(e);
        }
        if command.is_empty() {
            return Ok(JournalUpdate::Unchanged(j));
        }
        if name_is_taken && command.name.is_some() {
            let name = match command.name { Some(n) => n, None => String::new() };
            return Err(already_exists(journal::TYPE, name));
        }
        let ghost c0 = command;
        let target = command.target_id;
        let tags = match &command.tags {
            Some(t) => Some(dedup_texts(t)),
            None => None,
        };
        let model = journal::ActiveModel {
            id: Some(target),
            name: command.name,
            description: command.description,
            unit: command.unit,
            is_archived: command.is_archived,
        };
        let lists = AccessLists {
            admin_users: if command.admins.is_some() { loaded.admin_users } else { current.admin_users },
            admin_groups: if command.admins.is_some() { loaded.admin_groups } else { current.admin_groups },
            member_users: if command.members.is_some() { loaded.member_users } else { current.member_users },
            member_groups: if command.members.is_some() { loaded.member_groups } else { current.member_groups },
        };
        assert(lists == chosen_lists(c0, loaded, current));
        let checked = match &tags {
            Some(t) => JournalService::validate(&model, &lists, Some(t)),
            None => JournalService::validate(&model, &lists, None),
        };
        match checked {
            Err(e) => Err(e),
            Ok(()) => {
                let tag_rows = match &tags {
                    Some(t) => Some(make_tag_rows(target, t)),
                    None => None,
                };
                let (users, groups) = JournalService::create_access_items(target, &lists);
                let users = if users.len() > 0 { Some(users) } else { None };
                let groups = if groups.len() > 0 { Some(groups) } else { None };
                Ok(JournalUpdate::Write { model, tags: tag_rows, users, groups })
            },
        }
    }

    /// Whether the operator may delete the journal with the given id.
    pub fn delete(operator: &user::Model, id: u128, existing: Option<journal::Model>, access: &JournalAccess) -> (r: Result<(), Error>)
        ensures
            outcome_view(r) == match existing {
                None => Err(id_not_found(journal::TYPE@, id)),
                Some(j) => journal_writeable(*operator, j, *access),
            },
    {
        match existing {
            None => Err(not_found(journal::TYPE, id)),
            Some(j) => JournalService::check_writeable(operator, &j, access),
        }
    }
}

// ---------------------------------------------------------------------------
// The entities that belong to a journal

/// Whether the operator may read an entity of a journal (an account, a
/// record): an admin (or owner) of the service may; any other user when the
/// journal exists and contains the user; an unknown identity may not.
pub open spec fn readable_in_journal(operator: AuthUser, journal: Option<journal::Model>, access: JournalAccess) -> bool {
    match operator {
        AuthUser::User(u) => u.role.level() > user::Role::User.level() || match journal {
            Some(j) => journal_contains(j.id, access, u.id, None),
            None => false,
        },
        AuthUser::Id(_) => false,
    }
}

/// Whether the user may change an entity of a journal: an owner of the
/// service may; any other user as one who may change the journal; when the
/// journal is not found, the journal is reported missing.
pub open spec fn writeable_in_journal(
    user: user::Model,
    journal_id: u128,
    journal: Option<journal::Model>,
    access: JournalAccess,
) -> Result<(), ErrorV> {
    if user.role.level() > user::Role::Admin.level() {
        Ok(())
    } else {
        match journal {
            Some(j) => journal_writeable(user, j, access),
            None => Err(id_not_found(journal::TYPE@, journal_id)),
        }
    }
}

impl JournalService {
    /// Whether the operator may read an entity of the journal, given the
    /// journal (if found) and its access lists.
    pub fn is_entity_readable(operator: &AuthUser, journal: &Option<journal::Model>, access: &JournalAccess) -> (b: bool)
        ensures
            b == readable_in_journal(*operator, *journal, *access),
    {
        match operator {
            AuthUser::User(u) => {
                if u.role.rank() > user::Role::User.rank() {
                    return true;
                }
                match journal {
                    Some(j) => JournalService::is_readable(operator, j, access),
                    None => false,
                }
            },
            AuthUser::Id(_) => false,
        }
    }

    /// Whether the user may change an entity of the journal with the given
    /// id, given the journal (if found) and its access lists.
    pub fn check_entity_writeable(
        user: &user::Model,
        journal_id: u128,
        journal: &Option<journal::Model>,
        access: &JournalAccess,
    ) -> (r: Result<(), Error>)
        ensures
            outcome_view(r) == writeable_in_journal(*user, journal_id, *journal, *access),
    {
        if user.role.rank() > user::Role::Admin.rank() {
            Ok(())
        } else {
            match journal {
                Some(j) => JournalService::check_writeable(user, j, access),
                None => Err(not_found(journal::TYPE, journal_id)),
            }
        }
    }
}

/// Whoever may change a journal may read it.
pub proof fn lemma_journal_writer_reads(user: user::Model, model: journal::Model, access: JournalAccess)
    requires
        journal_writeable(user, model, access) is Ok,
    ensures
        JournalService::readable(AuthUser::User(user), model, access),
{
    assert(seq![FIELD_ADMINS@][0] == FIELD_ADMINS@);
}

/// Whoever may change the entities of a journal (its accounts and records)
/// may read them.
pub proof fn lemma_entity_writer_reads(
    user: user::Model,
    journal_id: u128,
    journal: Option<journal::Model>,
    access: JournalAccess,
)
    requires
        writeable_in_journal(user, journal_id, journal, access) is Ok,
    ensures
        readable_in_journal(AuthUser::User(user), journal, access),
{
    if user.role.level() <= user::Role::Admin.level() {
        lemma_journal_writer_reads(user, journal.unwrap(), access);
    }
}

/// A journal write that passes the checks leaves the journal with between
/// `MIN_ADMIN` and `MAX_ACCESS_ITEM` admins, at most `MAX_ACCESS_ITEM`
/// members, no user and no group both an admin and a member, and at most
/// `MAX_TAG` tags when it sets them.
pub proof fn lemma_checked_journal_access(model: journal::ActiveModel, lists: AccessLists, tags: Option<Seq<Seq<char>>>)
    requires
        model.id is Some,
        outcome_of(journal_errors(model, lists, tags)) == Ok::<(), ErrorV>(()),
    ensures
        MIN_ADMIN <= lists.admin_users@.len() + lists.admin_groups@.len() <= MAX_ACCESS_ITEM,
        lists.member_users@.len() + lists.member_groups@.len() <= MAX_ACCESS_ITEM,
        forall|i: int|
            0 <= i < lists.admin_users@.len() ==> !user::ids(lists.member_users@).contains(
                #[trigger] user::ids(lists.admin_users@)[i],
            ),
        forall|i: int|
            0 <= i < lists.admin_groups@.len() ==> !group::ids(lists.member_groups@).contains(
                #[trigger] group::ids(lists.admin_groups@)[i],
            ),
        tags matches Some(t) ==> t.len() <= super::MAX_TAG,
{
    let entity = journal::TYPE@;
    let id = model.id.unwrap();
    assert(journal_errors(model, lists, tags).len() == 0);
    lemma_no_duplicates(entity, id, AccessItemType::User, user::ids(lists.admin_users@), user::ids(lists.member_users@));
    lemma_no_duplicates(entity, id, AccessItemType::Group, group::ids(lists.admin_groups@), group::ids(lists.member_groups@));
}

/// Who may change a journal: an owner of the service always; any other user
/// (an admin of the service too) exactly when the journal holds the user
/// among its admins, directly or through a group linked as admin.
pub proof fn lemma_journal_write_rules(u: user::Model, model: journal::Model, access: JournalAccess)
    ensures
        u.role == user::Role::Owner ==> journal_writeable(u, model, access) is Ok,
        u.role != user::Role::Owner ==> (journal_writeable(u, model, access) is Ok <==> holds_user(
            model.id,
            access,
            u.id,
            true,
        )),
        u.role != user::Role::Owner && !holds_user(model.id, access, u.id, true) ==> journal_writeable(u, model, access)
            == Err::<(), ErrorV>(permission_refused(u.id, journal::TYPE@, model.id)),
{
    reveal_strlit("admins");
    reveal_strlit("members");
    assert(seq![FIELD_ADMINS@][0] == FIELD_ADMINS@);
    assert(!seq![FIELD_ADMINS@].contains(FIELD_MEMBERS@)) by {
        if seq![FIELD_ADMINS@].contains(FIELD_MEMBERS@) {
            assert(FIELD_ADMINS@[0] == 'a');
            assert(FIELD_MEMBERS@[0] == 'm');
        }
    }
}

/// Who may read a journal: an admin or owner of the service always; a plain
/// user exactly when the journal holds the user among its admins or its
/// members; an unknown identity never.
pub proof fn lemma_journal_read_rules(u: user::Model, model: journal::Model, access: JournalAccess)
    ensures
        u.role != user::Role::User ==> JournalService::readable(AuthUser::User(u), model, access),
        u.role == user::Role::User ==> (JournalService::readable(AuthUser::User(u), model, access) <==> (holds_user(
            model.id,
            access,
            u.id,
            true,
        ) || holds_user(model.id, access, u.id, false))),
{
}

/// Who may change an account or a record: an owner of the service always;
/// any other user as one who may change its journal; where that journal is
/// missing, the journal is reported not found.
pub proof fn lemma_entity_write_rules(u: user::Model, journal_id: u128, journal: Option<journal::Model>, access: JournalAccess)
    ensures
        u.role == user::Role::Owner ==> writeable_in_journal(u, journal_id, journal, access) is Ok,
        u.role != user::Role::Owner && journal is None ==> writeable_in_journal(u, journal_id, journal, access)
            == Err::<(), ErrorV>(id_not_found(journal::TYPE@, journal_id)),
        u.role != user::Role::Owner && journal is Some ==> (writeable_in_journal(u, journal_id, journal, access) is Ok
            <==> holds_user(journal.unwrap().id, access, u.id, true)),
{
    if journal is Some {
        lemma_journal_write_rules(u, journal.unwrap(), access);
    }
}

/// The checks of a query on a journal: a full-text search keeps it when its
/// name, description or one of its tags holds the text (one field is
/// enough), and drops it when none does; a containing-user query keeps it
/// exactly when the journal contains the user in the fields asked for.
pub proof fn lemma_journal_keeps(model: journal::Model, facts: JournalFacts, value: Seq<char>, user: u128, object: bool, fields: Option<Seq<Seq<char>>>)
    ensures
        contains_text(model.name@, value) || contains_text(model.description@, value) || any_tag_contains(
            facts.tags.deep_view(),
            value,
        ) <==> journal_keeps(model, facts, ExternalQueryV::FullText { value, fields: None }),
        journal_keeps(model, facts, ExternalQueryV::ContainingUser { id: user, object, fields }) == journal_contains(
            model.id,
            facts.access,
            user,
            fields,
        ),
{
    super::full_text::lemma_search_any_field(
        Some(model.name@),
        model.description@,
        facts.tags.deep_view(),
        value,
        Seq::empty(),
        Seq::empty(),
    );
}

/// A journal write within the limits passes the checks: a name (when set)
/// of `MIN_NAME` to `MAX_NAME` bytes, a description (when set) of at most
/// `MAX_DESCRIPTION` bytes, between `MIN_ADMIN` and `MAX_ACCESS_ITEM`
/// admins, at most `MAX_ACCESS_ITEM` members, no user or group both an admin
/// and a member, and (when set) at most `MAX_TAG` tags of at most
/// `MAX_TAG_ITEM` bytes.
pub proof fn lemma_journal_within_limits_passes(model: journal::ActiveModel, lists: AccessLists, tags: Option<Seq<Seq<char>>>)
    requires
        model.name matches Some(n) ==> super::MIN_NAME <= crate::errors::byte_len(n@) <= super::MAX_NAME,
        model.description matches Some(d) ==> crate::errors::byte_len(d@) <= super::MAX_DESCRIPTION,
        MIN_ADMIN <= lists.admin_users@.len() + lists.admin_groups@.len() <= MAX_ACCESS_ITEM,
        lists.member_users@.len() + lists.member_groups@.len() <= MAX_ACCESS_ITEM,
        forall|i: int|
            0 <= i < user::ids(lists.admin_users@).len() ==> !user::ids(lists.member_users@).contains(
                #[trigger] user::ids(lists.admin_users@)[i],
            ),
        forall|i: int|
            0 <= i < group::ids(lists.admin_groups@).len() ==> !group::ids(lists.member_groups@).contains(
                #[trigger] group::ids(lists.admin_groups@)[i],
            ),
        tags matches Some(t) ==> t.len() <= super::MAX_TAG && forall|i: int|
            0 <= i < t.len() ==> crate::errors::byte_len(#[trigger] t[i]) <= super::MAX_TAG_ITEM,
    ensures
        outcome_of(journal_errors(model, lists, tags)) == Ok::<(), ErrorV>(()),
{
    let entity = journal::TYPE@;
    let id = model.id.unwrap();
    lemma_no_duplicate_errors(entity, id, AccessItemType::User, user::ids(lists.admin_users@), user::ids(lists.member_users@));
    lemma_no_duplicate_errors(entity, id, AccessItemType::Group, group::ids(lists.admin_groups@), group::ids(lists.member_groups@));
    if let Some(t) = tags {
        crate::errors::lemma_tags_within_limits(entity, t);
    }
    assert(journal_errors(model, lists, tags) =~= Seq::<ErrorV>::empty());
}

} // verus!
