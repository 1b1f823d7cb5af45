//! Groups of users: their queries, who belongs to them, who may change them,
//! and the plans of their writes.
use vstd::prelude::*;

use super::auth::{already_exists, id_not_found, name_taken, not_found, permission_refused, refuse_write, AuthUser};
use super::condition::{id_values, Atom, AtomV, Clause, ClauseV, Column, Condition, Value, ValueV};
use super::read_service::{
    add_id_query, add_text_value, externals_view, id_clauses, plain_search, push_plain_search, push_text_search,
    text_search, text_value_clauses, ContainingUserQuery, ExternalQuery, ExternalQueryV, FullTextQuery, IdQuery,
    TextQuery,
};
use super::validation::{
    lemma_no_duplicates, check_description, check_duplicates, check_name, description_errors, duplicate_errors, name_errors, opt_text,
    push_error,
};
use super::write_service::AbstractCommand;
use super::{FIELD_ADMINS, FIELD_DESCRIPTION, FIELD_MEMBERS, FIELD_NAME, MAX_ACCESS_ITEM};
use crate::errors::{errors_view, into_outcome, outcome_of, outcome_view, Error, ErrorV};
use crate::ids::new_id;
use crate::models::{group, group_user, user, AccessItemType};
use crate::text::{contains_text, str_contains, text_is};

verus! {

/// A query on groups.
#[derive(Clone, Debug)]
pub struct GroupQuery {
    pub containing_user: Option<ContainingUserQuery>,
    pub id: Option<IdQuery>,
    pub name: Option<TextQuery>,
    pub description: Option<String>,
    pub admins: Option<Vec<u128>>,
    pub members: Option<Vec<u128>>,
}

/// The flag comparisons that the fields of a containing-user query add:
/// `admins` asks for the admin flag, `members` for its absence.
pub open spec fn field_flags(fields: Seq<Seq<char>>) -> Seq<AtomV>
    decreases fields.len(),
{
    if fields.len() == 0 {
        Seq::empty()
    } else {
        let rest = field_flags(fields.drop_last());
        let f = fields.last();
        if f == FIELD_ADMINS@ {
            rest.push(AtomV::Eq(Column::GroupUserIsAdmin, ValueV::Bool(true)))
        } else if f == FIELD_MEMBERS@ {
            rest.push(AtomV::Eq(Column::GroupUserIsAdmin, ValueV::Bool(false)))
        } else {
            rest
        }
    }
}

/// The clause of a containing-user query: the user is in the group, with the
/// flags that its fields ask for.
pub open spec fn containing_clauses(q: Option<ContainingUserQuery>) -> Seq<ClauseV> {
    match q {
        Some(c) => {
            let user = AtomV::Eq(Column::GroupUserUserId, ValueV::Id(c.spec_id()));
            let flags = match c {
                ContainingUserQuery::Object { fields: Some(fs), .. } => field_flags(fs.deep_view()),
                _ => Seq::empty(),
            };
            seq![ClauseV::All(seq![user] + flags)]
        },
        None => Seq::empty(),
    }
}

/// The clause that some users are in the group with (or without) the admin flag.
pub open spec fn flag_clauses(ids: Option<Vec<u128>>, is_admin: bool) -> Seq<ClauseV> {
    match ids {
        Some(v) => seq![
            ClauseV::All(
                seq![
                    AtomV::IsIn(Column::GroupUserUserId, Seq::new(v@.len(), |i: int| ValueV::Id(v@[i]))),
                    AtomV::Eq(Column::GroupUserIsAdmin, ValueV::Bool(is_admin)),
                ],
            ),
        ],
        None => Seq::empty(),
    }
}

/// The condition of a group query: its id, exact name, a containing user, and
/// admins and members.
pub open spec fn group_condition(q: GroupQuery) -> Seq<ClauseV> {
    id_clauses(q.id, Column::GroupId) + text_value_clauses(q.name, Column::GroupName) + containing_clauses(
        q.containing_user,
    ) + flag_clauses(q.admins, true) + flag_clauses(q.members, false)
}

/// The checks of a group query that the service makes itself.
pub open spec fn group_external(q: GroupQuery) -> Seq<ExternalQueryV> {
    text_search(q.name, FIELD_NAME@) + plain_search(q.description, FIELD_DESCRIPTION@)
}

fn make_field_flags(fields: &Vec<String>) -> (atoms: Vec<Atom>)
    ensures
        crate::services::condition::atoms_view(atoms@) == field_flags(fields.deep_view()),
{
    let mut atoms: Vec<Atom> = Vec::new();
    let ghost fs = fields.deep_view();
    for i in 0..fields.len()
        invariant
            fs == fields.deep_view(),
            crate::services::condition::atoms_view(atoms@) =~= field_flags(fs.take(i as int)),
    {
        assert(fs.take(i + 1).drop_last() =~= fs.take(i as int));
        assert(fs.take(i + 1).last() == fields@[i as int]@);
        if text_is(&fields[i], FIELD_ADMINS) {
            atoms.push(Atom::Eq(Column::GroupUserIsAdmin, Value::Bool(true)));
        } else if text_is(&fields[i], FIELD_MEMBERS) {
            atoms.push(Atom::Eq(Column::GroupUserIsAdmin, Value::Bool(false)));
        }
    }
    assert(fs.take(fields.len() as int) =~= fs);
    atoms
}

fn make_flag_clause(ids: &Vec<u128>, is_admin: bool) -> (c: Clause)
    ensures
        seq![c@] == flag_clauses(Some(*ids), is_admin),
{
    let vs = id_values(ids);
    let mut atoms: Vec<Atom> = Vec::new();
    atoms.push(Atom::IsIn(Column::GroupUserUserId, vs));
    atoms.push(Atom::Eq(Column::GroupUserIsAdmin, Value::Bool(is_admin)));
    let c = Clause::All(atoms);
    assert(c@->All_0 =~= flag_clauses(Some(*ids), is_admin)[0]->All_0);
    c
}

impl GroupQuery {
    /// The condition that the groups of the query meet in storage.
    pub fn into_condition(self) -> (cond: Condition)
        ensures
            cond@ == group_condition(self),
    {
        let ghost q = self;
        let mut cond = Condition::all();
        add_id_query(&mut cond, self.id, Column::GroupId);
        add_text_value(&mut cond, self.name, Column::GroupName);
        let ghost before = cond@;
        if let Some(c) = self.containing_user {
            let mut atoms: Vec<Atom> = Vec::new();
            atoms.push(Atom::Eq(Column::GroupUserUserId, Value::Id(c.id())));
            let ghost first = atoms@;
            if let ContainingUserQuery::Object { fields: Some(fields), .. } = &c {
                let mut flags = make_field_flags(fields);
                atoms.append(&mut flags);
            }
            let clause = Clause::All(atoms);
            assert(clause@->All_0 =~= containing_clauses(Some(c))[0]->All_0);
            cond.add(clause);
            assert(cond@ =~= before + containing_clauses(Some(c)));
        } else {
            assert(cond@ =~= before + containing_clauses(q.containing_user));
        }
        let ghost before_admins = cond@;
        if let Some(admins) = self.admins {
            cond.add(make_flag_clause(&admins, true));
            assert(cond@ =~= before_admins + flag_clauses(Some(admins), true));
        }
        let ghost before_members = cond@;
        if let Some(members) = self.members {
            cond.add(make_flag_clause(&members, false));
            assert(cond@ =~= before_members + flag_clauses(Some(members), false));
        }
        assert(cond@ =~= group_condition(q));
        cond
    }

    /// The parts of the query that the service checks itself: full-text
    /// searches of the name and of the description.
    pub fn into_external_queries(self) -> (v: Vec<ExternalQuery>)
        ensures
            externals_view(v@) == group_external(self),
    {
        let mut v: Vec<ExternalQuery> = Vec::new();
        assert(externals_view(v@) =~= Seq::empty());
        push_text_search(&mut v, self.name, FIELD_NAME);
        push_plain_search(&mut v, self.description, FIELD_DESCRIPTION);
        assert(externals_view(v@) =~= group_external(self));
        v
    }
}

// ---------------------------------------------------------------------------
// The service

/// Groups.
pub struct GroupService {}

/// The fields that a containing-user check asks for include `field`; when it
/// names none, it asks for the admins and the members.
pub open spec fn asks_field(fields: Option<Seq<Seq<char>>>, field: Seq<char>) -> bool {
    match fields {
        Some(fs) => fs.contains(field),
        None => field == FIELD_ADMINS@ || field == FIELD_MEMBERS@,
    }
}

/// The user belongs to the group with (or without) the admin flag.
pub open spec fn in_group(group_id: u128, rows: Seq<group_user::Model>, user: u128, is_admin: bool) -> bool {
    exists|j: int|
        0 <= j < rows.len() && #[trigger] rows[j].group_id == group_id && rows[j].user_id == user && rows[j].is_admin
            == is_admin
}

/// The group contains the user in one of the fields asked for.
pub open spec fn group_contains(group_id: u128, rows: Seq<group_user::Model>, user: u128, fields: Option<Seq<Seq<char>>>) -> bool {
    ||| asks_field(fields, FIELD_ADMINS@) && in_group(group_id, rows, user, true)
    ||| asks_field(fields, FIELD_MEMBERS@) && in_group(group_id, rows, user, false)
}

/// Whether one field of a group passes a full-text search: the name and the
/// description must hold the text, other fields pass.
pub open spec fn group_field_matches(model: group::Model, value: Seq<char>, field: Seq<char>) -> bool {
    (field == FIELD_NAME@ ==> contains_text(model.name@, value)) && (field == FIELD_DESCRIPTION@ ==> contains_text(
        model.description@,
        value,
    ))
}

/// Every named field of a group passes a full-text search.
pub open spec fn group_fields_match(model: group::Model, value: Seq<char>, fields: Seq<Seq<char>>) -> bool {
    forall|k: int| 0 <= k < fields.len() ==> group_field_matches(model, value, #[trigger] fields[k])
}

/// Whether a full-text search keeps a group: with fields, every named field
/// holds the text (other fields pass); without, the name or the description does.
pub open spec fn group_text_matches(model: group::Model, value: Seq<char>, fields: Option<Seq<Seq<char>>>) -> bool {
    match fields {
        Some(fs) => group_fields_match(model, value, fs),
        None => contains_text(model.name@, value) || contains_text(model.description@, value),
    }
}

/// Whether an external query keeps a group (a containing-user query keeps
/// every group: storage has checked it).
pub open spec fn group_keeps(model: group::Model, q: ExternalQueryV) -> bool {
    match q {
        ExternalQueryV::FullText { value, fields } => group_text_matches(model, value, fields),
        _ => true,
    }
}

/// A command on groups.
#[derive(Debug)]
pub enum GroupCommand {
    Create(GroupCommandCreate),
    Update(GroupCommandUpdate),
    Delete(u128),
}

#[derive(Debug)]
pub struct GroupCommandCreate {
    pub target_id: Option<u128>,
    pub name: String,
    pub description: String,
    pub admins: Vec<u128>,
    pub members: Vec<u128>,
}

#[derive(Debug)]
pub struct GroupCommandUpdate {
    pub target_id: u128,
    pub name: Option<String>,
    pub description: Option<String>,
    pub admins: Option<Vec<u128>>,
    pub members: Option<Vec<u128>>,
}

impl GroupCommandUpdate {
    /// The update changes nothing.
    pub fn is_empty(&self) -> (b: bool)
        ensures
            b == (self.name is None && self.description is None && self.admins is None && self.members is None),
    {
        self.name.is_none() && self.description.is_none() && self.admins.is_none() && self.members.is_none()
    }
}

impl AbstractCommand for GroupCommand {
    open spec fn spec_target_id(&self) -> Option<u128> {
        match self {
            GroupCommand::Create(c) => c.target_id,
            GroupCommand::Update(c) => Some(c.target_id),
            GroupCommand::Delete(id) => Some(*id),
        }
    }

    open spec fn spec_with_target_id(self, id: u128) -> Self {
        match self {
            GroupCommand::Create(c) => GroupCommand::Create(GroupCommandCreate { target_id: Some(id), ..c }),
            GroupCommand::Update(c) => GroupCommand::Update(GroupCommandUpdate { target_id: id, ..c }),
            GroupCommand::Delete(_) => GroupCommand::Delete(id),
        }
    }

    proof fn lemma_with_target_id(self, id: u128) {
    }

    fn target_id(&self) -> (id: Option<u128>) {
        match self {
            GroupCommand::Create(c) => c.target_id,
            GroupCommand::Update(c) => Some(c.target_id),
            GroupCommand::Delete(id) => Some(*id),
        }
    }

    fn with_target_id(self, id: u128) -> (c: Self) {
        match self {
            GroupCommand::Create(c) => GroupCommand::Create(GroupCommandCreate { target_id: Some(id), ..c }),
            GroupCommand::Update(c) => GroupCommand::Update(GroupCommandUpdate { target_id: id, ..c }),
            GroupCommand::Delete(_) => GroupCommand::Delete(id),
        }
    }
}

/// The errors of a group write: name, description, at most `MAX_ACCESS_ITEM`
/// admins and members, and no user both an admin and a member.
pub open spec fn group_errors(model: group::ActiveModel, admins: Seq<u128>, members: Seq<u128>) -> Seq<ErrorV> {
    let entity = group::TYPE@;
    name_errors(entity, opt_text(model.name)) + description_errors(entity, opt_text(model.description)) + (if admins.len()
        > MAX_ACCESS_ITEM {
        seq![ErrorV::MaxLength { entity, field: FIELD_ADMINS@, value: MAX_ACCESS_ITEM }]
    } else {
        Seq::empty()
    }) + (if members.len() > MAX_ACCESS_ITEM {
        seq![ErrorV::MaxLength { entity, field: FIELD_MEMBERS@, value: MAX_ACCESS_ITEM }]
    } else {
        Seq::empty()
    }) + duplicate_errors(entity, model.id.unwrap(), AccessItemType::User, admins, members)
}

/// What creating a group writes: the group and its memberships.
#[derive(Debug)]
pub struct GroupCreation {
    pub model: group::Model,
    pub users: Vec<group_user::Model>,
}

/// What updating a group does: nothing, or write the changed fields and
/// replace all memberships.
#[derive(Debug)]
pub enum GroupUpdate {
    Unchanged(group::Model),
    Write { model: group::ActiveModel, users: Vec<group_user::Model> },
}

/// The memberships of a group: the admins with the flag, then the members without.
pub open spec fn memberships(group_id: u128, admins: Seq<u128>, members: Seq<u128>) -> Seq<group_user::Model> {
    Seq::new(admins.len(), |i: int| group_user::Model { group_id, user_id: admins[i], is_admin: true }) + Seq::new(
        members.len(),
        |i: int| group_user::Model { group_id, user_id: members[i], is_admin: false },
    )
}

fn make_memberships(group_id: u128, admins: &Vec<u128>, members: &Vec<u128>) -> (rows: Vec<group_user::Model>)
    ensures
        rows@ == memberships(group_id, admins@, members@),
{
    let mut rows: Vec<group_user::Model> = Vec::new();
    for i in 0..admins.len()
        invariant
            rows@ =~= Seq::new(i as nat, |k: int| group_user::Model { group_id, user_id: admins@[k], is_admin: true }),
    {
        rows.push(group_user::Model { group_id, user_id: admins[i], is_admin: true });
    }
    let ghost first = rows@;
    for i in 0..members.len()
        invariant
            rows@ =~= first + Seq::new(i as nat, |k: int| group_user::Model { group_id, user_id: members@[k], is_admin: false }),
    {
        rows.push(group_user::Model { group_id, user_id: members[i], is_admin: false });
    }
    rows
}

/// Whether the user may change the group: an admin (or owner) of the service
/// may, a plain user only as an admin of the group.
pub open spec fn group_writeable(user: user::Model, model: group::Model, rows: Seq<group_user::Model>) -> Result<(), ErrorV> {
    if user.role.level() > user::Role::User.level() {
        Ok(())
    } else if group_contains(model.id, rows, user.id, Some(seq![FIELD_ADMINS@])) {
        Ok(())
    } else {
        Err(permission_refused(user.id, group::TYPE@, model.id))
    }
}

/// The outcome of an update of a group.
pub open spec fn group_update_spec(
    operator: user::Model,
    command: GroupCommandUpdate,
    existing: Option<group::Model>,
    rows: Seq<group_user::Model>,
    name_is_taken: bool,
    admins: Seq<u128>,
    members: Seq<u128>,
) -> Result<(), ErrorV> {
    match existing {
        None => Err(id_not_found(group::TYPE@, command.target_id)),
        Some(g) => match group_writeable(operator, g, rows) {
            Err(e) => Err(e),
            Ok(()) => if command.name is None && command.description is None && command.admins is None
                && command.members is None {
                Ok(())
            } else if command.name is Some && name_is_taken {
                Err(name_taken(group::TYPE@, command.name.unwrap()@))
            } else {
                outcome_of(group_errors(group::ActiveModel {
                    id: Some(command.target_id),
                    name: command.name,
                    description: command.description,
                }, admins, members))
            },
        },
    }
}

impl GroupService {
    /// Whether the group contains the user in one of the fields asked for
    /// (`None`: the admins and the members), given the memberships.
    pub fn contain_user(model: &group::Model, rows: &Vec<group_user::Model>, user: u128, fields: Option<Vec<String>>) -> (b: bool)
        ensures
            b == group_contains(model.id, rows@, user, crate::services::read_service::opt_texts_view(fields)),
    {
        let ghost fs = crate::services::read_service::opt_texts_view(fields);
        let admin = GroupService::in_group(model.id, rows, user, true);
        let member = GroupService::in_group(model.id, rows, user, false);
        match fields {
            None => admin || member,
            Some(fields) => {
                let mut asks_admins = false;
                let mut asks_members = false;
                for i in 0..fields.len()
                    invariant
                        asks_admins == fields.deep_view().take(i as int).contains(FIELD_ADMINS@),
                        asks_members == fields.deep_view().take(i as int).contains(FIELD_MEMBERS@),
                {
                    let ghost t = fields.deep_view().take(i + 1);
                    assert(t =~= fields.deep_view().take(i as int).push(fields@[i as int]@));
                    if text_is(&fields[i], FIELD_ADMINS) {
                        asks_admins = true;
                    }
                    if text_is(&fields[i], FIELD_MEMBERS) {
                        asks_members = true;
                    }
                    assert(t.contains(FIELD_ADMINS@) == (fields.deep_view().take(i as int).contains(FIELD_ADMINS@)
                        || fields@[i as int]@ == FIELD_ADMINS@)) by {
                        if t.contains(FIELD_ADMINS@) {
                            let k = choose|k: int| 0 <= k < t.len() && t[k] == FIELD_ADMINS@;
                            if k < i {
                                assert(fields.deep_view().take(i as int)[k] == t[k]);
                            }
                        }
                        if fields@[i as int]@ == FIELD_ADMINS@ {
                            assert(t[i as int] == FIELD_ADMINS@);
                        }
                    }
                    assert(t.contains(FIELD_MEMBERS@) == (fields.deep_view().take(i as int).contains(FIELD_MEMBERS@)
                        || fields@[i as int]@ == FIELD_MEMBERS@)) by {
                        if t.contains(FIELD_MEMBERS@) {
                            let k = choose|k: int| 0 <= k < t.len() && t[k] == FIELD_MEMBERS@;
                            if k < i {
                                assert(fields.deep_view().take(i as int)[k] == t[k]);
                            }
                        }
                        if fields@[i as int]@ == FIELD_MEMBERS@ {
                            assert(t[i as int] == FIELD_MEMBERS@);
                        }
                    }
                }
                assert(fields.deep_view().take(fields.len() as int) =~= fields.deep_view());
                (asks_admins && admin) || (asks_members && member)
            },
        }
    }

    /// The user belongs to the group with (or without) the admin flag.
    pub fn in_group(group_id: u128, rows: &Vec<group_user::Model>, user: u128, is_admin: bool) -> (b: bool)
        ensures
            b == in_group(group_id, rows@, user, is_admin),
    {
        for j in 0..rows.len()
            invariant
                forall|k: int|
                    0 <= k < j ==> !(#[trigger] rows@[k].group_id == group_id && rows@[k].user_id == user
                        && rows@[k].is_admin == is_admin),
        {
            if rows[j].group_id == group_id && rows[j].user_id == user && rows[j].is_admin == is_admin {
                return true;
            }
        }
        false
    }

    /// A known user may read a group if an admin (or owner) of the service, or
    /// if a member or admin of the group; an unknown identity may not.
    pub fn is_readable(operator: &AuthUser, model: &group::Model, rows: &Vec<group_user::Model>) -> (b: bool)
        ensures
            b == group_readable(*operator, *model, rows@),
    {
        match operator {
            AuthUser::User(u) => u.role.rank() > user::Role::User.rank() || GroupService::contain_user(model, rows, u.id, None),
            AuthUser::Id(_) => false,
        }
    }

    /// Whether a full-text search keeps the group.
    pub fn matches_full_text(model: &group::Model, query: &FullTextQuery) -> (b: bool)
        ensures
            b == group_text_matches(*model, query.value@, crate::services::read_service::opt_texts_view(query.fields)),
    {
        match &query.fields {
            Some(fields) => {
                let name_hit = str_contains(model.name.as_str(), query.value.as_str());
                let description_hit = str_contains(model.description.as_str(), query.value.as_str());
                for k in 0..fields.len()
                    invariant
                        crate::services::read_service::opt_texts_view(query.fields) == Some(fields.deep_view()),
                        name_hit == contains_text(model.name@, query.value@),
                        description_hit == contains_text(model.description@, query.value@),
                        forall|m: int| 0 <= m < k ==> group_field_matches(*model, query.value@, #[trigger] fields.deep_view()[m]),
                {
                    let ghost fs = fields.deep_view();
                    assert(fs[k as int] == fields@[k as int]@);
                    assert(fs.len() == fields@.len());
                    if text_is(&fields[k], FIELD_NAME) && !name_hit {
                        return false;
                    }
                    if text_is(&fields[k], FIELD_DESCRIPTION) && !description_hit {
                        return false;
                    }
                }
                true
            },
            None => str_contains(model.name.as_str(), query.value.as_str()) || str_contains(
                model.description.as_str(),
                query.value.as_str(),
            ),
        }
    }

    /// Keeps the groups that the external query keeps, in order.
    pub fn filter_by_external_query(items: Vec<group::Model>, external_query: &ExternalQuery) -> (kept: Vec<group::Model>)
        ensures
            kept@ == items@.filter(|m: group::Model| group_keeps(m, external_query@)),
    {
        let ghost pred = |m: group::Model| group_keeps(m, external_query@);
        let mut kept: Vec<group::Model> = Vec::new();
        let ghost source = items@;
        let mut items = crate::services::read_service::reverse_vec(items);
        while items.len() > 0
            invariant
                pred == (|m: group::Model| group_keeps(m, external_query@)),
                items@ == source.skip(source.len() - items@.len()).reverse(),
                items@.len() <= source.len(),
                kept@ == source.take(source.len() - items@.len()).filter(pred),
            decreases items.len(),
        {
            let ghost k = (source.len() - items@.len()) as int;
            let m = items.pop().unwrap();
            assert(m == source[k]);
            assert(items@ =~= source.skip(k + 1).reverse());
            let keep = match external_query {
                ExternalQuery::FullText(q) => GroupService::matches_full_text(&m, q),
                _ => true,
            };
            assert(keep == pred(m));
            let ghost old_kept = kept@;
            if keep {
                kept.push(m);
            }
            assert(source.take(k + 1) =~= source.take(k).push(m));
            proof { source.take(k).lemma_filter_push(m, pred); }
            assert(source.take(k + 1).filter(pred) == if pred(m) { source.take(k).filter(pred).push(m) } else {
                source.take(k).filter(pred)
            });
            assert(kept@ == source.take(k + 1).filter(pred));
            assert(source.len() - items@.len() == k + 1);
        }
        assert(source.take(source.len() as int) =~= source);
        assert(source.take(0) =~= Seq::<group::Model>::empty());
        kept
    }

    /// The column of a field that groups can be sorted by.
    pub fn sortable_field(field: &str) -> (c: Option<Column>)
        ensures
            c == (if field@ == FIELD_NAME@ { Some(Column::GroupName) } else { None::<Column> }),
    {
        let f = field.to_owned();
        if text_is(&f, FIELD_NAME) {
            Some(Column::GroupName)
        } else {
            None
        }
    }

    /// The id column of groups.
    pub fn primary_field() -> (c: Column)
        ensures
            c == Column::GroupId,
    {
        Column::GroupId
    }

    /// The id of a group.
    pub fn primary_value(model: &group::Model) -> (id: u128)
        ensures
            id == model.id,
    {
        model.id
    }

    /// The value of a group for a sortable field.
    pub fn sortable_value(field: &str, model: &group::Model) -> (v: Option<Value>)
        ensures
            crate::services::read_service::opt_value_view(v) == (if field@ == FIELD_NAME@ {
                Some(ValueV::Text(model.name@))
            } else {
                None::<ValueV>
            }),
    {
        match GroupService::sortable_field(field) {
            Some(_) => Some(Value::Text(model.name.clone())),
            None => None,
        }
    }

    /// The checks of a group write.
    pub fn validate(model: &group::ActiveModel, admins: &Vec<user::Model>, members: &Vec<user::Model>) -> (r: Result<(), Error>)
        requires
            model.id is Some,
        ensures
            outcome_view(r) == outcome_of(group_errors(*model, user::ids(admins@), user::ids(members@))),
    {
        let mut errors: Vec<Error> = Vec::new();
        assert(errors_view(errors@) =~= Seq::empty());
        check_name(group::TYPE, &model.name, &mut errors);
        check_description(group::TYPE, &model.description, &mut errors);
        let ghost before_counts = errors_view(errors@);
        if admins.len() > MAX_ACCESS_ITEM {
            push_error(
                &mut errors,
                Error::MaxLength { entity: group::TYPE.to_owned(), field: FIELD_ADMINS.to_owned(), value: MAX_ACCESS_ITEM },
            );
        }
        if members.len() > MAX_ACCESS_ITEM {
            push_error(
                &mut errors,
                Error::MaxLength { entity: group::TYPE.to_owned(), field: FIELD_MEMBERS.to_owned(), value: MAX_ACCESS_ITEM },
            );
        }
        let admin_ids = user::ids_of(admins);
        let member_ids = user::ids_of(members);
        let id = match model.id {
            Some(id) => id,
            None => 0,
        };
        check_duplicates(group::TYPE, id, AccessItemType::User, &admin_ids, &member_ids, &mut errors);
        assert(errors_view(errors@) =~= group_errors(*model, user::ids(admins@), user::ids(members@)));
        into_outcome(errors)
    }

    /// Whether the user may change the group.
    pub fn check_writeable(user: &user::Model, model: &group::Model, rows: &Vec<group_user::Model>) -> (r: Result<(), Error>)
        ensures
            outcome_view(r) == group_writeable(*user, *model, rows@),
    {
        if user.role.rank() > user::Role::User.rank() {
            return Ok(());
        }
        let mut fields: Vec<String> = Vec::new();
        fields.push(FIELD_ADMINS.to_owned());
        assert(fields.deep_view() =~= seq![FIELD_ADMINS@]);
        if !GroupService::contain_user(model, rows, user.id, Some(fields)) {
            return Err(refuse_write(user.id, group::TYPE, model.id));
        }
        Ok(())
    }

    /// The users to load as the admins of a new group: those of the command and
    /// the operator.
    pub fn admins_to_load(operator: &user::Model, command: &GroupCommandCreate) -> (ids: Vec<u128>)
        ensures
            ids@ == command.admins@.push(operator.id),
    {
        let mut ids = command.admins.clone();
        ids.push(operator.id);
        ids
    }

    /// Creates a group: its name must be free; the admins (the command's and
    /// the operator, as loaded) and members must pass the checks.
    pub fn create(
        operator: &user::Model,
        command: GroupCommandCreate,
        name_is_taken: bool,
        admins: &Vec<user::Model>,
        members: &Vec<user::Model>,
    ) -> (r: Result<GroupCreation, Error>)
        ensures
            name_is_taken ==> (r matches Err(e) && e@ == name_taken(group::TYPE@, command.name@)),
            !name_is_taken ==> match r {
                Ok(c) => outcome_of(group_errors(group::ActiveModel {
                    id: Some(c.model.id),
                    name: Some(command.name),
                    description: Some(command.description),
                }, user::ids(admins@), user::ids(members@))) == Ok::<(), ErrorV>(())
                    && c.model.name == command.name && c.model.description == command.description
                    && c.users@ == memberships(c.model.id, user::ids(admins@), user::ids(members@)),
                Err(e) => exists|id: u128| Err::<(), ErrorV>(e@) == outcome_of(group_errors(group::ActiveModel {
                    id: Some(id),
                    name: Some(command.name),
                    description: Some(command.description),
                }, user::ids(admins@), user::ids(members@))),
            },
    {
        if name_is_taken {
            return Err(already_exists(group::TYPE, command.name));
        }
        let id = new_id();
        let model = group::ActiveModel { id: Some(id), name: Some(command.name), description: Some(command.description) };
        match GroupService::validate(&model, admins, members) {
            Err(e) => Err(e),
            Ok(()) => {
                let admin_ids = user::ids_of(admins);
                let member_ids = user::ids_of(members);
                let users = make_memberships(id, &admin_ids, &member_ids);
                let name = match model.name { Some(n) => n, None => String::new() };
                let description = match model.description { Some(d) => d, None => String::new() };
                Ok(GroupCreation { model: group::Model { id, name, description }, users })
            },
        }
    }

    /// Updates a group, given the group (if found), its memberships, whether
    /// the new name is taken, the admins and members loaded for the command,
    /// and the current admins and members.
    pub fn update(
        operator: &user::Model,
        command: GroupCommandUpdate,
        existing: Option<group::Model>,
        rows: &Vec<group_user::Model>,
        name_is_taken: bool,
        loaded_admins: &Vec<user::Model>,
        loaded_members: &Vec<user::Model>,
        current_admins: &Vec<user::Model>,
        current_members: &Vec<user::Model>,
    ) -> (r: Result<GroupUpdate, Error>)
        ensures
            ({
                let admins = user::ids(if command.admins is Some { loaded_admins@ } else { current_admins@ });
                let members = user::ids(if command.members is Some { loaded_members@ } else { current_members@ });
                let expected = group_update_spec(*operator, command, existing, rows@, name_is_taken, admins, members);
                match r {
                    Err(e) => expected == Err::<(), ErrorV>(e@),
                    Ok(GroupUpdate::Unchanged(m)) => expected == Ok::<(), ErrorV>(()) && Some(m) == existing
                        && command.name is None && command.description is None && command.admins is None
                        && command.members is None,
                    Ok(GroupUpdate::Write { model, users }) => expected == Ok::<(), ErrorV>(())
                        && model == (group::ActiveModel { id: Some(command.target_id), name: command.name, description: command.description })
                        && users@ == memberships(command.target_id, admins, members),
                }
            }),
    {
        let g = match existing {
            None => {
                return Err(not_found(group::TYPE, command.target_id));
            },
            Some(g) => g,
        };
        if let Err(e) = GroupService::check_writeable(operator, &g, rows) {
            return Err(e);
        }
        if command.is_empty() {
            return Ok(GroupUpdate::Unchanged(g));
        }
        if name_is_taken && command.name.is_some() {
            let name = match command.name { Some(n) => n, None => String::new() };
            return Err(already_exists(group::TYPE, name));
        }
        let model = group::ActiveModel {
            id: Some(command.target_id),
            name: command.name,
            description: command.description,
        };
        let admins = if command.admins.is_some() { loaded_admins } else { current_admins };
        let members = if command.members.is_some() { loaded_members } else { current_members };
        match GroupService::validate(&model, admins, members) {
            Err(e) => Err(e),
            Ok(()) => {
                let admin_ids = user::ids_of(admins);
                let member_ids = user::ids_of(members);
                let users = make_memberships(command.target_id, &admin_ids, &member_ids);
                Ok(GroupUpdate::Write { model, users })
            },
        }
    }

    /// Whether the operator may delete the group with the given id.
    pub fn delete(operator: &user::Model, id: u128, existing: Option<group::Model>, rows: &Vec<group_user::Model>) -> (r: Result<(), Error>)
        ensures
            outcome_view(r) == match existing {
                None => Err(id_not_found(group::TYPE@, id)),
                Some(g) => group_writeable(*operator, g, rows@),
            },
    {
        match existing {
            None => Err(not_found(group::TYPE, id)),
            Some(g) => GroupService::check_writeable(operator, &g, rows),
        }
    }
}

/// Whether the operator may read the group: a known user that is an admin
/// (or owner) of the service, or that belongs to the group; never an unknown
/// identity.
pub open spec fn group_readable(operator: AuthUser, model: group::Model, rows: Seq<group_user::Model>) -> bool {
    match operator {
        AuthUser::User(u) => u.role.level() > user::Role::User.level() || group_contains(model.id, rows, u.id, None),
        AuthUser::Id(_) => false,
    }
}

/// Whoever may change a group may read it.
pub proof fn lemma_group_writer_reads(user: user::Model, model: group::Model, rows: Seq<group_user::Model>)
    requires
        group_writeable(user, model, rows) is Ok,
    ensures
        group_readable(AuthUser::User(user), model, rows),
{
    assert(seq![FIELD_ADMINS@][0] == FIELD_ADMINS@);
}

/// A group write that passes the checks leaves the group with at most
/// `MAX_ACCESS_ITEM` admins and members each, and no user both an admin and a
/// member.
pub proof fn lemma_checked_group_access(model: group::ActiveModel, admins: Seq<u128>, members: Seq<u128>)
    requires
        model.id is Some,
        outcome_of(group_errors(model, admins, members)) == Ok::<(), ErrorV>(()),
    ensures
        admins.len() <= MAX_ACCESS_ITEM,
        members.len() <= MAX_ACCESS_ITEM,
        forall|i: int| 0 <= i < admins.len() ==> !members.contains(#[trigger] admins[i]),
{
    assert(group_errors(model, admins, members).len() == 0);
    lemma_no_duplicates(group::TYPE@, model.id.unwrap(), AccessItemType::User, admins, members);
}

/// Who may change a group: an admin or owner of the service always; a plain
/// user exactly when an admin of the group.
pub proof fn lemma_group_write_rules(u: user::Model, model: group::Model, rows: Seq<group_user::Model>)
    ensures
        u.role != user::Role::User ==> group_writeable(u, model, rows) is Ok,
        u.role == user::Role::User ==> (group_writeable(u, model, rows) is Ok <==> in_group(model.id, rows, u.id, true)),
        u.role == user::Role::User && !in_group(model.id, rows, u.id, true) ==> group_writeable(u, model, rows)
            == Err::<(), ErrorV>(permission_refused(u.id, group::TYPE@, model.id)),
{
    reveal_strlit("admins");
    reveal_strlit("members");
    assert(seq![FIELD_ADMINS@][0] == FIELD_ADMINS@);
    assert(!seq![FIELD_ADMINS@].contains(FIELD_MEMBERS@)) by {
        if seq![FIELD_ADMINS@].contains(FIELD_MEMBERS@) {
            assert(FIELD_ADMINS@[0] == 'a');
            assert(FIELD_MEMBERS@[0] == 'm');
        }
    }
}

/// Who may read a group: an admin or owner of the service always; a plain
/// user exactly when an admin or a member of the group; an unknown identity
/// never.
pub proof fn lemma_group_read_rules(u: user::Model, model: group::Model, rows: Seq<group_user::Model>)
    ensures
        u.role != user::Role::User ==> group_readable(AuthUser::User(u), model, rows),
        u.role == user::Role::User ==> (group_readable(AuthUser::User(u), model, rows) <==> (in_group(model.id, rows, u.id, true)
            || in_group(model.id, rows, u.id, false))),
{
}

/// A full-text search that names fields keeps a group only when every named
/// field passes: naming more fields never keeps more groups, and a group
/// whose name lacks the text is dropped by any search that names the name.
pub proof fn lemma_group_search_needs_every_field(model: group::Model, value: Seq<char>, fields: Seq<Seq<char>>, more: Seq<Seq<char>>)
    ensures
        group_text_matches(model, value, Some(fields + more)) ==> group_text_matches(model, value, Some(fields)),
        fields.contains(FIELD_NAME@) && !contains_text(model.name@, value) ==> !group_text_matches(model, value, Some(fields)),
{
    if group_text_matches(model, value, Some(fields + more)) {
        assert forall|k: int| 0 <= k < fields.len() implies group_field_matches(model, value, #[trigger] fields[k]) by {
            assert((fields + more)[k] == fields[k]);
        }
    }
}

} // verus!
