//! Users: their queries, the rules of who may create, change and delete
//! them, and the plans of their writes.
use vstd::prelude::*;

use super::auth::{already_exists, id_not_found, name_taken, not_found, permission_refused, refuse_write, write_refused, AuthUser};
use super::condition::{text_values, Atom, AtomV, ClauseV, Column, Condition, Value, ValueV};
use super::read_service::{
    add_eq, add_id_query, add_text_value, eq_clauses, externals_view, id_clauses, marked, opt_value_view,
    push_text_search, text_search, text_value_clauses, ExternalQuery, ExternalQueryV, IdQuery, TextQuery,
};
use super::validation::{check_name, name_errors, opt_text, push_error};
use super::write_service::AbstractCommand;
use super::{FIELD_AUTH_IDS, FIELD_NAME, MAX_AUTH_IDS, MIN_AUTH_IDS};
use crate::errors::{errors_view, into_outcome, outcome_of, outcome_view, Error, ErrorV};
use crate::ids::new_id;
use crate::models::{auth_id, user};
use crate::sets::distinct;
use crate::text::{contains_text, str_contains, text_is};

verus! {

/// A query on users.
#[derive(Clone, Debug)]
pub struct UserQuery {
    pub id: Option<IdQuery>,
    pub name: Option<TextQuery>,
    pub role: Option<user::Role>,
    pub auth_id_providers: Option<Vec<String>>,
}

/// The condition of a user query: its id, exact name, role, and the
/// providers that it has identities at.
pub open spec fn user_condition(q: UserQuery) -> Seq<ClauseV> {
    id_clauses(q.id, Column::UserId) + text_value_clauses(q.name, Column::UserName) + eq_clauses(
        match q.role {
            Some(r) => Some(ValueV::Role(r)),
            None => None,
        },
        Column::UserRole,
    ) + match q.auth_id_providers {
        Some(ps) => seq![
            ClauseV::Atom(AtomV::IsIn(Column::AuthIdProvider, Seq::new(ps@.len(), |i: int| ValueV::Text(ps@[i]@)))),
        ],
        None => Seq::empty(),
    }
}

impl UserQuery {
    /// The condition that the users of the query meet in storage.
    pub fn into_condition(self) -> (cond: Condition)
        ensures
            cond@ == user_condition(self),
    {
        let ghost q = self;
        let mut cond = Condition::all();
        add_id_query(&mut cond, self.id, Column::UserId);
        add_text_value(&mut cond, self.name, Column::UserName);
        add_eq(&mut cond, match self.role { Some(r) => Some(Value::Role(r)), None => None }, Column::UserRole);
        let ghost before = cond@;
        if let Some(ps) = &self.auth_id_providers {
            let vs = text_values(ps);
            cond.add_atom(Atom::IsIn(Column::AuthIdProvider, vs));
        }
        assert(cond@ =~= user_condition(q));
        cond
    }

    /// The parts of the query that the service checks itself: a full-text
    /// search of the name.
    pub fn into_external_queries(self) -> (v: Vec<ExternalQuery>)
        ensures
            externals_view(v@) == text_search(self.name, FIELD_NAME@),
    {
        let mut v: Vec<ExternalQuery> = Vec::new();
        assert(externals_view(v@) =~= Seq::empty());
        push_text_search(&mut v, self.name, FIELD_NAME);
        assert(externals_view(v@) =~= text_search(self.name, FIELD_NAME@));
        v
    }
}

/// Users.
pub struct UserService {}

/// Whether an external query keeps a user: a full-text search looks at the
/// name whatever fields it names; other queries keep every user.
pub open spec fn user_keeps(model: user::Model, q: ExternalQueryV) -> bool {
    match q {
        ExternalQueryV::FullText { value, .. } => contains_text(model.name@, value),
        _ => true,
    }
}

/// The marks of the users that an external query keeps.
pub open spec fn user_marks(items: Seq<user::Model>, q: ExternalQueryV) -> Seq<bool> {
    Seq::new(items.len(), |i: int| user_keeps(items[i], q))
}

impl UserService {
    /// Keeps the users that the external query keeps, in order.
    pub fn filter_by_external_query(items: Vec<user::Model>, external_query: &ExternalQuery) -> (kept: Vec<user::Model>)
        ensures
            kept@ == marked(items@, user_marks(items@, external_query@)),
    {
        let mut marks: Vec<bool> = Vec::new();
        for i in 0..items.len()
            invariant
                marks@ =~= user_marks(items@, external_query@).take(i as int),
        {
            let keep = match external_query {
                ExternalQuery::FullText(q) => str_contains(items[i].name.as_str(), q.value.as_str()),
                _ => true,
            };
            marks.push(keep);
        }
        assert(marks@ =~= user_marks(items@, external_query@));
        super::read_service::keep_marked(items, &marks)
    }

    /// The column of a field that users can be sorted by.
    pub fn sortable_field(field: &str) -> (c: Option<Column>)
        ensures
            c == (if field@ == FIELD_NAME@ { Some(Column::UserName) } else { None::<Column> }),
    {
        let f = field.to_owned();
        if text_is(&f, FIELD_NAME) {
            Some(Column::UserName)
        } else {
            None
        }
    }

    /// The id column of users.
    pub fn primary_field() -> (c: Column)
        ensures
            c == Column::UserId,
    {
        Column::UserId
    }

    /// The id of a user.
    pub fn primary_value(model: &user::Model) -> (id: u128)
        ensures
            id == model.id,
    {
        model.id
    }

    /// The value of a user for a sortable field.
    pub fn sortable_value(field: &str, model: &user::Model) -> (v: Option<Value>)
        ensures
            opt_value_view(v) == (if field@ == FIELD_NAME@ {
                Some(ValueV::Text(model.name@))
            } else {
                None::<ValueV>
            }),
    {
        match UserService::sortable_field(field) {
            Some(_) => Some(Value::Text(model.name.clone())),
            None => None,
        }
    }
}

// ---------------------------------------------------------------------------
// Writing users

/// A command on users.
#[derive(Debug)]
pub enum UserCommand {
    Create(UserCommandCreate),
    Update(UserCommandUpdate),
    Delete(u128),
}

/// A new user, with its identities at providers as `(provider, value)`. The
/// identities are a set: a repetition counts once.
#[derive(Debug)]
pub struct UserCommandCreate {
    pub target_id: Option<u128>,
    pub name: String,
    pub role: user::Role,
    pub auth_ids: Vec<(String, String)>,
}

/// A change of a user (`None`: left as it is).
#[derive(Debug)]
pub struct UserCommandUpdate {
    pub target_id: u128,
    pub name: Option<String>,
    pub role: Option<user::Role>,
    pub auth_ids: Option<Vec<(String, String)>>,
}

impl UserCommandUpdate {
    /// The update changes nothing.
    pub fn is_empty(&self) -> (b: bool)
        ensures
            b == (self.name is None && self.role is None && self.auth_ids is None),
    {
        self.name.is_none() && self.role.is_none() && self.auth_ids.is_none()
    }
}

impl AbstractCommand for UserCommand {
    open spec fn spec_target_id(&self) -> Option<u128> {
        match self {
            UserCommand::Create(c) => c.target_id,
            UserCommand::Update(c) => Some(c.target_id),
            UserCommand::Delete(id) => Some(*id),
        }
    }

    open spec fn spec_with_target_id(self, id: u128) -> Self {
        match self {
            UserCommand::Create(c) => UserCommand::Create(UserCommandCreate { target_id: Some(id), ..c }),
            UserCommand::Update(c) => UserCommand::Update(UserCommandUpdate { target_id: id, ..c }),
            UserCommand::Delete(_) => UserCommand::Delete(id),
        }
    }

    proof fn lemma_with_target_id(self, id: u128) {
    }

    fn target_id(&self) -> (id: Option<u128>) {
        match self {
            UserCommand::Create(c) => c.target_id,
            UserCommand::Update(c) => Some(c.target_id),
            UserCommand::Delete(id) => Some(*id),
        }
    }

    fn with_target_id(self, id: u128) -> (c: Self) {
        match self {
            UserCommand::Create(c) => UserCommand::Create(UserCommandCreate { target_id: Some(id), ..c }),
            UserCommand::Update(c) => UserCommand::Update(UserCommandUpdate { target_id: id, ..c }),
            UserCommand::Delete(_) => UserCommand::Delete(id),
        }
    }
}

/// The views of a list of identities.
pub open spec fn pairs_view(v: Seq<(String, String)>) -> Seq<(Seq<char>, Seq<char>)> {
    Seq::new(v.len(), |i: int| (v[i].0@, v[i].1@))
}

fn has_pair(v: &Vec<(String, String)>, p: &(String, String)) -> (found: bool)
    ensures
        found == pairs_view(v@).contains((p.0@, p.1@)),
{
    let ghost all = pairs_view(v@);
    for i in 0..v.len()
        invariant
            all == pairs_view(v@),
            forall|k: int| 0 <= k < i ==> all[k] != (p.0@, p.1@),
    {
        if v[i].0 == p.0 && v[i].1 == p.1 {
            assert(all[i as int] == (p.0@, p.1@));
            return true;
        }
    }
    false
}

/// The identities with each repetition of an earlier one left out, in order.
pub fn dedup_pairs(v: &Vec<(String, String)>) -> (r: Vec<(String, String)>)
    ensures
        pairs_view(r@) == distinct(pairs_view(v@)),
{
    let ghost all = pairs_view(v@);
    let mut r: Vec<(String, String)> = Vec::new();
    for i in 0..v.len()
        invariant
            all == pairs_view(v@),
            pairs_view(r@) == distinct(all.take(i as int)),
    {
        assert(all.take(i + 1).drop_last() =~= all.take(i as int));
        assert(all.take(i + 1).last() == (v@[i as int].0@, v@[i as int].1@));
        if !has_pair(&r, &v[i]) {
            let p = (v[i].0.clone(), v[i].1.clone());
            let ghost before = pairs_view(r@);
            r.push(p);
            assert(pairs_view(r@) =~= before.push((p.0@, p.1@)));
        }
    }
    assert(all.take(v.len() as int) =~= all);
    r
}

/// The errors of a user write: the name, and between `MIN_AUTH_IDS` and
/// `MAX_AUTH_IDS` identities when they are set.
pub open spec fn user_errors(name: Option<Seq<char>>, auth_count: Option<nat>) -> Seq<ErrorV> {
    name_errors(user::TYPE@, name) + match auth_count {
        Some(n) => if n > MAX_AUTH_IDS || n < MIN_AUTH_IDS {
            seq![ErrorV::LengthRange { entity: user::TYPE@, field: FIELD_AUTH_IDS@, min: MIN_AUTH_IDS, max: MAX_AUTH_IDS }]
        } else {
            Seq::empty()
        },
        None => Seq::empty(),
    }
}

/// The identities that a new user gets: those of the command when an admin
/// (or owner) creates a user of a lower role; the identity of the operator
/// when an unknown identity creates a plain user; else the creation is
/// refused.
pub open spec fn granted_identities(operator: AuthUser, command: UserCommandCreate) -> Option<Seq<(Seq<char>, Seq<char>)>> {
    match operator {
        AuthUser::User(u) => if u.role != user::Role::User && u.role.level() > command.role.level() {
            Some(distinct(pairs_view(command.auth_ids@)))
        } else {
            None
        },
        AuthUser::Id((provider, value)) => if command.role == user::Role::User {
            Some(seq![(provider@, value@)])
        } else {
            None
        },
    }
}

/// The rows of the identities of a user, one per identity, in order.
pub open spec fn auth_rows(rows: Seq<auth_id::Model>, user_id: u128, ids: Seq<(Seq<char>, Seq<char>)>) -> bool {
    &&& rows.len() == ids.len()
    &&& forall|i: int|
        0 <= i < rows.len() ==> #[trigger] rows[i].user_id == user_id && rows[i].provider@ == ids[i].0 && rows[i].value@
            == ids[i].1
}

fn make_auth_rows(user_id: u128, ids: &Vec<(String, String)>) -> (rows: Vec<auth_id::Model>)
    ensures
        auth_rows(rows@, user_id, pairs_view(ids@)),
{
    let mut rows: Vec<auth_id::Model> = Vec::new();
    let mut i: usize = 0;
    while i < ids.len()
        invariant
            i <= ids@.len(),
            rows@.len() == i,
            forall|k: int|
                0 <= k < i ==> #[trigger] rows@[k].user_id == user_id && rows@[k].provider@ == ids@[k].0@
                    && rows@[k].value@ == ids@[k].1@,
        decreases ids@.len() - i,
    {
        let provider = ids[i].0.clone();
        let value = ids[i].1.clone();
        rows.push(auth_id::Model { user_id, provider, value });
        i = i + 1;
    }
    let ghost all = pairs_view(ids@);
    assert forall|k: int| 0 <= k < rows@.len() implies #[trigger] rows@[k].user_id == user_id && rows@[k].provider@
        == all[k].0 && rows@[k].value@ == all[k].1 by {
        assert(rows@[k].user_id == user_id);
    }
    rows
}

/// What creating a user writes: the user and its identities.
#[derive(Debug)]
pub struct UserCreation {
    pub model: user::Model,
    pub auth_ids: Vec<auth_id::Model>,
}

/// What updating a user does: nothing, or write the changed fields and
/// replace the identities when the command sets them.
#[derive(Debug)]
pub enum UserUpdate {
    Unchanged(user::Model),
    Write { model: user::ActiveModel, auth_ids: Option<Vec<auth_id::Model>> },
}

/// The outcome of an update of a user.
pub open spec fn user_update_spec(operator: user::Model, command: UserCommandUpdate, existing: Option<user::Model>) -> Result<(), ErrorV> {
    match existing {
        None => Err(id_not_found(user::TYPE@, command.target_id)),
        Some(u) => if operator.role != user::Role::Owner && operator.id != command.target_id
            && (operator.role.level() <= u.role.level() || operator.role.level() <= match command.role {
                Some(r) => r.level(),
                None => user::Role::User.level(),
            }) {
            Err(permission_refused(operator.id, user::TYPE@, command.target_id))
        } else if command.name is None && command.role is None && command.auth_ids is None {
            Ok(())
        } else {
            outcome_of(user_errors(opt_text(command.name), match command.auth_ids {
                Some(a) => Some(distinct(pairs_view(a@)).len()),
                None => None,
            }))
        },
    }
}

impl UserService {
    /// The checks of a user write.
    pub fn validate(model: &user::ActiveModel, auth_ids: Option<&Vec<(String, String)>>) -> (r: Result<(), Error>)
        ensures
            outcome_view(r) == outcome_of(user_errors(opt_text(model.name), match auth_ids {
                Some(a) => Some(a@.len()),
                None => None,
            })),
    {
        let mut errors: Vec<Error> = Vec::new();
        assert(errors_view(errors@) =~= Seq::empty());
        check_name(user::TYPE, &model.name, &mut errors);
        let ghost before = errors_view(errors@);
        if let Some(a) = auth_ids {
            if a.len() > MAX_AUTH_IDS || a.len() < MIN_AUTH_IDS {
                push_error(
                    &mut errors,
                    Error::LengthRange {
                        entity: user::TYPE.to_owned(),
                        field: FIELD_AUTH_IDS.to_owned(),
                        min: MIN_AUTH_IDS,
                        max: MAX_AUTH_IDS,
                    },
                );
            }
        }
        assert(errors_view(errors@) =~= user_errors(opt_text(model.name), match auth_ids {
            Some(a) => Some(a@.len()),
            None => None,
        }));
        into_outcome(errors)
    }

    /// Creates a user: its name must be free; the operator must be allowed
    /// to create a user of that role; the name and the identities must pass
    /// the checks.
    pub fn create(operator: &AuthUser, command: UserCommandCreate, name_is_taken: bool) -> (r: Result<UserCreation, Error>)
        ensures
            name_is_taken ==> (r matches Err(e) && e@ == name_taken(user::TYPE@, command.name@)),
            !name_is_taken && granted_identities(*operator, command) is None ==> (r matches Err(e) && e@
                == write_refused(*operator, user::TYPE@, None)),
            !name_is_taken && granted_identities(*operator, command) is Some ==> ({
                let ids = granted_identities(*operator, command).unwrap();
                let expected = outcome_of(user_errors(Some(command.name@), Some(ids.len())));
                match r {
                    Ok(c) => expected == Ok::<(), ErrorV>(()) && c.model.name == command.name && c.model.role
                        == command.role && auth_rows(c.auth_ids@, c.model.id, ids),
                    Err(e) => expected == Err::<(), ErrorV>(e@),
                }
            }),
    {
        if name_is_taken {
            return Err(already_exists(user::TYPE, command.name));
        }
        let ghost c0 = command;
        let ids: Vec<(String, String)> = match operator {
            AuthUser::User(u) => {
                if u.role != user::Role::User && u.role.rank() > command.role.rank() {
                    dedup_pairs(&command.auth_ids)
                } else {
                    return Err(
                        Error::InvalidPermission {
                            user: operator.get_id(),
                            entity: user::TYPE.to_owned(),
                            id: None,
                            permission: super::auth::Permission::Write,
                        },
                    );
                }
            },
            AuthUser::Id((provider, value)) => {
                if command.role == user::Role::User {
                    let mut v: Vec<(String, String)> = Vec::new();
                    v.push((provider.clone(), value.clone()));
                    assert(pairs_view(v@) =~= seq![(provider@, value@)]);
                    v
                } else {
                    return Err(
                        Error::InvalidPermission {
                            user: operator.get_id(),
                            entity: user::TYPE.to_owned(),
                            id: None,
                            permission: super::auth::Permission::Write,
                        },
                    );
                }
            },
        };
        assert(granted_identities(*operator, c0) == Some(pairs_view(ids@)));
        let id = new_id();
        let role = command.role;
        let model = user::ActiveModel { id: Some(id), name: Some(command.name), role: Some(role) };
        match UserService::validate(&model, Some(&ids)) {
            Err(e) => Err(e),
            Ok(()) => {
                let rows = make_auth_rows(id, &ids);
                let name = match model.name { Some(n) => n, None => String::new() };
                Ok(UserCreation { model: user::Model { id, name, role }, auth_ids: rows })
            },
        }
    }

    /// Updates a user, given the user (if found).
    pub fn update(operator: &user::Model, command: UserCommandUpdate, existing: Option<user::Model>) -> (r: Result<UserUpdate, Error>)
        ensures
            ({
                let expected = user_update_spec(*operator, command, existing);
                match r {
                    Err(e) => expected == Err::<(), ErrorV>(e@),
                    Ok(UserUpdate::Unchanged(m)) => expected == Ok::<(), ErrorV>(()) && Some(m) == existing
                        && command.name is None && command.role is None && command.auth_ids is None,
                    Ok(UserUpdate::Write { model, auth_ids }) => expected == Ok::<(), ErrorV>(())
                        && model == (user::ActiveModel { id: Some(command.target_id), name: command.name, role: command.role })
                        && match command.auth_ids {
                            Some(a) => auth_ids is Some && auth_rows(auth_ids.unwrap()@, existing.unwrap().id, distinct(pairs_view(a@))),
                            None => auth_ids is None,
                        },
                }
            }),
    {
        let u = match existing {
            None => {
                return Err(not_found(user::TYPE, command.target_id));
            },
            Some(u) => u,
        };
        let new_role = match command.role {
            Some(r) => r.rank(),
            None => user::Role::User.rank(),
        };
        if operator.role != user::Role::Owner && operator.id != command.target_id && (operator.role.rank()
            <= u.role.rank() || operator.role.rank() <= new_role) {
            return Err(refuse_write(operator.id, user::TYPE, command.target_id));
        }
        if command.is_empty() {
            return Ok(UserUpdate::Unchanged(u));
        }
        let ids = match &command.auth_ids {
            Some(a) => Some(dedup_pairs(a)),
            None => None,
        };
        let model = user::ActiveModel { id: Some(command.target_id), name: command.name, role: command.role };
        let checked = match &ids {
            Some(a) => UserService::validate(&model, Some(a)),
            None => UserService::validate(&model, None),
        };
        match checked {
            Err(e) => Err(e),
            Ok(()) => {
                let rows = match &ids {
                    Some(a) => Some(make_auth_rows(u.id, a)),
                    None => None,
                };
                Ok(UserUpdate::Write { model, auth_ids: rows })
            },
        }
    }

    /// Whether the operator may delete the user with the given id, given the
    /// user (if found): an owner may, anyone may delete themselves, else the
    /// operator's role must be above that of the user.
    pub fn delete(operator: &user::Model, id: u128, existing: Option<user::Model>) -> (r: Result<(), Error>)
        ensures
            outcome_view(r) == match existing {
                None => Err(id_not_found(user::TYPE@, id)),
                Some(u) => if operator.role != user::Role::Owner && operator.id != id && operator.role.level()
                    <= u.role.level() {
                    Err(permission_refused(operator.id, user::TYPE@, id))
                } else {
                    Ok(())
                },
            },
    {
        match existing {
            None => Err(not_found(user::TYPE, id)),
            Some(u) => {
                if operator.role != user::Role::Owner && operator.id != id && operator.role.rank() <= u.role.rank() {
                    Err(refuse_write(operator.id, user::TYPE, id))
                } else {
                    Ok(())
                }
            },
        }
    }

    /// Who may run a command on users: anyone may create one (the rules of
    /// `create` then apply); changing or deleting one takes a known user.
    pub fn admits(operator: &AuthUser, command: &UserCommand) -> (r: Result<(), Error>)
        ensures
            outcome_view(r) == match (*command, *operator) {
                (UserCommand::Create(_), _) => Ok(()),
                (_, AuthUser::User(_)) => Ok(()),
                _ => Err(write_refused(*operator, user::TYPE@, command.spec_target_id())),
            },
    {
        match (command, operator) {
            (UserCommand::Create(_), _) => Ok(()),
            (_, AuthUser::User(_)) => Ok(()),
            _ => Err(
                Error::InvalidPermission {
                    user: operator.get_id(),
                    entity: user::TYPE.to_owned(),
                    id: command.target_id(),
                    permission: super::auth::Permission::Write,
                },
            ),
        }
    }
}

/// An owner may change any user and anyone may change themselves: the
/// outcome of such an update is that of the checks alone.
pub proof fn lemma_owner_or_self_may_update(operator: user::Model, command: UserCommandUpdate, existing: Option<user::Model>)
    requires
        existing is Some,
        operator.role == user::Role::Owner || operator.id == command.target_id,
    ensures
        user_update_spec(operator, command, existing) == if command.name is None && command.role is None
            && command.auth_ids is None {
            Ok(())
        } else {
            outcome_of(user_errors(opt_text(command.name), match command.auth_ids {
                Some(a) => Some(distinct(pairs_view(a@)).len()),
                None => None,
            }))
        },
{
}

/// A plain user may change no other user.
pub proof fn lemma_plain_user_changes_only_self(operator: user::Model, command: UserCommandUpdate, existing: Option<user::Model>)
    requires
        existing is Some,
        operator.role == user::Role::User,
        operator.id != command.target_id,
    ensures
        user_update_spec(operator, command, existing) == Err::<(), ErrorV>(
            permission_refused(operator.id, user::TYPE@, command.target_id),
        ),
{
}

/// Who may create a user: an unknown identity may create a plain user, who
/// gets exactly that identity; an admin (owner) of the service may create a
/// user of a lower role, with the identities of the command; a plain user
/// may create none, and no one a user of a role as high as their own.
pub proof fn lemma_create_user_rules(operator: AuthUser, command: UserCommandCreate)
    ensures
        operator matches AuthUser::Id((p, v)) ==> (command.role == user::Role::User <==> granted_identities(operator, command)
            == Some(seq![(p@, v@)])),
        operator matches AuthUser::Id(_) && command.role != user::Role::User ==> granted_identities(operator, command) is None,
        operator matches AuthUser::User(u) && u.role == user::Role::User ==> granted_identities(operator, command) is None,
        operator matches AuthUser::User(u) && u.role.level() <= command.role.level() ==> granted_identities(operator, command) is None,
        operator matches AuthUser::User(u) && u.role == user::Role::Owner && command.role != user::Role::Owner
            ==> granted_identities(operator, command) == Some(distinct(pairs_view(command.auth_ids@))),
        operator matches AuthUser::User(u) && u.role == user::Role::Admin && command.role == user::Role::User
            ==> granted_identities(operator, command) == Some(distinct(pairs_view(command.auth_ids@))),
{
}

/// An admin of the service may not change another admin, nor make a user an
/// admin or owner.
pub proof fn lemma_admin_changes_lower_users_only(operator: user::Model, command: UserCommandUpdate, existing: Option<user::Model>)
    requires
        existing is Some,
        operator.role == user::Role::Admin,
        operator.id != command.target_id,
        existing.unwrap().role != user::Role::User || (command.role is Some && command.role.unwrap() != user::Role::User),
    ensures
        user_update_spec(operator, command, existing) == Err::<(), ErrorV>(
            permission_refused(operator.id, user::TYPE@, command.target_id),
        ),
{
}

} // verus!
