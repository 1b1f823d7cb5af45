//! The reading side of the services: queries, sorting, pagination and the
//! cursors that mark a place in a list of entities.
use vstd::prelude::*;
use vstd::utf8::{decode_utf8, encode_utf8, encode_utf8_decode_utf8, encode_utf8_valid_utf8, valid_utf8};

use super::condition::{atoms_view, id_values, Atom, AtomV, Clause, ClauseV, Column, Condition, Value, ValueV};
use crate::errors::{Error, ErrorV};
use crate::ids::{parse_uuid, uuid_hyphenated, uuid_parsed, uuid_text};

verus! {

/// How many entities a list holds when the request does not say.
pub const DEFAULT_SIZE: usize = 100;

#[derive(Clone, Copy, Debug, PartialEq, Eq, Structural)]
pub enum Order {
    Asc,
    Desc,
}

/// Sort by a field, in an order.
#[derive(Clone, Debug)]
pub struct Sort {
    pub field: String,
    pub order: Order,
}

/// A window of a list: after a cursor, before a cursor, of a size.
#[derive(Clone, Debug)]
pub struct Pagination {
    pub after: Option<String>,
    pub before: Option<String>,
    pub size: Option<usize>,
}

#[derive(Debug)]
pub struct PageInfo {
    pub has_previous: bool,
    pub has_next: bool,
    pub start_cursor: Option<String>,
    pub end_cursor: Option<String>,
}

#[derive(Debug)]
pub struct PageItem<M> {
    pub cursor: String,
    pub item: M,
}

#[derive(Debug)]
pub struct Page<M> {
    pub info: PageInfo,
    pub items: Vec<PageItem<M>>,
}

/// One id, or any of several.
#[derive(Clone, Debug)]
pub enum IdQuery {
    Single(u128),
    Multiple(Vec<u128>),
}

/// A text to match exactly, or to find inside the field.
#[derive(Clone, Debug)]
pub enum TextQuery {
    Value(String),
    FullText(String),
}

/// A text to find inside some fields (all searchable fields when `None`).
#[derive(Clone, Debug)]
pub struct FullTextQuery {
    pub value: String,
    pub fields: Option<Vec<String>>,
}

/// A user that the entity should contain, possibly only in some fields.
#[derive(Clone, Debug)]
pub enum ContainingUserQuery {
    Value(u128),
    Object { id: u128, fields: Option<Vec<String>> },
}

impl ContainingUserQuery {
    pub open spec fn spec_id(&self) -> u128 {
        match self {
            ContainingUserQuery::Value(id) => *id,
            ContainingUserQuery::Object { id, .. } => *id,
        }
    }

    /// The user that the query asks for.
    pub fn id(&self) -> (id: u128)
        ensures
            id == self.spec_id(),
    {
        match self {
            ContainingUserQuery::Value(id) => *id,
            ContainingUserQuery::Object { id, .. } => *id,
        }
    }
}

/// Bounds on an ordered value.
#[derive(Clone, Debug)]
pub struct ComparableQuery<V> {
    pub eq: Option<V>,
    pub gt: Option<V>,
    pub lt: Option<V>,
    pub gte: Option<V>,
    pub lte: Option<V>,
}

/// A part of a query that storage cannot answer and the service checks itself.
#[derive(Clone, Debug)]
pub enum ExternalQuery {
    ContainingUser(ContainingUserQuery),
    FullText(FullTextQuery),
}

/// An open range.
#[derive(Clone, Debug)]
pub struct RangeQuery<E> {
    pub gt: Option<E>,
    pub lt: Option<E>,
}

/// A request for a list of entities.
#[derive(Clone, Debug)]
pub struct FindAllInput<Q> {
    pub query: Option<Q>,
    pub size: Option<usize>,
    pub sort: Option<Sort>,
}

/// A request for a page of entities.
#[derive(Clone, Debug)]
pub struct FindPageInput<Q> {
    pub query: Option<Q>,
    pub pagination: Option<Pagination>,
    pub sort: Sort,
}

// ---------------------------------------------------------------------------
// Cursors

/// What `base64::encode` (standard alphabet, padded) makes of some bytes.
pub uninterp spec fn base64_encoded(bytes: Seq<u8>) -> Seq<u8>;

/// What `base64::decode` (standard alphabet, padded) makes of some bytes:
/// `None` where it refuses them.
pub uninterp spec fn base64_decoded(bytes: Seq<u8>) -> Option<Seq<u8>>;

/// `base64::encode` of the bytes of a text. The bytes of the result are named
/// by `base64_encoded`.
#[verifier::external_body]
fn base64_encode(text: &str) -> (encoded: String)
    ensures
        encode_utf8(encoded@) == base64_encoded(encode_utf8(text@)),
{
    base64::encode(text)
}

/// `base64::decode` of the bytes of a text. Its result is named by
/// `base64_decoded`; the encoding of some bytes decodes to those bytes, as the
/// crate's documentation shows.
#[verifier::external_body]
fn base64_decode(text: &str) -> (decoded: Result<Vec<u8>, base64::DecodeError>)
    ensures
        decoded matches Ok(v) ==> base64_decoded(encode_utf8(text@)) == Some(v@),
        (decoded is Ok) == (base64_decoded(encode_utf8(text@)) is Some),
        forall|b: Seq<u8>|
            encode_utf8(text@) == #[trigger] base64_encoded(b) ==> (decoded is Ok && decoded.unwrap()@ == b),
{
    base64::decode(text)
}

/// `String::from_utf8`: succeeds exactly on valid UTF-8, and then holds the
/// text that those bytes encode.
#[verifier::external_body]
fn string_from_utf8(bytes: Vec<u8>) -> (text: Result<String, std::string::FromUtf8Error>)
    ensures
        text is Ok <==> valid_utf8(bytes@),
        text matches Ok(s) ==> encode_utf8(s@) == bytes@,
{
    String::from_utf8(bytes)
}

/// The bytes of the cursor of an entity: the base64 encoding of its
/// hyphenated id.
pub open spec fn cursor_bytes(id: u128) -> Seq<u8> {
    base64_encoded(encode_utf8(uuid_hyphenated(id)))
}

/// What decoding a cursor gives: the id, or the kind of error.
pub open spec fn decode_cursor_spec(cursor: Seq<char>) -> Result<u128, ErrorV> {
    match base64_decoded(encode_utf8(cursor)) {
        None => Err(ErrorV::Base64),
        Some(v) => if !valid_utf8(v) {
            Err(ErrorV::Utf8)
        } else {
            match uuid_parsed(decode_utf8(v)) {
                Some(id) => Ok(id),
                None => Err(ErrorV::Uuid),
            }
        },
    }
}

/// The cursor of an entity with the given id.
pub fn encode_cursor(id: u128) -> (cursor: String)
    ensures
        encode_utf8(cursor@) == cursor_bytes(id),
{
    let text = uuid_text(id);
    base64_encode(text.as_str())
}

/// The id that a cursor marks. Decoding the cursor of an entity gives the id
/// of that entity back.
pub fn decode_cursor(cursor: &str) -> (id: Result<u128, Error>)
    ensures
        (match id {
            Ok(v) => Ok(v),
            Err(e) => Err(e@),
        }) == decode_cursor_spec(cursor@),
        forall|u: u128| encode_utf8(cursor@) == #[trigger] cursor_bytes(u) ==> (id matches Ok(v) && v == u),
{
    let bytes = match base64_decode(cursor) {
        Ok(b) => b,
        Err(e) => {
            return Err(Error::Base64(e));
        },
    };
    let ghost v = bytes@;
    let text = match string_from_utf8(bytes) {
        Ok(t) => t,
        Err(e) => {
            proof {
                assert forall|u: u128| encode_utf8(cursor@) == #[trigger] cursor_bytes(u) implies false by {
                    encode_utf8_valid_utf8(uuid_hyphenated(u));
                }
            }
            return Err(Error::Utf8(e));
        },
    };
    proof {
        encode_utf8_decode_utf8(text@);
        assert(text@ == decode_utf8(v));
        assert forall|u: u128| encode_utf8(cursor@) == #[trigger] cursor_bytes(u) implies text@
            == uuid_hyphenated(u) by {
            encode_utf8_decode_utf8(uuid_hyphenated(u));
        }
    }
    match parse_uuid(text.as_str()) {
        Some(id) => Ok(id),
        None => Err(Error::Uuid),
    }
}

// ---------------------------------------------------------------------------
// Pages

/// A comparison of a column with a value: greater (`gt`) or smaller.
pub open spec fn compare_atom(gt: bool, column: Column, value: ValueV) -> AtomV {
    if gt {
        AtomV::Gt(column, value)
    } else {
        AtomV::Lt(column, value)
    }
}

/// The clause that keeps the entities on one side of a cursor: the sort value
/// is beyond the cursor's, or equal to it with the id beyond the cursor's id.
pub open spec fn cursor_clause(column: Column, value_gt: bool, value: ValueV, primary: Column, id_gt: bool, id: u128) -> ClauseV {
    ClauseV::Any(
        seq![
            seq![compare_atom(value_gt, column, value)],
            seq![AtomV::Eq(column, value), compare_atom(id_gt, primary, ValueV::Id(id))],
        ],
    )
}

fn compare(gt: bool, column: Column, value: Value) -> (a: Atom)
    ensures
        a@ == compare_atom(gt, column, value@),
{
    if gt {
        Atom::Gt(column, value)
    } else {
        Atom::Lt(column, value)
    }
}

fn make_cursor_clause(column: Column, value_gt: bool, value: &Value, primary: Column, id_gt: bool, id: u128) -> (c: Clause)
    ensures
        c@ == cursor_clause(column, value_gt, value@, primary, id_gt, id),
{
    let mut first: Vec<Atom> = Vec::new();
    first.push(compare(value_gt, column, value.clone()));
    let mut second: Vec<Atom> = Vec::new();
    second.push(Atom::Eq(column, value.clone()));
    second.push(compare(id_gt, primary, Value::Id(id)));
    let mut groups: Vec<Vec<Atom>> = Vec::new();
    groups.push(first);
    groups.push(second);
    let ghost expected = cursor_clause(column, value_gt, value@, primary, id_gt, id)->Any_0;
    assert(atoms_view(groups@[0]@) =~= expected[0]);
    assert(atoms_view(groups@[1]@) =~= expected[1]);
    let c = Clause::Any(groups);
    assert(c@->Any_0 =~= expected);
    c
}

/// What a page request asks of storage, once the cursors are looked up.
#[derive(Debug)]
pub struct PagePlan {
    /// Clauses to add to the condition of the query.
    pub clauses: Vec<Clause>,
    /// The order in which to fetch (reversed when paging backwards).
    pub sort: Sort,
    /// The page is fetched backwards from the `before` cursor.
    pub is_reversed: bool,
    /// The number of entities of the page.
    pub size: usize,
    /// How many to fetch: one more than the page, to learn whether a next page exists.
    pub fetch_size: usize,
    /// There are entities before the page.
    pub has_previous: bool,
}

/// The view of an optional value.
pub open spec fn opt_value_view(v: Option<Value>) -> Option<ValueV> {
    match v {
        Some(x) => Some(x@),
        None => None,
    }
}

/// The size of a page that a request asks for.
pub open spec fn page_size(pagination: Option<Pagination>) -> usize {
    match pagination {
        Some(p) => match p.size {
            Some(n) => n,
            None => DEFAULT_SIZE,
        },
        None => DEFAULT_SIZE,
    }
}

/// A page is fetched backwards when only a `before` cursor is known.
pub open spec fn page_reversed(pagination: Option<Pagination>, after: Option<u128>, before: Option<u128>) -> bool {
    pagination is Some && before is Some && after is None
}

/// The clauses that the cursors add: only for a sortable field, and only for a
/// cursor whose entity was found.
pub open spec fn page_clauses(
    order: Order,
    column: Option<Column>,
    primary: Column,
    is_reversed: bool,
    after: Option<u128>,
    after_value: Option<ValueV>,
    before: Option<u128>,
    before_value: Option<ValueV>,
) -> Seq<ClauseV> {
    match column {
        None => Seq::empty(),
        Some(col) => {
            let asc = order == Order::Asc;
            let a = match (after, after_value) {
                (Some(id), Some(v)) => seq![cursor_clause(col, asc, v, primary, !is_reversed, id)],
                _ => Seq::empty(),
            };
            let b = match (before, before_value) {
                (Some(id), Some(v)) => seq![cursor_clause(col, !asc, v, primary, is_reversed, id)],
                _ => Seq::empty(),
            };
            a + b
        },
    }
}

/// The opposite order.
pub open spec fn flip(order: Order) -> Order {
    match order {
        Order::Asc => Order::Desc,
        Order::Desc => Order::Asc,
    }
}

/// Plans a page request. `column` is the column of the sort field (if the
/// field is sortable), `primary` the id column; `after` and `before` are the
/// ids of the entities that the cursors mark, where found, with their values
/// of the sort field.
pub fn plan_page(
    pagination: &Option<Pagination>,
    sort: Sort,
    column: Option<Column>,
    primary: Column,
    after: Option<u128>,
    after_value: &Option<Value>,
    before: Option<u128>,
    before_value: &Option<Value>,
) -> (plan: PagePlan)
    requires
        page_size(*pagination) < usize::MAX,
    ensures
        plan.size == page_size(*pagination),
        plan.fetch_size == plan.size + 1,
        plan.is_reversed == page_reversed(*pagination, after, before),
        plan.clauses@.len() == page_clauses(sort.order, column, primary, plan.is_reversed, after,
            opt_value_view(*after_value), before, opt_value_view(*before_value)).len(),
        forall|i: int| 0 <= i < plan.clauses@.len() ==> #[trigger] plan.clauses@[i]@ == page_clauses(sort.order, column, primary, plan.is_reversed, after,
            opt_value_view(*after_value), before, opt_value_view(*before_value))[i],
        plan.sort.field == sort.field,
        plan.sort.order == if plan.is_reversed { flip(sort.order) } else { sort.order },
        plan.has_previous == ((plan.is_reversed && before is Some) || (!plan.is_reversed && after is Some)),
{
    let size = match pagination {
        Some(p) => match p.size {
            Some(n) => n,
            None => DEFAULT_SIZE,
        },
        None => DEFAULT_SIZE,
    };
    let is_reversed = pagination.is_some() && before.is_some() && after.is_none();
    let ghost expected = page_clauses(sort.order, column, primary, is_reversed, after,
        opt_value_view(*after_value), before, opt_value_view(*before_value));
    let mut clauses: Vec<Clause> = Vec::new();
    if let Some(col) = column {
        let asc = match sort.order {
            Order::Asc => true,
            Order::Desc => false,
        };
        if let (Some(id), Some(v)) = (after, after_value) {
            clauses.push(make_cursor_clause(col, asc, v, primary, !is_reversed, id));
        }
        if let (Some(id), Some(v)) = (before, before_value) {
            clauses.push(make_cursor_clause(col, !asc, v, primary, is_reversed, id));
        }
    }
    let order = if is_reversed {
        match sort.order {
            Order::Asc => Order::Desc,
            Order::Desc => Order::Asc,
        }
    } else {
        sort.order
    };
    let has_previous = (is_reversed && before.is_some()) || (!is_reversed && after.is_some());
    PagePlan {
        clauses,
        sort: Sort { field: sort.field, order },
        is_reversed,
        size,
        fetch_size: size + 1,
        has_previous,
    }
}

/// The entities of the page: the fetched ones, back in the requested order
/// when fetched backwards, cut to the size of the page.
pub open spec fn page_window<M>(results: Seq<M>, size: usize, is_reversed: bool) -> Seq<M> {
    let ordered = if is_reversed { results.reverse() } else { results };
    if ordered.len() > size { ordered.take(size as int) } else { ordered }
}

/// The elements of a vector in the opposite order.
pub fn reverse_vec<T>(v: Vec<T>) -> (r: Vec<T>)
    ensures
        r@ == v@.reverse(),
{
    let ghost source = v@;
    let mut v = v;
    let mut r: Vec<T> = Vec::new();
    while v.len() > 0
        invariant
            v@ == source.take(v@.len() as int),
            r@ == source.skip(v@.len() as int).reverse(),
            v@.len() <= source.len(),
        decreases v.len(),
    {
        let k = v.len();
        let x = v.pop().unwrap();
        r.push(x);
        assert(v@ =~= source.take(k - 1));
        assert(r@ =~= source.skip(k - 1).reverse());
    }
    assert(source.skip(0) =~= source);
    r
}

/// Cuts the fetched entities to the page; also tells whether more were fetched
/// than the page holds, that is, whether there is a next page.
pub fn select_page<M>(results: Vec<M>, size: usize, is_reversed: bool) -> (r: (Vec<M>, bool))
    ensures
        r.0@ == page_window(results@, size, is_reversed),
        r.1 == (results@.len() > size),
{
    let has_next = results.len() > size;
    let ghost fetched = results@;
    let mut results = if is_reversed { reverse_vec(results) } else { results };
    assert(results@ =~= if is_reversed { fetched.reverse() } else { fetched });
    if results.len() > size {
        results.truncate(size);
    }
    (results, has_next)
}

/// Builds a page from its entities, each with its id: every entity gets the
/// cursor of its id; the page starts and ends at the cursors of its first and
/// last entities.
pub fn assemble_page<P>(items: Vec<(u128, P)>, has_previous: bool, has_next: bool) -> (page: Page<P>)
    ensures
        page.info.has_previous == has_previous,
        page.info.has_next == has_next,
        page.items@.len() == items@.len(),
        forall|i: int|
            0 <= i < items@.len() ==> encode_utf8((#[trigger] page.items@[i]).cursor@) == cursor_bytes(items@[i].0)
                && page.items@[i].item == items@[i].1,
        items@.len() == 0 ==> page.info.start_cursor is None && page.info.end_cursor is None,
        items@.len() > 0 ==> (page.info.start_cursor matches Some(c) && encode_utf8(c@) == cursor_bytes(items@[0].0)),
        items@.len() > 0 ==> (page.info.end_cursor matches Some(c) && encode_utf8(c@) == cursor_bytes(items@.last().0)),
{
    let ghost source = items@;
    let mut out: Vec<PageItem<P>> = Vec::new();
    let mut items = reverse_vec(items);
    let n = items.len();
    let mut start: Option<String> = None;
    let mut end: Option<String> = None;
    while items.len() > 0
        invariant
            n == source.len(),
            items@ == source.subrange(out@.len() as int, n as int).reverse(),
            out@.len() <= n,
            forall|i: int|
                0 <= i < out@.len() ==> encode_utf8((#[trigger] out@[i]).cursor@) == cursor_bytes(source[i].0)
                    && out@[i].item == source[i].1,
            out@.len() == 0 ==> start is None && end is None,
            out@.len() > 0 ==> (start matches Some(c) && encode_utf8(c@) == cursor_bytes(source[0].0)),
            out@.len() > 0 ==> (end matches Some(c) && encode_utf8(c@) == cursor_bytes(source[out@.len() - 1].0)),
        decreases items.len(),
    {
        let k = out.len();
        let (id, item) = items.pop().unwrap();
        assert(source.subrange(k as int, n as int).reverse().last() == source[k as int]);
        assert(items@ =~= source.subrange(k + 1, n as int).reverse());
        let cursor = encode_cursor(id);
        if k == 0 {
            start = Some(encode_cursor(id));
        }
        end = Some(encode_cursor(id));
        out.push(PageItem { cursor, item });
    }
    Page {
        info: PageInfo { has_previous, has_next, start_cursor: start, end_cursor: end },
        items: out,
    }
}

// ---------------------------------------------------------------------------
// Views of queries, and the clauses that their parts give

/// The views of an optional list of texts.
pub open spec fn opt_texts_view(v: Option<Vec<String>>) -> Option<Seq<Seq<char>>> {
    match v {
        Some(x) => Some(x.deep_view()),
        None => None,
    }
}

/// The mathematical value of an [`ExternalQuery`].
pub enum ExternalQueryV {
    ContainingUser { id: u128, object: bool, fields: Option<Seq<Seq<char>>> },
    FullText { value: Seq<char>, fields: Option<Seq<Seq<char>>> },
}

pub open spec fn containing_view(q: ContainingUserQuery) -> ExternalQueryV {
    match q {
        ContainingUserQuery::Value(id) => ExternalQueryV::ContainingUser { id, object: false, fields: None },
        ContainingUserQuery::Object { id, fields } => ExternalQueryV::ContainingUser {
            id,
            object: true,
            fields: opt_texts_view(fields),
        },
    }
}

pub open spec fn full_text_view(q: FullTextQuery) -> ExternalQueryV {
    ExternalQueryV::FullText { value: q.value@, fields: opt_texts_view(q.fields) }
}

impl View for ExternalQuery {
    type V = ExternalQueryV;

    open spec fn view(&self) -> ExternalQueryV {
        match self {
            ExternalQuery::ContainingUser(q) => containing_view(*q),
            ExternalQuery::FullText(q) => full_text_view(*q),
        }
    }
}

/// The views of a list of external queries.
pub open spec fn externals_view(v: Seq<ExternalQuery>) -> Seq<ExternalQueryV> {
    Seq::new(v.len(), |i: int| v[i]@)
}

/// A search for a text in one field.
pub open spec fn field_search(field: Seq<char>, value: Seq<char>) -> ExternalQueryV {
    ExternalQueryV::FullText { value, fields: Some(seq![field]) }
}

/// A search for a text in one field.
pub fn field_query(field: &str, value: String) -> (q: ExternalQuery)
    ensures
        q@ == field_search(field@, value@),
{
    let mut fields: Vec<String> = Vec::new();
    fields.push(field.to_owned());
    let q = ExternalQuery::FullText(FullTextQuery { value, fields: Some(fields) });
    assert(fields.deep_view() =~= seq![field@]);
    q
}

/// Appends an external query to a list.
pub fn push_external(v: &mut Vec<ExternalQuery>, q: ExternalQuery)
    ensures
        externals_view(final(v)@) == externals_view(old(v)@).push(q@),
{
    v.push(q);
    assert(externals_view(v@) =~= externals_view(old(v)@).push(q@));
}

/// The searches of a text query: a full-text query on one field.
pub open spec fn text_search(q: Option<TextQuery>, field: Seq<char>) -> Seq<ExternalQueryV> {
    match q {
        Some(TextQuery::FullText(value)) => seq![field_search(field, value@)],
        _ => Seq::empty(),
    }
}

/// The searches of a plain text on one field.
pub open spec fn plain_search(q: Option<String>, field: Seq<char>) -> Seq<ExternalQueryV> {
    match q {
        Some(value) => seq![field_search(field, value@)],
        None => Seq::empty(),
    }
}

/// Appends the search of a text query, if it is a full-text one.
pub fn push_text_search(v: &mut Vec<ExternalQuery>, q: Option<TextQuery>, field: &str)
    ensures
        externals_view(final(v)@) == externals_view(old(v)@) + text_search(q, field@),
{
    if let Some(TextQuery::FullText(value)) = q {
        push_external(v, field_query(field, value));
    } else {
        assert(externals_view(v@) =~= externals_view(old(v)@) + text_search(q, field@));
    }
}

/// Appends the search of a plain text.
pub fn push_plain_search(v: &mut Vec<ExternalQuery>, q: Option<String>, field: &str)
    ensures
        externals_view(final(v)@) == externals_view(old(v)@) + plain_search(q, field@),
{
    if let Some(value) = q {
        push_external(v, field_query(field, value));
    } else {
        assert(externals_view(v@) =~= externals_view(old(v)@) + plain_search(q, field@));
    }
}

/// The clauses of an id query on a column.
pub open spec fn id_clauses(q: Option<IdQuery>, column: Column) -> Seq<ClauseV> {
    match q {
        Some(IdQuery::Single(id)) => seq![ClauseV::Atom(AtomV::Eq(column, ValueV::Id(id)))],
        Some(IdQuery::Multiple(ids)) => seq![
            ClauseV::Atom(AtomV::IsIn(column, Seq::new(ids@.len(), |i: int| ValueV::Id(ids@[i])))),
        ],
        None => Seq::empty(),
    }
}

/// The clauses of an exact text query on a column (a full-text one gives none).
pub open spec fn text_value_clauses(q: Option<TextQuery>, column: Column) -> Seq<ClauseV> {
    match q {
        Some(TextQuery::Value(v)) => seq![ClauseV::Atom(AtomV::Eq(column, ValueV::Text(v@)))],
        _ => Seq::empty(),
    }
}

/// The clauses of an optional value that a column must equal.
pub open spec fn eq_clauses(v: Option<ValueV>, column: Column) -> Seq<ClauseV> {
    match v {
        Some(x) => seq![ClauseV::Atom(AtomV::Eq(column, x))],
        None => Seq::empty(),
    }
}

/// Adds the clause of an id query.
pub fn add_id_query(cond: &mut Condition, q: Option<IdQuery>, column: Column)
    ensures
        final(cond)@ == old(cond)@ + id_clauses(q, column),
{
    match q {
        Some(IdQuery::Single(id)) => {
            cond.add_atom(Atom::Eq(column, Value::Id(id)));
            assert(cond@ =~= old(cond)@ + id_clauses(q, column));
        },
        Some(IdQuery::Multiple(ids)) => {
            let vs = id_values(&ids);
            cond.add_atom(Atom::IsIn(column, vs));
            assert(cond@ =~= old(cond)@ + id_clauses(Some(IdQuery::Multiple(ids)), column));
        },
        None => {
            assert(cond@ =~= old(cond)@ + id_clauses(q, column));
        },
    }
}

/// Adds the clause of an exact text query.
pub fn add_text_value(cond: &mut Condition, q: Option<TextQuery>, column: Column)
    ensures
        final(cond)@ == old(cond)@ + text_value_clauses(q, column),
{
    if let Some(TextQuery::Value(v)) = q {
        cond.add_atom(Atom::Eq(column, Value::Text(v)));
        assert(cond@ =~= old(cond)@ + text_value_clauses(Some(TextQuery::Value(v)), column));
    } else {
        assert(cond@ =~= old(cond)@ + text_value_clauses(q, column));
    }
}

/// Adds the clause that a column equals a value, if there is one.
pub fn add_eq(cond: &mut Condition, v: Option<Value>, column: Column)
    ensures
        final(cond)@ == old(cond)@ + eq_clauses(opt_value_view(v), column),
{
    if let Some(x) = v {
        cond.add_atom(Atom::Eq(column, x));
        assert(cond@ =~= old(cond)@ + eq_clauses(opt_value_view(Some(x)), column));
    } else {
        assert(cond@ =~= old(cond)@ + eq_clauses(opt_value_view(v), column));
    }
}

// ---------------------------------------------------------------------------
// Filtering

/// The items whose mark is set, in order.
pub open spec fn marked<T>(items: Seq<T>, marks: Seq<bool>) -> Seq<T>
    decreases items.len(),
{
    if items.len() == 0 {
        Seq::empty()
    } else {
        let rest = marked(items.drop_last(), marks);
        if marks[items.len() - 1] {
            rest.push(items.last())
        } else {
            rest
        }
    }
}

/// Keeps the items whose mark is set, in order.
pub fn keep_marked<T>(items: Vec<T>, marks: &Vec<bool>) -> (kept: Vec<T>)
    requires
        marks@.len() == items@.len(),
    ensures
        kept@ == marked(items@, marks@),
{
    let ghost source = items@;
    let mut kept: Vec<T> = Vec::new();
    let mut items = reverse_vec(items);
    let n = marks.len();
    while items.len() > 0
        invariant
            n == source.len(),
            marks@.len() == n,
            items@ == source.skip(n - items@.len()).reverse(),
            items@.len() <= n,
            kept@ == marked(source.take(n - items@.len()), marks@),
        decreases items.len(),
    {
        let k = n - items.len();
        let x = items.pop().unwrap();
        assert(x == source[k as int]);
        assert(items@ =~= source.skip(k + 1).reverse());
        assert(source.take(k + 1).drop_last() =~= source.take(k as int));
        if marks[k] {
            kept.push(x);
        }
    }
    assert(source.take(n as int) =~= source);
    kept
}

// ---------------------------------------------------------------------------
// Gathering a list batch by batch

/// Where gathering a list of entities stands: storage is read in batches of
/// the size of the list; each batch is checked (who may read it, the checks
/// of the query) and what passes is kept, until the list is full or storage
/// has no more.
#[derive(Debug)]
pub struct FindAll<M> {
    pub results: Vec<M>,
    pub count: u64,
    pub size: usize,
    pub done: bool,
}

/// The next batch to read from storage, as (offset, limit): none once the
/// list is full or storage gave an empty batch.
pub open spec fn next_batch(done: bool, gathered: nat, count: u64, size: usize) -> Option<(u64, u64)> {
    if done || gathered >= size {
        None
    } else {
        Some(((count * size) as u64, size as u64))
    }
}

impl<M> FindAll<M> {
    /// Nothing gathered yet, for a list of the given size.
    pub fn new(size: usize) -> (s: Self)
        ensures
            s.results@.len() == 0,
            s.count == 0,
            s.size == size,
            !s.done,
    {
        FindAll { results: Vec::new(), count: 0, size, done: false }
    }

    /// The next batch to read: the one after the batches read so far, of the
    /// size of the list.
    pub fn next_fetch(&self) -> (r: Option<(u64, u64)>)
        requires
            self.count * self.size <= u64::MAX,
        ensures
            r == next_batch(self.done, self.results@.len(), self.count, self.size),
    {
        if self.done || self.results.len() >= self.size {
            None
        } else {
            let size = self.size as u64;
            assert(self.count * size <= u64::MAX);
            Some((self.count * size, size))
        }
    }

    /// Takes in a batch: `fetched` is how many entities storage gave, `kept`
    /// those of them that passed the checks, in order. An empty batch ends
    /// the gathering.
    pub fn absorb(&mut self, fetched: usize, kept: Vec<M>)
        requires
            old(self).count < u64::MAX,
        ensures
            fetched == 0 ==> final(self).done && final(self).results@ == old(self).results@ && final(self).count
                == old(self).count,
            fetched > 0 ==> final(self).done == old(self).done && final(self).results@ == old(self).results@ + kept@
                && final(self).count == old(self).count + 1,
            final(self).size == old(self).size,
    {
        if fetched == 0 {
            self.done = true;
        } else {
            self.count = self.count + 1;
            let mut kept = kept;
            self.results.append(&mut kept);
        }
    }
}

/// Filtering keeps some of the items, in their order: never more than there
/// were, and only items of the list; where every mark is set it keeps them
/// all, where none is it keeps none.
pub proof fn lemma_marked_within<T>(items: Seq<T>, marks: Seq<bool>)
    requires
        marks.len() == items.len(),
    ensures
        marked(items, marks).len() <= items.len(),
        forall|x: T| marked(items, marks).contains(x) ==> items.contains(x),
        (forall|i: int| 0 <= i < marks.len() ==> #[trigger] marks[i]) ==> marked(items, marks) == items,
        (forall|i: int| 0 <= i < marks.len() ==> !(#[trigger] marks[i])) ==> marked(items, marks).len() == 0,
    decreases items.len(),
{
    if items.len() > 0 {
        let init = items.drop_last();
        let init_marks = marks.drop_last();
        lemma_marked_within(init, init_marks);
        assert(marked(init, marks) == marked(init, init_marks)) by {
            lemma_marked_prefix(init, marks, init_marks);
        }
        assert forall|x: T| marked(items, marks).contains(x) implies items.contains(x) by {
            if marked(init, marks).contains(x) {
                assert(marked(init, init_marks).contains(x));
                assert(init.contains(x));
                let k = choose|k: int| 0 <= k < init.len() && init[k] == x;
                assert(items[k] == x);
            } else {
                assert(x == items.last());
                assert(items[items.len() - 1] == x);
            }
        }
        if forall|i: int| 0 <= i < marks.len() ==> #[trigger] marks[i] {
            assert forall|i: int| 0 <= i < init_marks.len() implies #[trigger] init_marks[i] by {
                assert(marks[i]);
            }
            assert(marks[items.len() - 1]);
            assert(marked(items, marks) =~= items);
        }
        if forall|i: int| 0 <= i < marks.len() ==> !(#[trigger] marks[i]) {
            assert forall|i: int| 0 <= i < init_marks.len() implies !(#[trigger] init_marks[i]) by {
                assert(!marks[i]);
            }
            assert(!marks[items.len() - 1]);
        }
    }
}

/// The items kept from a list depend only on the marks of that list.
proof fn lemma_marked_prefix<T>(items: Seq<T>, marks: Seq<bool>, other: Seq<bool>)
    requires
        items.len() <= marks.len(),
        items.len() <= other.len(),
        forall|i: int| 0 <= i < items.len() ==> #[trigger] marks[i] == other[i],
    ensures
        marked(items, marks) == marked(items, other),
    decreases items.len(),
{
    if items.len() > 0 {
        lemma_marked_prefix(items.drop_last(), marks, other);
        assert(marks[items.len() - 1] == other[items.len() - 1]);
    }
}

/// A page never holds more entities than its size; it holds all that were
/// fetched when they fit, and exactly its size when more were fetched.
pub proof fn lemma_page_window_size<M>(results: Seq<M>, size: usize, is_reversed: bool)
    ensures
        page_window(results, size, is_reversed).len() <= size,
        results.len() <= size ==> page_window(results, size, is_reversed).len() == results.len(),
        results.len() > size ==> page_window(results, size, is_reversed).len() == size,
{
}

/// The clause of an `after` cursor keeps the entities beyond the cursor in
/// the sort order: a greater sort value when ascending, a smaller one when
/// descending, or an equal value with an id beyond the cursor's (greater
/// when paging forwards); the clause of a `before` cursor the other way round.
pub proof fn lemma_cursor_clauses_follow_order(
    order: Order,
    column: Column,
    primary: Column,
    is_reversed: bool,
    id: u128,
    value: ValueV,
)
    ensures
        page_clauses(order, Some(column), primary, is_reversed, Some(id), Some(value), None, None) == seq![
            ClauseV::Any(
                seq![
                    seq![if order == Order::Asc { AtomV::Gt(column, value) } else { AtomV::Lt(column, value) }],
                    seq![
                        AtomV::Eq(column, value),
                        if is_reversed { AtomV::Lt(primary, ValueV::Id(id)) } else { AtomV::Gt(primary, ValueV::Id(id)) },
                    ],
                ],
            ),
        ],
        page_clauses(order, Some(column), primary, is_reversed, None, None, Some(id), Some(value)) == seq![
            ClauseV::Any(
                seq![
                    seq![if order == Order::Asc { AtomV::Lt(column, value) } else { AtomV::Gt(column, value) }],
                    seq![
                        AtomV::Eq(column, value),
                        if is_reversed { AtomV::Gt(primary, ValueV::Id(id)) } else { AtomV::Lt(primary, ValueV::Id(id)) },
                    ],
                ],
            ),
        ],
        page_clauses(order, None, primary, is_reversed, Some(id), Some(value), Some(id), Some(value)).len() == 0,
{
    assert(page_clauses(order, Some(column), primary, is_reversed, Some(id), Some(value), None, None) =~= seq![
        cursor_clause(column, order == Order::Asc, value, primary, !is_reversed, id),
    ]);
    assert(page_clauses(order, Some(column), primary, is_reversed, None, None, Some(id), Some(value)) =~= seq![
        cursor_clause(column, !(order == Order::Asc), value, primary, is_reversed, id),
    ]);
}

/// A page is read backwards exactly when a page is asked for with a `before`
/// cursor whose entity was found and no found `after` cursor; there are
/// entities before the page when the cursor it starts from was found.
pub proof fn lemma_page_direction(p: Pagination, after: Option<u128>, before: Option<u128>)
    ensures
        after is None && before is Some ==> page_reversed(Some(p), after, before),
        !page_reversed(None, after, before),
        after is Some ==> !page_reversed(Some(p), after, before),
        before is None ==> !page_reversed(Some(p), after, before),
{
}

} // verus!
