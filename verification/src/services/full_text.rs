//! Full-text searches of the entities that have a name, a description and
//! tags.
use vstd::prelude::*;

use super::read_service::{opt_texts_view, FullTextQuery};
use super::{FIELD_DESCRIPTION, FIELD_NAME, FIELD_TAG};
use crate::text::{contains_text, str_contains, text_is};

verus! {

/// The fields that a full-text search looks at when it names none.
pub open spec fn default_text_fields() -> Seq<Seq<char>> {
    seq![FIELD_NAME@, FIELD_DESCRIPTION@, FIELD_TAG@]
}

/// Some tag holds the text.
pub open spec fn any_tag_contains(tags: Seq<Seq<char>>, value: Seq<char>) -> bool {
    exists|t: int| 0 <= t < tags.len() && contains_text(#[trigger] tags[t], value)
}

/// Whether one field passes a full-text search: the name (where the entity
/// has one), the description or one of the tags holds the text; other fields
/// pass.
pub open spec fn field_matches(
    name: Option<Seq<char>>,
    description: Seq<char>,
    tags: Seq<Seq<char>>,
    value: Seq<char>,
    field: Seq<char>,
) -> bool {
    &&& field == FIELD_NAME@ ==> match name {
        Some(n) => contains_text(n, value),
        None => true,
    }
    &&& field == FIELD_DESCRIPTION@ ==> contains_text(description, value)
    &&& field == FIELD_TAG@ ==> any_tag_contains(tags, value)
}

/// Some field of the list passes a full-text search.
pub open spec fn some_field_matches(
    name: Option<Seq<char>>,
    description: Seq<char>,
    tags: Seq<Seq<char>>,
    value: Seq<char>,
    fields: Seq<Seq<char>>,
) -> bool {
    exists|k: int| 0 <= k < fields.len() && field_matches(name, description, tags, value, #[trigger] fields[k])
}

/// Whether a full-text search keeps an entity: one of the named fields (by
/// default the name, the description and the tags) passes.
pub open spec fn text_matches(
    name: Option<Seq<char>>,
    description: Seq<char>,
    tags: Seq<Seq<char>>,
    value: Seq<char>,
    fields: Option<Seq<Seq<char>>>,
) -> bool {
    some_field_matches(name, description, tags, value, match fields {
        Some(fs) => fs,
        None => default_text_fields(),
    })
}

fn any_tag_has(tags: &Vec<String>, value: &str) -> (b: bool)
    ensures
        b == any_tag_contains(tags.deep_view(), value@),
{
    let ghost all = tags.deep_view();
    for t in 0..tags.len()
        invariant
            all == tags.deep_view(),
            forall|k: int| 0 <= k < t ==> !contains_text(#[trigger] all[k], value@),
    {
        if str_contains(tags[t].as_str(), value) {
            assert(contains_text(all[t as int], value@));
            return true;
        }
    }
    false
}

/// The view of an optional name.
pub open spec fn opt_name(name: Option<&String>) -> Option<Seq<char>> {
    match name {
        Some(n) => Some(n@),
        None => None,
    }
}

/// Whether a full-text search keeps an entity with the given name (if it has
/// one), description and tags.
pub fn matches_text(name: Option<&String>, description: &String, tags: &Vec<String>, query: &FullTextQuery) -> (b: bool)
    ensures
        b == text_matches(opt_name(name), description@, tags.deep_view(), query.value@, opt_texts_view(query.fields)),
{
    let fields: Vec<String> = match &query.fields {
        Some(fs) => fs.clone(),
        None => {
            let mut fs: Vec<String> = Vec::new();
            fs.push(FIELD_NAME.to_owned());
            fs.push(FIELD_DESCRIPTION.to_owned());
            fs.push(FIELD_TAG.to_owned());
            assert(fs.deep_view() =~= default_text_fields());
            fs
        },
    };
    proof {
        if query.fields is Some {
            assert(fields.deep_view() =~= query.fields.unwrap().deep_view());
        }
    }
    let ghost fs = fields.deep_view();
    let ghost want = match opt_texts_view(query.fields) {
        Some(f) => f,
        None => default_text_fields(),
    };
    assert(fs == want);
    let name_hit = match name {
        Some(n) => str_contains(n.as_str(), query.value.as_str()),
        None => true,
    };
    let description_hit = str_contains(description.as_str(), query.value.as_str());
    let tag_hit = any_tag_has(tags, query.value.as_str());
    for k in 0..fields.len()
        invariant
            fs == fields.deep_view(),
            fs == want,
            want == match opt_texts_view(query.fields) {
                Some(f) => f,
                None => default_text_fields(),
            },
            name_hit == match opt_name(name) {
                Some(n) => contains_text(n, query.value@),
                None => true,
            },
            description_hit == contains_text(description@, query.value@),
            tag_hit == any_tag_contains(tags.deep_view(), query.value@),
            forall|m: int| 0 <= m < k ==> !field_matches(opt_name(name), description@, tags.deep_view(), query.value@, #[trigger] fs[m]),
    {
        assert(fs[k as int] == fields@[k as int]@);
        let is_name = text_is(&fields[k], FIELD_NAME);
        let is_description = text_is(&fields[k], FIELD_DESCRIPTION);
        let is_tag = text_is(&fields[k], FIELD_TAG);
        if (!is_name || name_hit) && (!is_description || description_hit) && (!is_tag || tag_hit) {
            assert(field_matches(opt_name(name), description@, tags.deep_view(), query.value@, want[k as int]));
            assert(some_field_matches(opt_name(name), description@, tags.deep_view(), query.value@, want));
            return true;
        }
    }
    false
}

/// A full-text search keeps an entity when any named field passes: naming
/// more fields never drops an entity; an entity whose name (description, a
/// tag) holds the text is kept by a search that names that field and by a
/// search that names none; one where none of them holds the text is dropped
/// by a search that names none.
pub proof fn lemma_search_any_field(
    name: Option<Seq<char>>,
    description: Seq<char>,
    tags: Seq<Seq<char>>,
    value: Seq<char>,
    fields: Seq<Seq<char>>,
    more: Seq<Seq<char>>,
)
    ensures
        text_matches(name, description, tags, value, Some(fields)) ==> text_matches(
            name,
            description,
            tags,
            value,
            Some(fields + more),
        ),
        (name matches Some(n) && contains_text(n, value)) ==> text_matches(name, description, tags, value, None),
        contains_text(description, value) ==> text_matches(name, description, tags, value, None),
        any_tag_contains(tags, value) ==> text_matches(name, description, tags, value, None),
        name is Some && !contains_text(name.unwrap(), value) && !contains_text(description, value) && !any_tag_contains(
            tags,
            value,
        ) ==> !text_matches(name, description, tags, value, None),
        name is None ==> text_matches(name, description, tags, value, None),
{
    reveal_strlit("name");
    reveal_strlit("description");
    reveal_strlit("tag");
    let d = default_text_fields();
    assert(d[0] == FIELD_NAME@ && d[1] == FIELD_DESCRIPTION@ && d[2] == FIELD_TAG@);
    assert(FIELD_NAME@ != FIELD_DESCRIPTION@) by {
        assert(FIELD_NAME@.len() != FIELD_DESCRIPTION@.len());
    }
    assert(FIELD_NAME@ != FIELD_TAG@) by {
        assert(FIELD_NAME@[0] != FIELD_TAG@[0]);
    }
    assert(FIELD_DESCRIPTION@ != FIELD_TAG@) by {
        assert(FIELD_DESCRIPTION@.len() != FIELD_TAG@.len());
    }
    if text_matches(name, description, tags, value, Some(fields)) {
        let k = choose|k: int| 0 <= k < fields.len() && field_matches(name, description, tags, value, #[trigger] fields[k]);
        assert((fields + more)[k] == fields[k]);
    }
    if name matches Some(n) && contains_text(n, value) {
        assert(field_matches(name, description, tags, value, d[0]));
    }
    if contains_text(description, value) {
        assert(field_matches(name, description, tags, value, d[1]));
    }
    if any_tag_contains(tags, value) {
        assert(field_matches(name, description, tags, value, d[2]));
    }
    if name is None {
        assert(field_matches(name, description, tags, value, d[0]));
    }
}

/// A field that is none of the searched ones passes: a search that names it
/// keeps every entity.
pub proof fn lemma_search_other_field(
    name: Option<Seq<char>>,
    description: Seq<char>,
    tags: Seq<Seq<char>>,
    value: Seq<char>,
    fields: Seq<Seq<char>>,
    k: int,
)
    requires
        0 <= k < fields.len(),
        fields[k] != FIELD_NAME@,
        fields[k] != FIELD_DESCRIPTION@,
        fields[k] != FIELD_TAG@,
    ensures
        text_matches(name, description, tags, value, Some(fields)),
{
    assert(field_matches(name, description, tags, value, fields[k]));
}

} // verus!
