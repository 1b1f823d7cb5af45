use white_rabbit::errors::Error;
use white_rabbit::services::condition::{Atom, Clause, Column, Value};
use white_rabbit::services::read_service::{
    assemble_page, decode_cursor, encode_cursor, keep_marked, plan_page, select_page, FindAll, Order, Pagination,
    Sort, DEFAULT_SIZE,
};

const ID: u128 = 0x67e5504410b1426f9247bb680e5fe0c8;

#[test]
fn cursor_is_base64_of_hyphenated_id() {
    assert_eq!(encode_cursor(ID), "NjdlNTUwNDQtMTBiMS00MjZmLTkyNDctYmI2ODBlNWZlMGM4");
}

#[test]
fn cursor_round_trip() {
    for id in [0u128, 1, ID, u128::MAX] {
        let cursor = encode_cursor(id);
        assert_eq!(decode_cursor(&cursor).unwrap(), id);
    }
}

#[test]
fn cursor_with_bad_base64_is_refused() {
    assert!(matches!(decode_cursor("!!!!"), Err(Error::Base64(_))));
}

#[test]
fn cursor_with_bad_utf8_is_refused() {
    assert!(matches!(decode_cursor("//4="), Err(Error::Utf8(_))));
}

#[test]
fn cursor_with_no_uuid_is_refused() {
    assert!(matches!(decode_cursor("bm90IGEgdXVpZA=="), Err(Error::Uuid)));
}

#[test]
fn plan_without_pagination_uses_default_size() {
    let plan = plan_page(
        &None,
        Sort { field: "name".to_owned(), order: Order::Asc },
        Some(Column::JournalName),
        Column::JournalId,
        None,
        &None,
        None,
        &None,
    );
    assert_eq!(plan.size, DEFAULT_SIZE);
    assert_eq!(plan.fetch_size, DEFAULT_SIZE + 1);
    assert!(!plan.is_reversed);
    assert!(!plan.has_previous);
    assert!(plan.clauses.is_empty());
    assert_eq!(plan.sort.order, Order::Asc);
}

#[test]
fn plan_after_cursor_adds_clause() {
    let pagination = Some(Pagination { after: Some("x".to_owned()), before: None, size: Some(5) });
    let plan = plan_page(
        &pagination,
        Sort { field: "name".to_owned(), order: Order::Asc },
        Some(Column::JournalName),
        Column::JournalId,
        Some(7),
        &Some(Value::Text("Mid".to_owned())),
        None,
        &None,
    );
    assert_eq!(plan.size, 5);
    assert_eq!(plan.fetch_size, 6);
    assert!(!plan.is_reversed);
    assert!(plan.has_previous);
    assert_eq!(plan.clauses.len(), 1);
    match &plan.clauses[0] {
        Clause::Any(groups) => {
            assert_eq!(groups.len(), 2);
            assert!(matches!(&groups[0][0], Atom::Gt(Column::JournalName, Value::Text(t)) if t == "Mid"));
            assert!(matches!(&groups[1][0], Atom::Eq(Column::JournalName, Value::Text(t)) if t == "Mid"));
            assert!(matches!(&groups[1][1], Atom::Gt(Column::JournalId, Value::Id(7))));
        },
        _ => panic!("expected a disjunction"),
    }
}

#[test]
fn plan_before_cursor_only_is_reversed() {
    let pagination = Some(Pagination { after: None, before: Some("x".to_owned()), size: Some(3) });
    let plan = plan_page(
        &pagination,
        Sort { field: "name".to_owned(), order: Order::Asc },
        Some(Column::JournalName),
        Column::JournalId,
        None,
        &None,
        Some(9),
        &Some(Value::Text("Mid".to_owned())),
    );
    assert!(plan.is_reversed);
    assert!(plan.has_previous);
    assert_eq!(plan.sort.order, Order::Desc);
    match &plan.clauses[0] {
        Clause::Any(groups) => {
            assert!(matches!(&groups[0][0], Atom::Lt(Column::JournalName, _)));
            assert!(matches!(&groups[1][1], Atom::Gt(Column::JournalId, Value::Id(9))));
        },
        _ => panic!("expected a disjunction"),
    }
}

#[test]
fn plan_unsortable_field_adds_no_clause() {
    let pagination = Some(Pagination { after: Some("x".to_owned()), before: None, size: None });
    let plan = plan_page(
        &pagination,
        Sort { field: "nothing".to_owned(), order: Order::Desc },
        None,
        Column::JournalId,
        Some(7),
        &None,
        None,
        &None,
    );
    assert!(plan.clauses.is_empty());
    assert!(plan.has_previous);
    assert_eq!(plan.sort.order, Order::Desc);
}

#[test]
fn select_page_cuts_and_reports_next() {
    let (items, has_next) = select_page(vec![1, 2, 3, 4], 3, false);
    assert_eq!(items, vec![1, 2, 3]);
    assert!(has_next);
    let (items, has_next) = select_page(vec![1, 2], 3, false);
    assert_eq!(items, vec![1, 2]);
    assert!(!has_next);
}

#[test]
fn select_page_reversed_restores_order() {
    let (items, has_next) = select_page(vec![4, 3, 2, 1], 3, true);
    assert_eq!(items, vec![1, 2, 3]);
    assert!(has_next);
}

#[test]
fn assemble_page_sets_cursors() {
    let page = assemble_page(vec![(1u128, "a"), (2u128, "b")], true, false);
    assert_eq!(page.items.len(), 2);
    assert_eq!(page.items[0].cursor, encode_cursor(1));
    assert_eq!(page.items[1].item, "b");
    assert_eq!(page.info.start_cursor, Some(encode_cursor(1)));
    assert_eq!(page.info.end_cursor, Some(encode_cursor(2)));
    assert!(page.info.has_previous);
    assert!(!page.info.has_next);
}

#[test]
fn assemble_empty_page_has_no_cursors() {
    let page = assemble_page(Vec::<(u128, u8)>::new(), false, false);
    assert!(page.items.is_empty());
    assert_eq!(page.info.start_cursor, None);
    assert_eq!(page.info.end_cursor, None);
}

#[test]
fn keep_marked_keeps_in_order() {
    assert_eq!(keep_marked(vec![1, 2, 3, 4], &vec![true, false, true, false]), vec![1, 3]);
    assert_eq!(keep_marked(vec![1, 2], &vec![true, true]), vec![1, 2]);
    assert!(keep_marked(vec![1, 2], &vec![false, false]).is_empty());
}

#[test]
fn find_all_reads_batches_until_full() {
    let mut state: FindAll<u32> = FindAll::new(3);
    assert_eq!(state.next_fetch(), Some((0, 3)));
    state.absorb(3, vec![1]);
    assert_eq!(state.next_fetch(), Some((3, 3)));
    state.absorb(3, vec![2, 3]);
    assert_eq!(state.results, vec![1, 2, 3]);
    assert_eq!(state.next_fetch(), None);
}

#[test]
fn find_all_stops_on_empty_batch() {
    let mut state: FindAll<u32> = FindAll::new(3);
    state.absorb(2, vec![1]);
    state.absorb(0, vec![]);
    assert!(state.done);
    assert_eq!(state.next_fetch(), None);
    assert_eq!(state.results, vec![1]);
}
