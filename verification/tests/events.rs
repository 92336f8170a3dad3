use event_service::event::{event_from_row, events_from_rows, Cell, Event};

fn row(id: u128, title: &str) -> Vec<Cell> {
    vec![Cell::Uuid(id), Cell::Text(title.to_string())]
}

#[test]
fn row_is_read_by_position() {
    let event = event_from_row(&row(7, "launch")).unwrap();
    assert_eq!(event, Event { id: 7, title: "launch".to_string() });
}

#[test]
fn columns_after_the_second_are_not_read() {
    let cells = vec![Cell::Uuid(9), Cell::Text("x".to_string()), Cell::Other, Cell::Null];
    assert_eq!(event_from_row(&cells), Some(Event { id: 9, title: "x".to_string() }));
}

#[test]
fn swapped_columns_are_no_event() {
    let cells = vec![Cell::Text("launch".to_string()), Cell::Uuid(7)];
    assert_eq!(event_from_row(&cells), None);
}

#[test]
fn short_rows_are_no_event() {
    assert_eq!(event_from_row(&Vec::new()), None);
    assert_eq!(event_from_row(&vec![Cell::Uuid(1)]), None);
}

#[test]
fn null_or_foreign_cells_are_no_event() {
    assert_eq!(event_from_row(&vec![Cell::Null, Cell::Text("t".to_string())]), None);
    assert_eq!(event_from_row(&vec![Cell::Uuid(1), Cell::Null]), None);
    assert_eq!(event_from_row(&vec![Cell::Uuid(1), Cell::Other]), None);
    assert_eq!(event_from_row(&vec![Cell::Other, Cell::Text("t".to_string())]), None);
}

#[test]
fn extreme_ids_and_empty_titles_are_kept() {
    let event = event_from_row(&row(u128::MAX, "")).unwrap();
    assert_eq!(event.id, u128::MAX);
    assert_eq!(event.title, "");
    assert_eq!(event_from_row(&row(0, "z")).unwrap().id, 0);
}

#[test]
fn empty_result_set_is_empty_listing() {
    assert_eq!(events_from_rows(&Vec::new()), Ok(Vec::new()));
}

#[test]
fn rows_become_events_in_order() {
    let rows = vec![row(3, "c"), row(1, "a"), row(2, "b")];
    let events = events_from_rows(&rows).unwrap();
    assert_eq!(
        events,
        vec![
            Event { id: 3, title: "c".to_string() },
            Event { id: 1, title: "a".to_string() },
            Event { id: 2, title: "b".to_string() },
        ]
    );
}

#[test]
fn inserted_row_is_listed_exactly_once() {
    let id: u128 = 0x67e5_5044_10b1_426f_9247_bb68_0e5f_e0c8;
    let rows = vec![row(1, "first"), row(id, "release party"), row(2, "release party")];
    let events = events_from_rows(&rows).unwrap();
    let wanted = Event { id, title: "release party".to_string() };
    assert_eq!(events.iter().filter(|e| **e == wanted).count(), 1);
    assert_eq!(events.len(), 3);
}

#[test]
fn equal_rows_are_listed_as_often_as_they_occur() {
    let rows = vec![row(5, "twice"), row(5, "twice")];
    let events = events_from_rows(&rows).unwrap();
    assert_eq!(events.len(), 2);
    assert_eq!(events[0], events[1]);
}

#[test]
fn first_malformed_row_is_reported() {
    let rows = vec![row(1, "a"), vec![Cell::Null, Cell::Null], vec![Cell::Other]];
    assert_eq!(events_from_rows(&rows), Err(1));
    assert_eq!(events_from_rows(&vec![Vec::new()]), Err(0));
}

#[test]
fn listing_the_same_rows_twice_gives_the_same_events() {
    let rows = vec![row(8, "h"), row(4, "d")];
    assert_eq!(events_from_rows(&rows), events_from_rows(&rows));
}
