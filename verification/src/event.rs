//! Events, and how the rows of a query result become events.

use vstd::prelude::*;

verus! {

/// One value of a result row, as far as the service reads it.
#[derive(Debug, Clone, PartialEq, Eq)]
pub enum Cell {
    /// A UUID, as its 128 bits.
    Uuid(u128),
    /// A text value.
    Text(String),
    /// SQL `NULL`.
    Null,
    /// A value of a type that the service does not read.
    Other,
}

/// An event: a read-only projection of one row of the `event` table.
#[derive(Debug, Clone, PartialEq, Eq)]
pub struct Event {
    pub id: u128,
    pub title: String,
}

/// What an `Event` stands for.
pub ghost struct Record {
    pub id: u128,
    pub title: Seq<char>,
}

impl View for Event {
    type V = Record;

    open spec fn view(&self) -> Record {
        Record { id: self.id, title: self.title@ }
    }
}

/// A row describes an event if it starts with a UUID followed by a text.
pub open spec fn row_is_event(row: Seq<Cell>) -> bool {
    row.len() >= 2 && row[0] is Uuid && row[1] is Text
}

/// The event of a row: `id` from position 0, `title` from position 1.
pub open spec fn record_of(row: Seq<Cell>) -> Record
    recommends
        row_is_event(row),
{
    Record { id: row[0]->Uuid_0, title: row[1]->Text_0@ }
}

pub open spec fn rows_are_events(rows: Seq<Vec<Cell>>) -> bool {
    forall|i: int| 0 <= i < rows.len() ==> row_is_event(#[trigger] rows[i]@)
}

/// `at` is the position of the first row that describes no event.
pub open spec fn first_malformed(rows: Seq<Vec<Cell>>, at: int) -> bool {
    &&& 0 <= at < rows.len()
    &&& !row_is_event(rows[at]@)
    &&& forall|j: int| 0 <= j < at ==> row_is_event(#[trigger] rows[j]@)
}

/// The events of a result set: one per row, in the order of the rows.
pub open spec fn listing_of(rows: Seq<Vec<Cell>>) -> Seq<Record> {
    Seq::new(rows.len(), |i: int| record_of(rows[i]@))
}

/// What a vector of events stands for.
pub open spec fn records(events: Seq<Event>) -> Seq<Record> {
    Seq::new(events.len(), |i: int| events[i]@)
}

/// Reads one row positionally. `None` exactly where the row describes no
/// event.
pub fn event_from_row(row: &Vec<Cell>) -> (res: Option<Event>)
    ensures
        match res {
            Some(event) => row_is_event(row@) && event@ == record_of(row@),
            None => !row_is_event(row@),
        },
{
    if row.len() < 2 {
        return None;
    }
    match (&row[0], &row[1]) {
        (Cell::Uuid(id), Cell::Text(title)) => Some(Event { id: *id, title: title.clone() }),
        _ => None,
    }
}

/// Maps a result set to events, row by row and in order. Fails with the
/// position of the first row that describes no event.
pub fn events_from_rows(rows: &Vec<Vec<Cell>>) -> (res: Result<Vec<Event>, usize>)
    ensures
        match res {
            Ok(events) => rows_are_events(rows@) && records(events@) == listing_of(rows@),
            Err(at) => first_malformed(rows@, at as int),
        },
{
    let mut events: Vec<Event> = Vec::new();
    let mut i: usize = 0;
    while i < rows.len()
        invariant
            i <= rows.len(),
            events.len() == i,
            forall|j: int| 0 <= j < i ==> row_is_event(#[trigger] rows[j]@),
            forall|j: int| 0 <= j < i ==> (#[trigger] events[j])@ == record_of(rows[j]@),
        decreases rows.len() - i,
    {
        match event_from_row(&rows[i]) {
            Some(event) => {
                events.push(event);
            },
            None => {
                return Err(i);
            },
        }
        i += 1;
    }
    Ok(events)
}

/// A row that the result set holds once is listed once: if the row at `at`
/// is the only one that reads as `record`, then the listing holds `record` at
/// `at` and nowhere else, and it is as long as the result set.
pub proof fn lemma_row_is_listed_once(
    rows: Seq<Vec<Cell>>,
    events: Seq<Event>,
    at: int,
    record: Record,
)
    requires
        rows_are_events(rows),
        records(events) == listing_of(rows),
        0 <= at < rows.len(),
        forall|j: int| 0 <= j < rows.len() ==> (record_of(#[trigger] rows[j]@) == record <==> j == at),
    ensures
        events.len() == rows.len(),
        forall|j: int| 0 <= j < events.len() ==> ((#[trigger] events[j])@ == record <==> j == at),
{
    assert(records(events).len() == events.len());
    assert(listing_of(rows).len() == rows.len());
    assert forall|j: int| 0 <= j < events.len() implies ((#[trigger] events[j])@ == record <==> j
        == at) by {
        assert(records(events)[j] == events[j]@);
        assert(listing_of(rows)[j] == record_of(rows[j]@));
    }
}

} // verus!
