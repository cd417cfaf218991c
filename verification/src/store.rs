use vstd::prelude::*;

use crate::error::StoreError;
use crate::event::{AggregateEventEnvelope, EncodedEvent, LoadedEventRow, NewEventRow};

verus! {

/// The sequence after which an aggregate's new events are numbered: the
/// latest stored sequence, or zero when none was found.
pub open spec fn sequence_base(latest: Option<u64>) -> int {
    match latest {
        Some(sequence) => sequence as int,
        None => 0,
    }
}

/// The first `n` events to save were all encoded.
pub open spec fn encoded_prefix(events: Seq<Result<EncodedEvent, serde_json::Error>>, n: int) -> bool {
    forall|j: int| 0 <= j < n ==> #[trigger] events[j] is Ok
}

/// `row` stores `event` for the given aggregate at the given sequence.
pub open spec fn is_planned_row(
    row: NewEventRow,
    aggregate_type: Seq<char>,
    aggregate_id: Seq<char>,
    sequence: int,
    event: EncodedEvent,
) -> bool {
    &&& row.aggregate_type@ == aggregate_type
    &&& row.aggregate_id@ == aggregate_id
    &&& row.sequence == sequence
    &&& row.event_type == event.event_type
    &&& row.event_data == event.event_data
}

/// Every sequence that is computed before an encoding failure stops the
/// numbering fits in a `u64`.
pub open spec fn numbering_fits(latest: Option<u64>, events: Seq<Result<EncodedEvent, serde_json::Error>>) -> bool {
    forall|i: int|
        0 <= i < events.len() && encoded_prefix(events, i) ==> sequence_base(latest) + i + 1
            <= u64::MAX
}

/// The latest sequence of an aggregate, from the rows that the sequence
/// query returned: the sequence of the first row, or `None` when the query
/// returned no row.
pub fn latest_sequence(rows: &Vec<u64>) -> (latest: Option<u64>)
    ensures
        latest == (if rows.len() > 0 {
            Some(rows[0])
        } else {
            None
        }),
{
    if rows.len() > 0 {
        Some(rows[0])
    } else {
        None
    }
}

/// The rows that store `events` for an aggregate whose latest stored
/// sequence is `latest` (none: zero). The i-th event gets the sequence
/// `latest + i + 1`. An event that could not be encoded stops the numbering,
/// and its encoding error is returned.
pub fn new_event_rows(
    latest: Option<u64>,
    aggregate_type: &String,
    aggregate_id: &String,
    events: Vec<Result<EncodedEvent, serde_json::Error>>,
) -> (result: Result<Vec<NewEventRow>, StoreError>)
    requires
        numbering_fits(latest, events@),
    ensures
        result is Ok <==> encoded_prefix(events@, events.len() as int),
        result matches Ok(rows) ==> {
            &&& rows.len() == events.len()
            &&& forall|i: int|
                0 <= i < rows.len() ==> is_planned_row(
                    #[trigger] rows[i],
                    aggregate_type@,
                    aggregate_id@,
                    sequence_base(latest) + i + 1,
                    events@[i]->Ok_0,
                )
        },
        result matches Ok(rows) ==> forall|i: int, j: int|
            0 <= i < j < rows.len() ==> sequence_base(latest) < #[trigger] rows[i].sequence
                < #[trigger] rows[j].sequence,
        result matches Err(e) ==> exists|k: int|
            0 <= k < events.len() && encoded_prefix(events@, k) && #[trigger] events@[k] is Err
                && e == StoreError::SerializeEvent(events@[k]->Err_0),
        result is Ok <==> forall|j: int| 0 <= j < events.len() ==> #[trigger] events@[j] is Ok,
        result matches Ok(rows) ==> forall|i: int|
            0 <= i < rows.len() ==> {
                &&& (#[trigger] rows[i]).sequence == (match latest {
                    Some(s) => s + i + 1,
                    None => i + 1,
                })
                &&& rows[i].aggregate_type@ == aggregate_type@
                &&& rows[i].aggregate_id@ == aggregate_id@
                &&& events@[i] matches Ok(event) && rows[i].event_type == event.event_type
                    && rows[i].event_data == event.event_data
            },
        result matches Err(e) ==> exists|k: int|
            0 <= k < events.len() && (forall|j: int| 0 <= j < k ==> #[trigger] events@[j] is Ok)
                && (#[trigger] events@[k] matches Err(err) && e == StoreError::SerializeEvent(err)),
{
    let base: u64 = match latest {
        Some(sequence) => sequence,
        None => 0,
    };
    let ghost all = events@;
    let mut rows: Vec<NewEventRow> = Vec::new();
    let mut index: u64 = 0;
    for item in it: events.into_iter()
        invariant
            it.seq() == all,
            index == it.index(),
            rows.len() == it.index(),
            base == sequence_base(latest),
            numbering_fits(latest, all),
            encoded_prefix(all, it.index() as int),
            forall|i: int|
                0 <= i < rows.len() ==> is_planned_row(
                    #[trigger] rows[i],
                    aggregate_type@,
                    aggregate_id@,
                    base + i + 1,
                    all[i]->Ok_0,
                ),
    {
        match item {
            Ok(event) => {
                let sequence: u64 = base + index + 1;
                rows.push(
                    NewEventRow {
                        aggregate_type: aggregate_type.clone(),
                        aggregate_id: aggregate_id.clone(),
                        sequence,
                        event_type: event.event_type,
                        event_data: event.event_data,
                    },
                );
                index = index + 1;
            },
            Err(err) => {
                return Err(StoreError::SerializeEvent(err));
            },
        }
    }
    Ok(rows)
}

/// The first `n` loaded rows were all decoded.
pub open spec fn decoded_prefix<E>(rows: Seq<LoadedEventRow<E>>, n: int) -> bool {
    forall|j: int| 0 <= j < n ==> #[trigger] rows[j].event is Ok
}

/// `envelope` hands out the row `row`, whose event was decoded.
pub open spec fn is_envelope_of<E>(envelope: AggregateEventEnvelope<E>, row: LoadedEventRow<E>) -> bool {
    &&& envelope.id == row.id
    &&& envelope.created_at == row.created_at
    &&& envelope.aggregate_type == row.aggregate_type
    &&& envelope.aggregate_id == row.aggregate_id
    &&& envelope.sequence == row.sequence
    &&& row.event == Ok::<E, serde_json::Error>(envelope.event)
}

/// The envelopes of loaded rows, in the order of the rows. The first row
/// whose event could not be decoded makes the whole load fail, with that
/// row's id and its decoding error.
pub fn envelopes_from_rows<E>(rows: Vec<LoadedEventRow<E>>) -> (result: Result<
    Vec<AggregateEventEnvelope<E>>,
    StoreError,
>)
    ensures
        result is Ok <==> decoded_prefix(rows@, rows.len() as int),
        result matches Ok(envelopes) ==> {
            &&& envelopes.len() == rows.len()
            &&& forall|i: int|
                0 <= i < envelopes.len() ==> is_envelope_of(#[trigger] envelopes[i], rows@[i])
        },
        result matches Err(e) ==> exists|k: int|
            0 <= k < rows.len() && decoded_prefix(rows@, k) && (#[trigger] rows@[k]).event is Err
                && e == StoreError::DeserializeDbEvent(rows@[k].id, rows@[k].event->Err_0),
        result is Ok <==> forall|j: int| 0 <= j < rows.len() ==> (#[trigger] rows@[j]).event is Ok,
        result matches Ok(envelopes) ==> forall|i: int|
            0 <= i < envelopes.len() ==> {
                &&& (#[trigger] envelopes[i]).id == rows@[i].id
                &&& envelopes[i].created_at == rows@[i].created_at
                &&& envelopes[i].aggregate_type == rows@[i].aggregate_type
                &&& envelopes[i].aggregate_id == rows@[i].aggregate_id
                &&& envelopes[i].sequence == rows@[i].sequence
                &&& rows@[i].event == Ok::<E, serde_json::Error>(envelopes[i].event)
            },
        result matches Err(e) ==> exists|k: int|
            0 <= k < rows.len() && (forall|j: int| 0 <= j < k ==> (#[trigger] rows@[j]).event is Ok)
                && ((#[trigger] rows@[k]).event matches Err(err)
                && e == StoreError::DeserializeDbEvent(rows@[k].id, err)),
{
    let ghost all = rows@;
    let mut envelopes: Vec<AggregateEventEnvelope<E>> = Vec::new();
    for row in it: rows.into_iter()
        invariant
            it.seq() == all,
            envelopes.len() == it.index(),
            decoded_prefix(all, it.index() as int),
            forall|i: int|
                0 <= i < envelopes.len() ==> is_envelope_of(#[trigger] envelopes[i], all[i]),
    {
        match row.event {
            Ok(event) => {
                envelopes.push(
                    AggregateEventEnvelope {
                        id: row.id,
                        created_at: row.created_at,
                        aggregate_type: row.aggregate_type,
                        aggregate_id: row.aggregate_id,
                        sequence: row.sequence,
                        event,
                    },
                );
            },
            Err(err) => {
                return Err(StoreError::DeserializeDbEvent(row.id, err));
            },
        }
    }
    Ok(envelopes)
}

/// Saving after the latest stored sequence keeps an aggregate's stream
/// gapless: when the stored sequences are 1, 2, ..., s, the latest sequence
/// is s, and the new rows are numbered as `new_event_rows` numbers them, the
/// stored sequences followed by the new ones are 1, 2, ..., s + n.
pub proof fn lemma_numbering_stays_gapless(
    stored: Seq<u64>,
    latest: Option<u64>,
    aggregate_type: Seq<char>,
    aggregate_id: Seq<char>,
    events: Seq<EncodedEvent>,
    rows: Seq<NewEventRow>,
)
    requires
        forall|i: int| 0 <= i < stored.len() ==> #[trigger] stored[i] == i + 1,
        sequence_base(latest) == stored.len(),
        rows.len() == events.len(),
        forall|i: int|
            0 <= i < rows.len() ==> is_planned_row(
                #[trigger] rows[i],
                aggregate_type,
                aggregate_id,
                sequence_base(latest) + i + 1,
                events[i],
            ),
    ensures
        ({
            let all = stored + rows.map_values(|row: NewEventRow| row.sequence);
            &&& all.len() == stored.len() + rows.len()
            &&& forall|i: int| 0 <= i < all.len() ==> #[trigger] all[i] == i + 1
        }),
{
    let all = stored + rows.map_values(|row: NewEventRow| row.sequence);
    assert forall|i: int| 0 <= i < all.len() implies #[trigger] all[i] == i + 1 by {
        if i >= stored.len() {
            assert(is_planned_row(
                rows[i - stored.len()],
                aggregate_type,
                aggregate_id,
                sequence_base(latest) + (i - stored.len()) + 1,
                events[i - stored.len()],
            ));
        }
    }
}

/// New events are numbered right after the latest stored sequence itself:
/// after `Some(s)` the numbering starts at `s + 1`, after `None` at 1.
pub proof fn lemma_numbering_starts_after_latest(s: u64, i: int)
    ensures
        sequence_base(Some(s)) + i + 1 == s + i + 1,
        sequence_base(None) + i + 1 == i + 1,
        sequence_base(Some(s)) == s,
        sequence_base(None) == 0,
{
}

/// A planned row stores exactly the given aggregate, sequence and event.
pub proof fn lemma_planned_row_meaning(
    row: NewEventRow,
    aggregate_type: Seq<char>,
    aggregate_id: Seq<char>,
    sequence: int,
    event: EncodedEvent,
)
    ensures
        is_planned_row(row, aggregate_type, aggregate_id, sequence, event) <==> (
        row.aggregate_type@ == aggregate_type && row.aggregate_id@ == aggregate_id && row.sequence
            == sequence && row.event_type == event.event_type && row.event_data
            == event.event_data),
{
}

/// The first `n` events are encoded exactly when none of them failed, and
/// numbering fits exactly when every sequence reached before the first
/// encoding failure is at most `u64::MAX`; with every event encoded, that is
/// when the latest sequence plus the number of events fits.
pub proof fn lemma_numbering_fits_meaning(
    latest: Option<u64>,
    events: Seq<Result<EncodedEvent, serde_json::Error>>,
)
    ensures
        forall|n: int| #[trigger] encoded_prefix(events, n) <==> (forall|j: int|
            0 <= j < n ==> #[trigger] events[j] is Ok),
        numbering_fits(latest, events) <==> (forall|i: int|
            0 <= i < events.len() && #[trigger] encoded_prefix(events, i)
                ==> (match latest {
                Some(s) => s as int,
                None => 0int,
            }) + i + 1 <= u64::MAX),
        (forall|j: int| 0 <= j < events.len() ==> #[trigger] events[j] is Ok) ==> (numbering_fits(
            latest,
            events,
        ) <==> events.len() == 0 || (match latest {
            Some(s) => s as int,
            None => 0int,
        }) + events.len() <= u64::MAX),
{
    if forall|j: int| 0 <= j < events.len() ==> #[trigger] events[j] is Ok {
        if events.len() > 0 && !numbering_fits(latest, events) {
            let i = choose|i: int|
                0 <= i < events.len() && encoded_prefix(events, i) && !(sequence_base(latest) + i
                    + 1 <= u64::MAX);
            assert(i + 1 <= events.len());
        }
        if events.len() > 0 && sequence_base(latest) + events.len() > u64::MAX {
            assert(encoded_prefix(events, events.len() - 1));
        }
    }
}

/// An envelope hands out exactly the fields and the decoded event of its row,
/// and the first `n` rows are decoded exactly when none of them failed.
pub proof fn lemma_envelope_meaning<E>(
    envelope: AggregateEventEnvelope<E>,
    row: LoadedEventRow<E>,
    rows: Seq<LoadedEventRow<E>>,
)
    ensures
        forall|n: int| #[trigger] decoded_prefix(rows, n) <==> (forall|j: int|
            0 <= j < n ==> (#[trigger] rows[j]).event is Ok),
        is_envelope_of(envelope, row) <==> (envelope.id == row.id && envelope.created_at
            == row.created_at && envelope.aggregate_type == row.aggregate_type
            && envelope.aggregate_id == row.aggregate_id && envelope.sequence == row.sequence
            && row.event == Ok::<E, serde_json::Error>(envelope.event)),
{
}

} // verus!
