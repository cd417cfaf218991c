use vstd::prelude::*;

verus! {

/// A persisted event of an aggregate, as handed out by the store.
pub struct AggregateEventEnvelope<E> {
    /// Id of the stored row.
    pub id: u64,
    /// When the event was stored (RFC 3339).
    pub created_at: String,
    /// Type of the aggregate the event belongs to.
    pub aggregate_type: String,
    /// Id of the aggregate the event belongs to.
    pub aggregate_id: String,
    /// Position of the event in its aggregate's stream.
    pub sequence: u64,
    /// The event itself.
    pub event: E,
}

/// A stored row read back from the events table, with its event data
/// already run through the decoder (which may have failed).
pub struct LoadedEventRow<E> {
    pub id: u64,
    pub created_at: String,
    pub aggregate_type: String,
    pub aggregate_id: String,
    pub sequence: u64,
    pub event: Result<E, serde_json::Error>,
}

/// An event about to be saved, already encoded to its stored form.
pub struct EncodedEvent {
    /// Name of the event's variant.
    pub event_type: String,
    /// The event encoded as JSON.
    pub event_data: serde_json::Value,
}

/// A row to insert into the events table.
pub struct NewEventRow {
    pub aggregate_type: String,
    pub aggregate_id: String,
    pub sequence: u64,
    pub event_type: String,
    pub event_data: serde_json::Value,
}

} // verus!
