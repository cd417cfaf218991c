use vstd::prelude::*;

verus! {

/// Selection operation for the events to capture in an event stream.
#[derive(Debug, Clone, Copy, PartialEq, Eq, Structural)]
pub enum Select {
    /// To return all the events in the stream.
    All,
    /// To return a slice of the stream, starting from those events with
    /// version **greater or equal** than the one specified in this variant.
    From(u64),
}

impl Select {
    /// Whether an event of the given version belongs to this selection.
    pub open spec fn selects(self, version: u64) -> bool {
        match self {
            Select::All => true,
            Select::From(start) => start <= version,
        }
    }

    /// Tells whether an event with the given version is captured by this
    /// selection.
    pub fn includes(&self, version: u64) -> (selected: bool)
        ensures
            selected == self.selects(version),
            match *self {
                Select::All => selected,
                Select::From(start) => selected == (start <= version),
            },
    {
        match self {
            Select::All => true,
            Select::From(start) => *start <= version,
        }
    }
}

/// `All` captures every version, and `From(start)` captures a version exactly
/// when it is greater than or equal to `start`: a version below the start is
/// never captured.
pub proof fn lemma_selection_meaning(start: u64, version: u64)
    ensures
        Select::All.selects(version),
        Select::From(start).selects(version) <==> start <= version,
        version < start ==> !Select::From(start).selects(version),
{
}

/// Selecting from version zero captures exactly what selecting all does.
pub proof fn lemma_from_zero_is_all(version: u64)
    ensures
        Select::From(0).selects(version) == Select::All.selects(version),
{
}

/// A selection from a version is a slice that runs to the end of the stream:
/// once an event is selected, every later version is selected too.
pub proof fn lemma_selection_is_suffix(select: Select, version: u64, later: u64)
    requires
        select.selects(version),
        version <= later,
    ensures
        select.selects(later),
{
}

/// Starting a selection later never captures more events.
pub proof fn lemma_later_start_selects_less(start: u64, later_start: u64, version: u64)
    requires
        start <= later_start,
        Select::From(later_start).selects(version),
    ensures
        Select::From(start).selects(version),
{
}

} // verus!
