use vstd::prelude::*;

verus! {

/// The most bytes one read of the terminal asks for.
pub const READ_CHUNK_SIZE: usize = 1024;

/// How long, in milliseconds, the reader pauses after a read that brought nothing.
pub const BACKOFF_MS: u64 = 10;

/// What one read attempt on the terminal's master end brought.
#[derive(Debug, PartialEq, Eq)]
pub enum ReadOutcome {
    /// The read returned these bytes (none, for a zero-byte read).
    Data(Vec<u8>),
    /// The read failed or would have blocked.
    Failed,
}

/// What the reader does after a read attempt.
#[derive(Debug, PartialEq, Eq)]
pub enum ReaderAction {
    /// Append these bytes to the output buffer, then read again at once.
    Append(Vec<u8>),
    /// Pause for this many milliseconds, then read again.
    Sleep(u64),
}

/// The bytes a read attempt brought; none for a failed one.
pub open spec fn outcome_bytes(o: ReadOutcome) -> Seq<u8> {
    match o {
        ReadOutcome::Data(v) => v@,
        ReadOutcome::Failed => Seq::empty(),
    }
}

/// The bytes the reader appends to the output after a read attempt.
pub open spec fn appended_after(o: ReadOutcome) -> Seq<u8> {
    if outcome_bytes(o).len() > 0 {
        outcome_bytes(o)
    } else {
        Seq::empty()
    }
}

/// The pause, in milliseconds, that follows a read attempt.
pub open spec fn pause_after(o: ReadOutcome) -> int {
    if outcome_bytes(o).len() > 0 {
        0
    } else {
        BACKOFF_MS as int
    }
}

/// The bytes an action appends.
pub open spec fn action_bytes(a: ReaderAction) -> Seq<u8> {
    match a {
        ReaderAction::Append(v) => v@,
        ReaderAction::Sleep(_) => Seq::empty(),
    }
}

/// The pause, in milliseconds, that an action makes.
pub open spec fn action_pause(a: ReaderAction) -> int {
    match a {
        ReaderAction::Append(_) => 0,
        ReaderAction::Sleep(ms) => ms as int,
    }
}

/// What the reader has appended after acting on each of `outcomes` in turn.
pub open spec fn reader_output(outcomes: Seq<ReadOutcome>) -> Seq<u8>
    decreases outcomes.len(),
{
    if outcomes.len() == 0 {
        Seq::empty()
    } else {
        reader_output(outcomes.drop_last()) + appended_after(outcomes.last())
    }
}

/// How long, in milliseconds, the reader has paused over `outcomes`.
pub open spec fn reader_pauses(outcomes: Seq<ReadOutcome>) -> int
    decreases outcomes.len(),
{
    if outcomes.len() == 0 {
        0
    } else {
        reader_pauses(outcomes.drop_last()) + pause_after(outcomes.last())
    }
}

/// Decides what follows a read attempt: bytes that came are appended in full
/// and the next read follows at once; a read that brought nothing (zero
/// bytes, an error, or nothing ready) is followed by a pause of `BACKOFF_MS`.
pub fn next_action(outcome: ReadOutcome) -> (r: ReaderAction)
    ensures
        action_bytes(r) == appended_after(outcome),
        action_pause(r) == pause_after(outcome),
        match r {
            ReaderAction::Append(v) => outcome_bytes(outcome).len() > 0 && v@ == outcome_bytes(
                outcome,
            ),
            ReaderAction::Sleep(ms) => outcome_bytes(outcome).len() == 0 && ms == BACKOFF_MS,
        },
{
    match outcome {
        ReadOutcome::Data(v) => {
            if v.len() > 0 {
                ReaderAction::Append(v)
            } else {
                ReaderAction::Sleep(BACKOFF_MS)
            }
        },
        ReadOutcome::Failed => ReaderAction::Sleep(BACKOFF_MS),
    }
}

/// The reader keeps the order and the content of what it reads: over any run
/// of read attempts, what it appends is every byte that came, in the order in
/// which it came.
pub proof fn lemma_reader_keeps_order(outcomes: Seq<ReadOutcome>)
    ensures
        reader_output(outcomes) == outcomes.map_values(|o: ReadOutcome| outcome_bytes(o)).flatten(),
    decreases outcomes.len(),
{
    broadcast use Seq::lemma_flatten_push;

    let f = |o: ReadOutcome| outcome_bytes(o);
    if outcomes.len() > 0 {
        lemma_reader_keeps_order(outcomes.drop_last());
        assert(outcomes.map_values(f) =~= outcomes.drop_last().map_values(f).push(
            outcome_bytes(outcomes.last()),
        ));
        assert(appended_after(outcomes.last()) =~= outcome_bytes(outcomes.last()));
    } else {
        assert(outcomes.map_values(f) =~= Seq::<Seq<u8>>::empty());
    }
}

/// Every read attempt that brings nothing is paid for with a pause of
/// `BACKOFF_MS`: over a run in which no data comes, the reader pauses
/// `BACKOFF_MS` per attempt, so it makes at most one attempt per interval.
pub proof fn lemma_idle_reads_back_off(outcomes: Seq<ReadOutcome>)
    requires
        forall|i: int| 0 <= i < outcomes.len() ==> outcome_bytes(#[trigger] outcomes[i]).len() == 0,
    ensures
        reader_pauses(outcomes) == BACKOFF_MS * outcomes.len(),
    decreases outcomes.len(),
{
    if outcomes.len() > 0 {
        let prefix = outcomes.drop_last();
        assert forall|i: int| 0 <= i < prefix.len() implies outcome_bytes(
            #[trigger] prefix[i],
        ).len() == 0 by {
            assert(prefix[i] == outcomes[i]);
        }
        lemma_idle_reads_back_off(prefix);
        assert(outcome_bytes(outcomes[outcomes.len() - 1]).len() == 0);
    }
}

} // verus!
