//! Reading the path and mode records despite a configuration that may change
//! between asking for buffer sizes and filling the buffers.
//!
//! The decisions are a machine from state and event to next state and
//! action; the caller performs each action against the operating system and
//! feeds back what it answered.
use vstd::prelude::*;

verus! {

/// Query flag: every path, active or not.
pub const QDC_ALL_PATHS: u32 = 1;

/// Query flag: the active paths only.
pub const QDC_ONLY_ACTIVE_PATHS: u32 = 2;

/// How many times an "insufficient buffer" answer is retried before the read fails.
pub const MAX_BUFFER_RETRIES: u32 = 3;

/// Why a topology read failed.
#[derive(Debug, Clone, Copy, PartialEq, Eq)]
pub enum TopologyError {
    /// Asking for the buffer sizes failed with this code.
    SizeQueryFailed(u32),
    /// Filling the buffers failed with this code (other than "insufficient buffer").
    QueryFailed(u32),
    /// The buffers were too small on every attempt.
    RetriesExhausted,
    /// A name query for a matched path failed with this code.
    NameQueryFailed(i32),
}

/// What the operating system answered to a request of the reader.
#[derive(Debug, Clone, Copy, PartialEq, Eq)]
pub enum ReadEvent {
    /// Buffer sizes, or the failure code of the size query.
    Sizes(Result<(u32, u32), u32>),
    /// The buffers were filled; these many path and mode records are valid.
    Filled { path_count: u32, mode_count: u32 },
    /// The configuration grew between the two calls.
    InsufficientBuffer,
    /// Filling the buffers failed with this code.
    QueryFailed(u32),
}

/// What the reader asks for next.
#[derive(Debug, Clone, Copy, PartialEq, Eq)]
pub enum ReadAction {
    /// Ask for the buffer sizes.
    QuerySizes,
    /// Allocate buffers of exactly these sizes and fill them.
    QueryConfig { path_capacity: u32, mode_capacity: u32 },
    /// The read is over: the valid record counts, to which the buffers are
    /// trimmed, or the error.
    Done(Result<(u32, u32), TopologyError>),
}

/// Where a read stands.
#[derive(Debug, Clone, Copy, PartialEq, Eq)]
pub enum ReadStage {
    AwaitSizes,
    AwaitQuery { path_capacity: u32, mode_capacity: u32 },
    Finished(Result<(u32, u32), TopologyError>),
}

/// The state of one read.
#[derive(Debug, Clone, Copy, PartialEq, Eq)]
pub struct SnapshotReader {
    /// The query flags: all paths or only the active ones.
    pub flags: u32,
    /// How many "insufficient buffer" answers were retried so far.
    pub retries: u32,
    pub stage: ReadStage,
}

/// The action that a state asks for.
pub open spec fn spec_action_of(r: SnapshotReader) -> ReadAction {
    match r.stage {
        ReadStage::AwaitSizes => ReadAction::QuerySizes,
        ReadStage::AwaitQuery { path_capacity, mode_capacity } => ReadAction::QueryConfig {
            path_capacity,
            mode_capacity,
        },
        ReadStage::Finished(o) => ReadAction::Done(o),
    }
}

/// Whether an event answers the pending request.
pub open spec fn spec_accepts(r: SnapshotReader, e: ReadEvent) -> bool {
    match r.stage {
        ReadStage::AwaitSizes => e is Sizes,
        ReadStage::AwaitQuery { .. } => !(e is Sizes),
        ReadStage::Finished(_) => false,
    }
}

/// One step of a read. Sizes lead to a fill request of exactly those sizes;
/// a fill ends the read with its counts; "insufficient buffer" starts over
/// with fresh sizes up to three times and then ends the read in an error;
/// any other failure ends it at once. An event that does not answer the
/// pending request changes nothing.
pub open spec fn spec_step(r: SnapshotReader, e: ReadEvent) -> SnapshotReader {
    if !spec_accepts(r, e) {
        r
    } else {
        match e {
            ReadEvent::Sizes(Ok((p, m))) => SnapshotReader {
                stage: ReadStage::AwaitQuery { path_capacity: p, mode_capacity: m },
                ..r
            },
            ReadEvent::Sizes(Err(code)) => SnapshotReader {
                stage: ReadStage::Finished(Err(TopologyError::SizeQueryFailed(code))),
                ..r
            },
            ReadEvent::Filled { path_count, mode_count } => SnapshotReader {
                stage: ReadStage::Finished(Ok((path_count, mode_count))),
                ..r
            },
            ReadEvent::InsufficientBuffer => if r.retries < MAX_BUFFER_RETRIES {
                SnapshotReader { retries: (r.retries + 1) as u32, stage: ReadStage::AwaitSizes, ..r }
            } else {
                SnapshotReader {
                    stage: ReadStage::Finished(Err(TopologyError::RetriesExhausted)),
                    ..r
                }
            },
            ReadEvent::QueryFailed(code) => SnapshotReader {
                stage: ReadStage::Finished(Err(TopologyError::QueryFailed(code))),
                ..r
            },
        }
    }
}

/// The state of a fresh read.
pub open spec fn spec_new_reader(active_only: bool) -> SnapshotReader {
    SnapshotReader {
        flags: if active_only {
            QDC_ONLY_ACTIVE_PATHS
        } else {
            QDC_ALL_PATHS
        },
        retries: 0,
        stage: ReadStage::AwaitSizes,
    }
}

/// The state after a sequence of events.
pub open spec fn spec_run(r: SnapshotReader, events: Seq<ReadEvent>) -> SnapshotReader
    decreases events.len(),
{
    if events.len() == 0 {
        r
    } else {
        spec_run(spec_step(r, events[0]), events.drop_first())
    }
}

impl SnapshotReader {
    pub open spec fn well_formed(&self) -> bool {
        self.retries <= MAX_BUFFER_RETRIES
    }

    /// Starts a read of all paths, or of the active ones only; the first
    /// action is to ask for the buffer sizes.
    pub fn new(active_only: bool) -> (r: (Self, ReadAction))
        ensures
            r.0 == spec_new_reader(active_only),
            r.0.well_formed(),
            r.1 == ReadAction::QuerySizes,
    {
        let flags = if active_only {
            QDC_ONLY_ACTIVE_PATHS
        } else {
            QDC_ALL_PATHS
        };
        (SnapshotReader { flags, retries: 0, stage: ReadStage::AwaitSizes }, ReadAction::QuerySizes)
    }

    /// The action the read waits on.
    pub fn pending_action(&self) -> (r: ReadAction)
        ensures
            r == spec_action_of(*self),
    {
        match self.stage {
            ReadStage::AwaitSizes => ReadAction::QuerySizes,
            ReadStage::AwaitQuery { path_capacity, mode_capacity } => ReadAction::QueryConfig {
                path_capacity,
                mode_capacity,
            },
            ReadStage::Finished(o) => ReadAction::Done(o),
        }
    }

    /// Whether `event` answers the pending request.
    pub fn accepts(&self, event: &ReadEvent) -> (r: bool)
        ensures
            r == spec_accepts(*self, *event),
    {
        match self.stage {
            ReadStage::AwaitSizes => matches!(event, ReadEvent::Sizes(_)),
            ReadStage::AwaitQuery { .. } => !matches!(event, ReadEvent::Sizes(_)),
            ReadStage::Finished(_) => false,
        }
    }

    /// Feeds the answer to the pending request and returns the next action.
    pub fn step(&mut self, event: ReadEvent) -> (r: ReadAction)
        requires
            old(self).well_formed(),
        ensures
            *final(self) == spec_step(*old(self), event),
            final(self).well_formed(),
            r == spec_action_of(*final(self)),
    {
        if self.accepts(&event) {
            match event {
                ReadEvent::Sizes(Ok((p, m))) => {
                    self.stage = ReadStage::AwaitQuery { path_capacity: p, mode_capacity: m };
                },
                ReadEvent::Sizes(Err(code)) => {
                    self.stage = ReadStage::Finished(Err(TopologyError::SizeQueryFailed(code)));
                },
                ReadEvent::Filled { path_count, mode_count } => {
                    self.stage = ReadStage::Finished(Ok((path_count, mode_count)));
                },
                ReadEvent::InsufficientBuffer => {
                    if self.retries < MAX_BUFFER_RETRIES {
                        self.retries = self.retries + 1;
                        self.stage = ReadStage::AwaitSizes;
                    } else {
                        self.stage = ReadStage::Finished(Err(TopologyError::RetriesExhausted));
                    }
                },
                ReadEvent::QueryFailed(code) => {
                    self.stage = ReadStage::Finished(Err(TopologyError::QueryFailed(code)));
                },
            }
        }
        self.pending_action()
    }
}

/// Rounds that each end in "insufficient buffer", one per entry of `sizes`.
pub open spec fn insufficient_rounds(sizes: Seq<(u32, u32)>) -> Seq<ReadEvent>
    decreases sizes.len(),
{
    if sizes.len() == 0 {
        Seq::empty()
    } else {
        seq![ReadEvent::Sizes(Ok(sizes[0])), ReadEvent::InsufficientBuffer] + insufficient_rounds(
            sizes.drop_first(),
        )
    }
}

/// Running two sequences of events one after the other.
pub proof fn lemma_run_append(r: SnapshotReader, a: Seq<ReadEvent>, b: Seq<ReadEvent>)
    ensures
        spec_run(r, a + b) == spec_run(spec_run(r, a), b),
    decreases a.len(),
{
    if a.len() > 0 {
        assert((a + b).drop_first() =~= a.drop_first() + b);
        assert((a + b)[0] == a[0]);
        lemma_run_append(spec_step(r, a[0]), a.drop_first(), b);
    }
}

/// Running two events.
pub proof fn lemma_run_two(r: SnapshotReader, e1: ReadEvent, e2: ReadEvent)
    ensures
        spec_run(r, seq![e1, e2]) == spec_step(spec_step(r, e1), e2),
{
    let s = seq![e1, e2];
    assert(s.drop_first() =~= seq![e2]);
    assert(seq![e2].drop_first() =~= Seq::<ReadEvent>::empty());
    assert(spec_run(spec_step(spec_step(r, e1), e2), Seq::<ReadEvent>::empty()) == spec_step(
        spec_step(r, e1),
        e2,
    ));
    assert(spec_run(spec_step(r, e1), seq![e2]) == spec_step(spec_step(r, e1), e2));
}

/// While retries remain, each round of "insufficient buffer" counts one retry
/// and returns to asking for sizes.
pub proof fn lemma_insufficient_rounds(r: SnapshotReader, sizes: Seq<(u32, u32)>)
    requires
        r.stage == ReadStage::AwaitSizes,
        r.retries + sizes.len() <= MAX_BUFFER_RETRIES,
    ensures
        spec_run(r, insufficient_rounds(sizes)) == (SnapshotReader {
            retries: (r.retries + sizes.len()) as u32,
            ..r
        }),
    decreases sizes.len(),
{
    if sizes.len() > 0 {
        let head = seq![ReadEvent::Sizes(Ok(sizes[0])), ReadEvent::InsufficientBuffer];
        let next = SnapshotReader { retries: (r.retries + 1) as u32, ..r };
        lemma_run_append(r, head, insufficient_rounds(sizes.drop_first()));
        lemma_run_two(r, ReadEvent::Sizes(Ok(sizes[0])), ReadEvent::InsufficientBuffer);
        assert(spec_run(r, head) == next);
        lemma_insufficient_rounds(next, sizes.drop_first());
    }
}

/// A read that meets "insufficient buffer" up to three times and then fills
/// its buffers succeeds with the counts of that last fill; a read that meets
/// it four times fails with retries exhausted.
pub proof fn lemma_buffer_retry(
    active_only: bool,
    sizes: Seq<(u32, u32)>,
    last: (u32, u32),
    path_count: u32,
    mode_count: u32,
)
    ensures
        sizes.len() <= MAX_BUFFER_RETRIES ==> spec_run(
            spec_new_reader(active_only),
            insufficient_rounds(sizes) + seq![
                ReadEvent::Sizes(Ok(last)),
                ReadEvent::Filled { path_count, mode_count },
            ],
        ).stage == ReadStage::Finished(Ok((path_count, mode_count))),
        sizes.len() == MAX_BUFFER_RETRIES + 1 ==> spec_run(
            spec_new_reader(active_only),
            insufficient_rounds(sizes),
        ).stage == ReadStage::Finished(Err(TopologyError::RetriesExhausted)),
{
    let r0 = spec_new_reader(active_only);
    if sizes.len() <= MAX_BUFFER_RETRIES {
        let tail = seq![ReadEvent::Sizes(Ok(last)), ReadEvent::Filled { path_count, mode_count }];
        lemma_run_append(r0, insufficient_rounds(sizes), tail);
        lemma_insufficient_rounds(r0, sizes);
        lemma_run_two(
            SnapshotReader { retries: sizes.len() as u32, ..r0 },
            ReadEvent::Sizes(Ok(last)),
            ReadEvent::Filled { path_count, mode_count },
        );
    }
    if sizes.len() == MAX_BUFFER_RETRIES + 1 {
        let first = sizes.take(3);
        let rest = sizes.skip(3);
        assert(sizes =~= first + rest);
        lemma_rounds_append(first, rest);
        lemma_run_append(r0, insufficient_rounds(first), insufficient_rounds(rest));
        lemma_insufficient_rounds(r0, first);
        let r3 = SnapshotReader { retries: 3, ..r0 };
        let ev = insufficient_rounds(rest);
        assert(rest.drop_first() =~= Seq::<(u32, u32)>::empty());
        assert(insufficient_rounds(rest.drop_first()) =~= Seq::<ReadEvent>::empty());
        assert(ev =~= seq![ReadEvent::Sizes(Ok(rest[0])), ReadEvent::InsufficientBuffer]);
        lemma_run_two(r3, ReadEvent::Sizes(Ok(rest[0])), ReadEvent::InsufficientBuffer);
    }
}

/// The rounds of two size sequences, one after the other.
pub proof fn lemma_rounds_append(a: Seq<(u32, u32)>, b: Seq<(u32, u32)>)
    ensures
        insufficient_rounds(a + b) == insufficient_rounds(a) + insufficient_rounds(b),
    decreases a.len(),
{
    if a.len() == 0 {
        assert(a + b =~= b);
        assert(Seq::<ReadEvent>::empty() + insufficient_rounds(b) =~= insufficient_rounds(b));
    } else {
        assert((a + b).drop_first() =~= a.drop_first() + b);
        assert((a + b)[0] == a[0]);
        lemma_rounds_append(a.drop_first(), b);
        let h = seq![ReadEvent::Sizes(Ok(a[0])), ReadEvent::InsufficientBuffer];
        assert(h + (insufficient_rounds(a.drop_first()) + insufficient_rounds(b)) =~= (h
            + insufficient_rounds(a.drop_first())) + insufficient_rounds(b));
    }
}

} // verus!
