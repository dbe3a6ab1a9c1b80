//! The decisions that apply one batch inside a single store transaction.
//!
//! The caller owns the transaction: it asks `next_action`, performs it, and
//! reports back. Writes go strictly in batch order; a constraint violation
//! skips that one update inside the open transaction, any other failure rolls
//! the whole transaction back.
use vstd::prelude::*;

verus! {

#[derive(Clone, Copy, Debug, PartialEq, Eq, Structural)]
pub enum Phase {
    /// No transaction yet.
    NotStarted,
    /// The transaction is open.
    Open,
    /// A write failed fatally; the transaction must be rolled back.
    RollingBack,
    Committed,
    RolledBack,
    /// Writes or reads are switched off: the batch is not applied.
    Skipped,
}

/// How the store answered one write.
#[derive(Clone, Copy, Debug, PartialEq, Eq, Structural)]
pub enum WriteOutcome {
    Written,
    /// A unique, foreign-key or check constraint refused the row.
    ConstraintViolation,
    /// Any other failure.
    Failed,
}

#[verifier::external_type_specification]
#[verifier::external_body]
pub struct ExSqlxError(sqlx::Error);

/// Whether the store's error names a violated constraint; it depends on the
/// error value alone.
pub uninterp spec fn constraint_named(e: sqlx::Error) -> bool;

/// Relies on sqlx::Error::Database and DatabaseError::constraint: the store
/// refused the statement and named the constraint that it would break.
#[verifier::external_body]
fn names_constraint(e: &sqlx::Error) -> (r: bool)
    ensures
        r == constraint_named(*e),
{
    match e {
        sqlx::Error::Database(d) => d.constraint().is_some(),
        _ => false,
    }
}

/// How a write is counted, from whether it succeeded and, if not, whether a
/// constraint refused it.
pub fn outcome_of(succeeded: bool, constraint_refused: bool) -> (r: WriteOutcome)
    ensures
        r == (if succeeded {
            WriteOutcome::Written
        } else if constraint_refused {
            WriteOutcome::ConstraintViolation
        } else {
            WriteOutcome::Failed
        }),
{
    if succeeded {
        WriteOutcome::Written
    } else if constraint_refused {
        WriteOutcome::ConstraintViolation
    } else {
        WriteOutcome::Failed
    }
}

/// Classifies the store's answer to one write: only a refusal that names a
/// constraint is skipped; every other error is fatal.
pub fn classify_write(result: &Result<(), sqlx::Error>) -> (r: WriteOutcome)
    ensures
        (r == WriteOutcome::Written) <==> result is Ok,
        result is Err ==> r == (if constraint_named(result->Err_0) {
            WriteOutcome::ConstraintViolation
        } else {
            WriteOutcome::Failed
        }),
{
    match result {
        Ok(()) => outcome_of(true, false),
        Err(e) => outcome_of(false, names_constraint(e)),
    }
}

/// What the caller does next.
#[derive(Clone, Copy, Debug, PartialEq, Eq, Structural)]
pub enum IssueAction {
    Begin,
    /// Write the update at this position of the batch.
    Write(usize),
    Commit,
    Rollback,
    Finished,
}

/// The abstract state of a batch being applied.
pub struct IssueState {
    pub phase: Phase,
    pub len: nat,
    /// Writes attempted and answered without a fatal failure.
    pub pos: nat,
    /// Positions skipped for a constraint violation, in order.
    pub skipped: Seq<int>,
}

impl IssueState {
    pub open spec fn start(len: nat, skip_writes: bool, skip_reads: bool) -> IssueState {
        IssueState {
            phase: if skip_writes || skip_reads {
                Phase::Skipped
            } else {
                Phase::NotStarted
            },
            len,
            pos: 0,
            skipped: Seq::empty(),
        }
    }

    pub open spec fn action(self) -> IssueAction {
        match self.phase {
            Phase::NotStarted => IssueAction::Begin,
            Phase::Open => if self.pos < self.len {
                IssueAction::Write(self.pos as usize)
            } else {
                IssueAction::Commit
            },
            Phase::RollingBack => IssueAction::Rollback,
            _ => IssueAction::Finished,
        }
    }

    pub open spec fn after_begin(self) -> IssueState {
        IssueState { phase: Phase::Open, ..self }
    }

    pub open spec fn after_write(self, outcome: WriteOutcome) -> IssueState {
        match outcome {
            WriteOutcome::Written => IssueState { pos: self.pos + 1, ..self },
            WriteOutcome::ConstraintViolation => IssueState {
                pos: self.pos + 1,
                skipped: self.skipped.push(self.pos as int),
                ..self
            },
            WriteOutcome::Failed => IssueState { phase: Phase::RollingBack, ..self },
        }
    }

    pub open spec fn after_commit(self) -> IssueState {
        IssueState { phase: Phase::Committed, ..self }
    }

    pub open spec fn after_rollback(self) -> IssueState {
        IssueState { phase: Phase::RolledBack, ..self }
    }

    /// The positions of the batch that the store holds once this state is
    /// reached: the written ones, and only after a commit.
    pub open spec fn persisted(self) -> Set<int> {
        if self.phase == Phase::Committed {
            Set::new(|i: int| 0 <= i < self.pos && !self.skipped.contains(i))
        } else {
            Set::empty()
        }
    }
}

/// Applying one batch: where it stands and which updates were skipped.
pub struct BatchIssue {
    len: usize,
    pos: usize,
    phase: Phase,
    skipped: Vec<usize>,
}

impl View for BatchIssue {
    type V = IssueState;

    closed spec fn view(&self) -> IssueState {
        IssueState {
            phase: self.phase,
            len: self.len as nat,
            pos: self.pos as nat,
            skipped: self.skipped@.map_values(|x: usize| x as int),
        }
    }
}

impl BatchIssue {
    /// A batch of `batch_len` updates, not applied at all when writes or reads
    /// are switched off.
    pub fn new(batch_len: usize, skip_writes: bool, skip_reads: bool) -> (r: Self)
        ensures
            r@ == IssueState::start(batch_len as nat, skip_writes, skip_reads),
    {
        let r = BatchIssue {
            len: batch_len,
            pos: 0,
            phase: if skip_writes || skip_reads {
                Phase::Skipped
            } else {
                Phase::NotStarted
            },
            skipped: Vec::new(),
        };
        assert(r@.skipped =~= Seq::<int>::empty());
        r
    }

    pub fn next_action(&self) -> (r: IssueAction)
        ensures
            r == self@.action(),
    {
        match self.phase {
            Phase::NotStarted => IssueAction::Begin,
            Phase::Open => if self.pos < self.len {
                IssueAction::Write(self.pos)
            } else {
                IssueAction::Commit
            },
            Phase::RollingBack => IssueAction::Rollback,
            _ => IssueAction::Finished,
        }
    }

    /// The transaction was opened.
    pub fn begun(&mut self)
        requires
            old(self)@.phase == Phase::NotStarted,
        ensures
            final(self)@ == old(self)@.after_begin(),
    {
        self.phase = Phase::Open;
    }

    /// The write at the current position was answered with `outcome`.
    pub fn record(&mut self, outcome: WriteOutcome)
        requires
            old(self)@.phase == Phase::Open,
            old(self)@.pos < old(self)@.len,
        ensures
            final(self)@ == old(self)@.after_write(outcome),
    {
        match outcome {
            WriteOutcome::Written => {
                self.pos = self.pos + 1;
            },
            WriteOutcome::ConstraintViolation => {
                let ghost before = self.skipped@;
                self.skipped.push(self.pos);
                assert(self.skipped@.map_values(|x: usize| x as int) =~= before.map_values(
                    |x: usize| x as int,
                ).push(self.pos as int));
                self.pos = self.pos + 1;
            },
            WriteOutcome::Failed => {
                self.phase = Phase::RollingBack;
            },
        }
    }

    /// The transaction was committed.
    pub fn committed(&mut self)
        requires
            old(self)@.phase == Phase::Open,
            old(self)@.pos == old(self)@.len,
        ensures
            final(self)@ == old(self)@.after_commit(),
    {
        self.phase = Phase::Committed;
    }

    /// The transaction was rolled back.
    pub fn rolled_back(&mut self)
        requires
            old(self)@.phase == Phase::RollingBack,
        ensures
            final(self)@ == old(self)@.after_rollback(),
    {
        self.phase = Phase::RolledBack;
    }

    pub fn phase(&self) -> (r: Phase)
        ensures
            r == self@.phase,
    {
        self.phase
    }

    /// The positions skipped for a constraint violation, in order.
    pub fn skipped(&self) -> (r: &Vec<usize>)
        ensures
            r@.map_values(|x: usize| x as int) == self@.skipped,
    {
        &self.skipped
    }
}

/// Performs the writes of an open transaction in order, each answered by
/// `outcomes`, until the batch ends or a write fails fatally.
pub open spec fn write_all(s: IssueState, outcomes: Seq<WriteOutcome>) -> IssueState
    decreases 2 * (s.len - s.pos) + (if s.phase == Phase::Open {
        1int
    } else {
        0
    }),
{
    if s.phase == Phase::Open && s.pos < s.len {
        write_all(s.after_write(outcomes[s.pos as int]), outcomes)
    } else {
        s
    }
}

/// Where a batch of `outcomes.len()` updates ends when the store answers its
/// writes with `outcomes`.
pub open spec fn run(skip_writes: bool, skip_reads: bool, outcomes: Seq<WriteOutcome>) -> IssueState {
    let s0 = IssueState::start(outcomes.len(), skip_writes, skip_reads);
    if s0.phase == Phase::Skipped {
        s0
    } else {
        let s = write_all(s0.after_begin(), outcomes);
        if s.phase == Phase::RollingBack {
            s.after_rollback()
        } else {
            s.after_commit()
        }
    }
}

/// The skipped positions below `s.pos` are exactly those whose write met a
/// constraint violation.
pub open spec fn skips_match(s: IssueState, outcomes: Seq<WriteOutcome>) -> bool {
    &&& forall|i: int| 0 <= i < s.pos ==> (s.skipped.contains(i) <==> outcomes[i]
        == WriteOutcome::ConstraintViolation)
    &&& forall|k: int| 0 <= k < s.skipped.len() ==> 0 <= #[trigger] s.skipped[k] < s.pos
}

proof fn lemma_write_all(s: IssueState, outcomes: Seq<WriteOutcome>)
    requires
        s.phase == Phase::Open,
        s.pos <= s.len,
        outcomes.len() == s.len,
        skips_match(s, outcomes),
    ensures
        write_all(s, outcomes).len == s.len,
        write_all(s, outcomes).phase == Phase::Open || write_all(s, outcomes).phase
            == Phase::RollingBack,
        write_all(s, outcomes).phase == Phase::Open ==> {
            &&& write_all(s, outcomes).pos == s.len
            &&& forall|j: int| s.pos <= j < s.len ==> outcomes[j] != WriteOutcome::Failed
            &&& skips_match(write_all(s, outcomes), outcomes)
        },
        write_all(s, outcomes).phase == Phase::RollingBack ==> {
            &&& s.pos <= write_all(s, outcomes).pos < s.len
            &&& outcomes[write_all(s, outcomes).pos as int] == WriteOutcome::Failed
            &&& forall|j: int|
                s.pos <= j < write_all(s, outcomes).pos ==> outcomes[j] != WriteOutcome::Failed
        },
    decreases s.len - s.pos,
{
    if s.pos < s.len {
        let o = outcomes[s.pos as int];
        let n = s.after_write(o);
        if o != WriteOutcome::Failed {
            assert forall|i: int| 0 <= i < n.pos implies (n.skipped.contains(i) <==> outcomes[i]
                == WriteOutcome::ConstraintViolation) by {
                if i < s.pos {
                    if o == WriteOutcome::ConstraintViolation {
                        assert(n.skipped.contains(i) ==> s.skipped.contains(i) || i == s.pos);
                        assert(s.skipped.contains(i) ==> n.skipped.contains(i)) by {
                            if s.skipped.contains(i) {
                                let k = choose|k: int| 0 <= k < s.skipped.len() && s.skipped[k] == i;
                                assert(n.skipped[k] == i);
                            }
                        }
                    }
                } else {
                    if o == WriteOutcome::ConstraintViolation {
                        assert(n.skipped[s.skipped.len() as int] == i);
                    } else {
                        assert(!s.skipped.contains(i));
                    }
                }
            }
            lemma_write_all(n, outcomes);
        }
    }
}

/// A batch with no fatal failure commits, and the store then holds exactly the
/// updates whose write succeeded: those refused by a constraint are skipped,
/// never rolling back the others.
pub proof fn lemma_commit_keeps_all_but_skipped(outcomes: Seq<WriteOutcome>)
    requires
        forall|i: int| 0 <= i < outcomes.len() ==> outcomes[i] != WriteOutcome::Failed,
    ensures
        run(false, false, outcomes).phase == Phase::Committed,
        run(false, false, outcomes).pos == outcomes.len(),
        run(false, false, outcomes).persisted() == Set::new(
            |i: int| 0 <= i < outcomes.len() && outcomes[i] == WriteOutcome::Written,
        ),
        forall|i: int|
            0 <= i < outcomes.len() ==> (run(false, false, outcomes).skipped.contains(i)
                <==> outcomes[i] == WriteOutcome::ConstraintViolation),
{
    let s0 = IssueState::start(outcomes.len(), false, false).after_begin();
    lemma_write_all(s0, outcomes);
    let s = write_all(s0, outcomes);
    if s.phase == Phase::RollingBack {
        assert(outcomes[s.pos as int] == WriteOutcome::Failed);
    }
    assert(run(false, false, outcomes).persisted() =~= Set::new(
        |i: int| 0 <= i < outcomes.len() && outcomes[i] == WriteOutcome::Written,
    ));
}

/// A fatal failure of the write at `k` stops the batch there: no later write is
/// attempted, the transaction is rolled back, and the store holds none of the
/// batch.
pub proof fn lemma_fatal_rolls_back(outcomes: Seq<WriteOutcome>, k: int)
    requires
        0 <= k < outcomes.len(),
        outcomes[k] == WriteOutcome::Failed,
        forall|j: int| 0 <= j < k ==> outcomes[j] != WriteOutcome::Failed,
    ensures
        run(false, false, outcomes).phase == Phase::RolledBack,
        run(false, false, outcomes).pos == k,
        run(false, false, outcomes).persisted() == Set::<int>::empty(),
{
    let s0 = IssueState::start(outcomes.len(), false, false).after_begin();
    lemma_write_all(s0, outcomes);
    let s = write_all(s0, outcomes);
    if s.phase == Phase::Open {
        assert(outcomes[k] != WriteOutcome::Failed);
    }
    if s.pos < k {
        assert(outcomes[s.pos as int] != WriteOutcome::Failed);
    }
    if s.pos > k {
        assert(outcomes[k] != WriteOutcome::Failed);
    }
}

/// With writes or reads switched off the batch is not applied: no transaction
/// is opened, no write is attempted, and the store holds none of it.
pub proof fn lemma_skip_leaves_store(skip_writes: bool, skip_reads: bool, outcomes: Seq<WriteOutcome>)
    requires
        skip_writes || skip_reads,
    ensures
        run(skip_writes, skip_reads, outcomes).phase == Phase::Skipped,
        run(skip_writes, skip_reads, outcomes).pos == 0,
        run(skip_writes, skip_reads, outcomes).persisted() == Set::<int>::empty(),
        IssueState::start(outcomes.len(), skip_writes, skip_reads).action()
            == IssueAction::Finished,
{
}

} // verus!
