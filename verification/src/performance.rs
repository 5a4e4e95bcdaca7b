//! Counters of a run: transaction control statements and candidate validations.

use vstd::prelude::*;

verus! {

/// Which kind of transaction a control statement belongs to.
#[derive(Clone, Copy, Debug, PartialEq, Eq, Structural)]
pub enum SqliteTransactionScope {
    ReadSnapshot,
    WritePlan,
    DatabaseInitialization,
    Interactive,
}

/// A transaction control statement.
#[derive(Clone, Copy, Debug, PartialEq, Eq, Structural)]
pub enum SqliteTransactionControl {
    Begin,
    Commit,
    Rollback,
}

/// How often one control statement was tried and succeeded. Full counters stay full.
#[derive(Clone, Copy, Debug, PartialEq, Eq, Structural)]
pub struct SqliteControlCounts {
    pub attempted: u64,
    pub succeeded: u64,
}

/// The control statements of one kind of transaction.
#[derive(Clone, Copy, Debug, PartialEq, Eq, Structural)]
pub struct SqliteScopeCounts {
    pub begin: SqliteControlCounts,
    pub commit: SqliteControlCounts,
    pub rollback: SqliteControlCounts,
}

/// The control statements of all transactions.
#[derive(Clone, Copy, Debug, PartialEq, Eq, Structural)]
pub struct SqliteTransactionCounts {
    pub read_snapshot: SqliteScopeCounts,
    pub write_plan: SqliteScopeCounts,
    pub database_initialization: SqliteScopeCounts,
    pub interactive: SqliteScopeCounts,
}

/// Validations of complete candidates.
#[derive(Clone, Copy, Debug, PartialEq, Eq, Structural)]
pub struct CandidateValidationCounts {
    pub started: u64,
    pub completed: u64,
}

/// The counters at one moment.
#[derive(Clone, Copy, Debug, PartialEq, Eq, Structural)]
pub struct RunPerformanceSnapshot {
    pub sqlite_transactions: SqliteTransactionCounts,
    pub candidate_validations: CandidateValidationCounts,
}

/// One more, up to the largest number.
pub open spec fn counted(n: u64) -> u64 {
    if n < u64::MAX {
        (n + 1) as u64
    } else {
        n
    }
}

fn count_up(n: u64) -> (result: u64)
    ensures
        result == counted(n),
{
    if n < u64::MAX {
        n + 1
    } else {
        n
    }
}

impl SqliteScopeCounts {
    pub open spec fn of(self, control: SqliteTransactionControl) -> SqliteControlCounts {
        match control {
            SqliteTransactionControl::Begin => self.begin,
            SqliteTransactionControl::Commit => self.commit,
            SqliteTransactionControl::Rollback => self.rollback,
        }
    }

    pub open spec fn attempts(self) -> int {
        self.begin.attempted + self.commit.attempted + self.rollback.attempted
    }

    pub open spec fn with(
        self,
        control: SqliteTransactionControl,
        counts: SqliteControlCounts,
    ) -> Self {
        match control {
            SqliteTransactionControl::Begin => SqliteScopeCounts { begin: counts, ..self },
            SqliteTransactionControl::Commit => SqliteScopeCounts { commit: counts, ..self },
            SqliteTransactionControl::Rollback => SqliteScopeCounts { rollback: counts, ..self },
        }
    }

    fn changed(self, control: SqliteTransactionControl, attempt: bool) -> (result: Self)
        ensures
            result == self.with(control, changed_counts(self.of(control), attempt)),
    {
        match control {
            SqliteTransactionControl::Begin => SqliteScopeCounts {
                begin: change_counts(self.begin, attempt),
                ..self
            },
            SqliteTransactionControl::Commit => SqliteScopeCounts {
                commit: change_counts(self.commit, attempt),
                ..self
            },
            SqliteTransactionControl::Rollback => SqliteScopeCounts {
                rollback: change_counts(self.rollback, attempt),
                ..self
            },
        }
    }
}

/// One more attempt, or one more success.
pub open spec fn changed_counts(counts: SqliteControlCounts, attempt: bool) -> SqliteControlCounts {
    if attempt {
        SqliteControlCounts { attempted: counted(counts.attempted), ..counts }
    } else {
        SqliteControlCounts { succeeded: counted(counts.succeeded), ..counts }
    }
}

fn change_counts(counts: SqliteControlCounts, attempt: bool) -> (result: SqliteControlCounts)
    ensures
        result == changed_counts(counts, attempt),
{
    if attempt {
        SqliteControlCounts { attempted: count_up(counts.attempted), ..counts }
    } else {
        SqliteControlCounts { succeeded: count_up(counts.succeeded), ..counts }
    }
}

impl SqliteTransactionCounts {
    pub open spec fn of(self, scope: SqliteTransactionScope) -> SqliteScopeCounts {
        match scope {
            SqliteTransactionScope::ReadSnapshot => self.read_snapshot,
            SqliteTransactionScope::WritePlan => self.write_plan,
            SqliteTransactionScope::DatabaseInitialization => self.database_initialization,
            SqliteTransactionScope::Interactive => self.interactive,
        }
    }

    pub open spec fn with(self, scope: SqliteTransactionScope, counts: SqliteScopeCounts) -> Self {
        match scope {
            SqliteTransactionScope::ReadSnapshot => SqliteTransactionCounts {
                read_snapshot: counts,
                ..self
            },
            SqliteTransactionScope::WritePlan => SqliteTransactionCounts {
                write_plan: counts,
                ..self
            },
            SqliteTransactionScope::DatabaseInitialization => SqliteTransactionCounts {
                database_initialization: counts,
                ..self
            },
            SqliteTransactionScope::Interactive => SqliteTransactionCounts {
                interactive: counts,
                ..self
            },
        }
    }

    /// All attempts, up to the largest number.
    pub open spec fn attempts_capped(self) -> int {
        let sum = self.read_snapshot.attempts() + self.write_plan.attempts()
            + self.database_initialization.attempts() + self.interactive.attempts();
        if sum <= u64::MAX {
            sum
        } else {
            u64::MAX as int
        }
    }

    /// All attempts, up to the largest number.
    pub fn attempted_total(&self) -> (total: u64)
        ensures
            total == self.attempts_capped(),
    {
        let counts: [u64; 12] = [
            self.read_snapshot.begin.attempted,
            self.read_snapshot.commit.attempted,
            self.read_snapshot.rollback.attempted,
            self.write_plan.begin.attempted,
            self.write_plan.commit.attempted,
            self.write_plan.rollback.attempted,
            self.database_initialization.begin.attempted,
            self.database_initialization.commit.attempted,
            self.database_initialization.rollback.attempted,
            self.interactive.begin.attempted,
            self.interactive.commit.attempted,
            self.interactive.rollback.attempted,
        ];
        let mut sum: u128 = 0;
        let mut i: usize = 0;
        while i < 12
            invariant
                i <= 12,
                sum == prefix_sum(counts@, i as int),
                0 <= sum <= i * u64::MAX,
            decreases 12 - i,
        {
            sum = sum + counts[i] as u128;
            i += 1;
        }
        proof {
            reveal_with_fuel(prefix_sum, 13);
        }
        if sum <= u64::MAX as u128 {
            sum as u64
        } else {
            u64::MAX
        }
    }
}

spec fn prefix_sum(counts: Seq<u64>, n: int) -> int
    decreases n,
{
    if n <= 0 {
        0
    } else {
        prefix_sum(counts, n - 1) + counts[n - 1]
    }
}

/// The counters of a run.
#[derive(Clone, Copy, Debug, PartialEq, Eq, Structural)]
pub struct RunPerformanceCounters {
    counts: RunPerformanceSnapshot,
}

impl View for RunPerformanceCounters {
    type V = RunPerformanceSnapshot;

    closed spec fn view(&self) -> RunPerformanceSnapshot {
        self.counts
    }
}

impl RunPerformanceCounters {
    pub open spec fn zero() -> RunPerformanceSnapshot {
        let none = SqliteControlCounts { attempted: 0, succeeded: 0 };
        let scope = SqliteScopeCounts { begin: none, commit: none, rollback: none };
        RunPerformanceSnapshot {
            sqlite_transactions: SqliteTransactionCounts {
                read_snapshot: scope,
                write_plan: scope,
                database_initialization: scope,
                interactive: scope,
            },
            candidate_validations: CandidateValidationCounts { started: 0, completed: 0 },
        }
    }

    pub fn new() -> (counters: Self)
        ensures
            counters@ == Self::zero(),
    {
        let none = SqliteControlCounts { attempted: 0, succeeded: 0 };
        let scope = SqliteScopeCounts { begin: none, commit: none, rollback: none };
        RunPerformanceCounters {
            counts: RunPerformanceSnapshot {
                sqlite_transactions: SqliteTransactionCounts {
                    read_snapshot: scope,
                    write_plan: scope,
                    database_initialization: scope,
                    interactive: scope,
                },
                candidate_validations: CandidateValidationCounts { started: 0, completed: 0 },
            },
        }
    }

    pub fn snapshot(&self) -> (snapshot: RunPerformanceSnapshot)
        ensures
            snapshot == self@,
    {
        self.counts
    }

    /// Counts an attempt of a control statement, or its success.
    pub fn record(
        &mut self,
        scope: SqliteTransactionScope,
        control: SqliteTransactionControl,
        attempt: bool,
    )
        ensures
            final(self)@ == recorded(old(self)@, scope, control, attempt),
    {
        let counts = self.counts.sqlite_transactions;
        let changed = match scope {
            SqliteTransactionScope::ReadSnapshot => SqliteTransactionCounts {
                read_snapshot: counts.read_snapshot.changed(control, attempt),
                ..counts
            },
            SqliteTransactionScope::WritePlan => SqliteTransactionCounts {
                write_plan: counts.write_plan.changed(control, attempt),
                ..counts
            },
            SqliteTransactionScope::DatabaseInitialization => SqliteTransactionCounts {
                database_initialization: counts.database_initialization.changed(control, attempt),
                ..counts
            },
            SqliteTransactionScope::Interactive => SqliteTransactionCounts {
                interactive: counts.interactive.changed(control, attempt),
                ..counts
            },
        };
        self.counts = RunPerformanceSnapshot {
            sqlite_transactions: changed,
            candidate_validations: self.counts.candidate_validations,
        };
    }
}

/// The counters after one more attempt or success of a control statement.
pub open spec fn recorded(
    counts: RunPerformanceSnapshot,
    scope: SqliteTransactionScope,
    control: SqliteTransactionControl,
    attempt: bool,
) -> RunPerformanceSnapshot {
    let scoped = counts.sqlite_transactions.of(scope);
    RunPerformanceSnapshot {
        sqlite_transactions: counts.sqlite_transactions.with(
            scope,
            scoped.with(control, changed_counts(scoped.of(control), attempt)),
        ),
        candidate_validations: counts.candidate_validations,
    }
}

} // verus!
