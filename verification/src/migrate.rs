//! Forward-only schema migrations: an append-only list of versioned scripts
//! and the runner that brings a store from its recorded version to the
//! latest one.
//!
//! The runner decides; the host executes. `MigrationRunner::next` names the
//! migration to apply, the host runs its script in one unit of work together
//! with the store's version record, and `MigrationRunner::record` takes the
//! outcome. `MigrationRunner::run` is that loop around a host function.

use vstd::prelude::*;

verus! {

/// One immutable schema change. Versions start at 1 and there is no way
/// back: a migration is applied forward, at most once per store.
#[derive(Clone, Debug, PartialEq, Eq)]
pub struct Migration {
    pub version: u64,
    pub description: String,
    pub script: String,
}

/// Versions are 1, 2, 3, ... in list order, without gap or repetition.
pub open spec fn contiguous(migrations: Seq<Migration>) -> bool {
    forall|i: int| 0 <= i < migrations.len() ==> (#[trigger] migrations[i]).version == i + 1
}

/// The first position of `migrations` whose version is not its position
/// plus one.
pub open spec fn first_break(migrations: Seq<Migration>, index: int) -> bool {
    &&& 0 <= index < migrations.len()
    &&& migrations[index].version != index + 1
    &&& contiguous(migrations.take(index))
}

/// Why a list of migrations was refused.
#[derive(Clone, Debug, PartialEq, Eq)]
pub enum PlanError {
    /// The migration at position `index` carries version `found`, where
    /// `index + 1` was due.
    OutOfSequence { index: usize, found: u64 },
}

/// The script that stopped a run, and the store's complaint.
#[derive(Clone, Debug, PartialEq, Eq)]
pub struct MigrationFailure {
    pub version: u64,
    pub reason: String,
}

/// Where a run stands, as numbers: the store's recorded version, the
/// versions applied so far in the order of application, and the version
/// whose script failed, with the reason, if one did.
pub struct Progress {
    pub version: nat,
    pub applied: Seq<nat>,
    pub failure: Option<(nat, Seq<char>)>,
}

/// A run that has just read `recorded` from the store.
pub open spec fn begin(recorded: nat) -> Progress {
    Progress { version: recorded, applied: Seq::empty(), failure: None }
}

/// The version to apply next, where `latest` is the newest version known:
/// the successor of the recorded one, unless a script has failed or the
/// store is up to date.
pub open spec fn next_version(latest: nat, progress: Progress) -> Option<nat> {
    if progress.failure is None && progress.version < latest {
        Some(progress.version + 1)
    } else {
        None
    }
}

/// The run after the host reported `outcome` for the pending migration.
/// Success moves the recorded version on by one. Failure leaves it where it
/// was and ends the run. With nothing pending the report changes nothing.
pub open spec fn advance(latest: nat, progress: Progress, outcome: Result<(), Seq<char>>) -> Progress {
    match next_version(latest, progress) {
        None => progress,
        Some(version) => match outcome {
            Ok(_) => Progress {
                version: version,
                applied: progress.applied.push(version),
                failure: None,
            },
            Err(reason) => Progress {
                version: progress.version,
                applied: progress.applied,
                failure: Some((version, reason)),
            },
        },
    }
}

/// The run carried to its end, where `outcomes` says how the script of each
/// version fares.
pub open spec fn run_from(
    latest: nat,
    progress: Progress,
    outcomes: spec_fn(nat) -> Result<(), Seq<char>>,
) -> Progress
    decreases latest - progress.version, (if progress.failure is None { 1nat } else { 0nat }),
{
    match next_version(latest, progress) {
        None => progress,
        Some(version) => run_from(latest, advance(latest, progress, outcomes(version)), outcomes),
    }
}

/// The versions `from + 1, from + 2, ..., to`, ascending.
pub open spec fn ascending(from: nat, to: nat) -> Seq<nat> {
    Seq::new((to - from) as nat, |i: int| (from + 1 + i) as nat)
}

/// What a host's report says, with the reason as text.
pub open spec fn outcome_view(outcome: Result<(), String>) -> Result<(), Seq<char>> {
    match outcome {
        Ok(_) => Ok(()),
        Err(reason) => Err(reason@),
    }
}

/// The outcomes that `progress` bears witness to: the script it reports as
/// failed did fail, for that reason, and no other script failed.
pub open spec fn witnessed(progress: Progress) -> spec_fn(nat) -> Result<(), Seq<char>> {
    |version: nat|
        match progress.failure {
            Some((failed, reason)) => if version == failed {
                Err(reason)
            } else {
                Ok(())
            },
            None => Ok(()),
        }
}

/// The state of one run of the runner against one store.
#[derive(Clone, Debug, PartialEq, Eq)]
pub struct Run {
    version: u64,
    applied: Vec<u64>,
    failure: Option<MigrationFailure>,
}

impl View for Run {
    type V = Progress;

    closed spec fn view(&self) -> Progress {
        Progress {
            version: self.version as nat,
            applied: self.applied@.map_values(|v: u64| v as nat),
            failure: match self.failure {
                Some(failure) => Some((failure.version as nat, failure.reason@)),
                None => None,
            },
        }
    }
}

impl Run {
    /// The script that stopped the run, if one did, with the reason as the
    /// host gave it.
    pub closed spec fn stopped_by(&self) -> Option<MigrationFailure> {
        self.failure
    }

    /// A run against a store that records `recorded`, 0 for a fresh store.
    pub fn begin(recorded: u64) -> (run: Run)
        ensures
            run@ == begin(recorded as nat),
            run.stopped_by() is None,
    {
        let run = Run { version: recorded, applied: Vec::new(), failure: None };
        assert(run@.applied =~= Seq::empty());
        run
    }

    /// The version that the store records: the last one applied with
    /// success, or the one the run started from.
    pub fn version(&self) -> (version: u64)
        ensures
            version == self@.version,
    {
        self.version
    }

    /// The versions applied during this run, in the order of application.
    pub fn applied(&self) -> (applied: &Vec<u64>)
        ensures
            applied@.map_values(|v: u64| v as nat) == self@.applied,
    {
        &self.applied
    }

    /// The script that stopped the run, if one did.
    pub fn failure(&self) -> (failure: Option<&MigrationFailure>)
        ensures
            match failure {
                Some(f) => self.stopped_by() == Some(*f),
                None => self.stopped_by() is None,
            },
    {
        self.failure.as_ref()
    }
}

/// An append-only list of migrations with contiguous versions, and the
/// decisions of a run over it. No operation edits or removes a migration.
#[derive(Debug)]
pub struct MigrationRunner {
    migrations: Vec<Migration>,
}

impl View for MigrationRunner {
    type V = Seq<Migration>;

    closed spec fn view(&self) -> Seq<Migration> {
        self.migrations@
    }
}

impl MigrationRunner {
    #[verifier::type_invariant]
    spec fn well_formed(&self) -> bool {
        contiguous(self.migrations@)
    }

    /// A runner over `migrations`, which must carry the versions
    /// 1, 2, 3, ... in this order. The first migration out of sequence is
    /// reported otherwise.
    pub fn new(migrations: Vec<Migration>) -> (result: Result<Self, PlanError>)
        ensures
            result is Ok <==> contiguous(migrations@),
            match result {
                Ok(runner) => runner@ == migrations@,
                Err(PlanError::OutOfSequence { index, found }) => {
                    &&& first_break(migrations@, index as int)
                    &&& found == migrations@[index as int].version
                },
            },
    {
        let mut index: usize = 0;
        while index < migrations.len()
            invariant
                index <= migrations.len(),
                contiguous(migrations@.take(index as int)),
            decreases migrations.len() - index,
        {
            let found = migrations[index].version;
            if found != index as u64 + 1 {
                return Err(PlanError::OutOfSequence { index, found });
            }
            assert(contiguous(migrations@.take(index + 1))) by {
                assert forall|i: int| 0 <= i < index + 1 implies (#[trigger] migrations@.take(
                    index + 1,
                )[i]).version == i + 1 by {
                    if i < index {
                        assert(migrations@.take(index as int)[i] == migrations@[i]);
                    }
                }
            }
            index += 1;
        }
        assert(migrations@.take(index as int) == migrations@);
        Ok(MigrationRunner { migrations })
    }

    /// The migrations, oldest first.
    pub fn migrations(&self) -> (migrations: &Vec<Migration>)
        ensures
            migrations@ == self@,
            contiguous(self@),
    {
        proof {
            use_type_invariant(self);
        }
        &self.migrations
    }

    /// The newest version known, 0 for an empty list.
    pub fn latest(&self) -> (latest: u64)
        ensures
            latest == self@.len(),
    {
        self.migrations.len() as u64
    }

    /// The list with one more schema change, filed under the next version
    /// number. Every migration already in the list stays as it is.
    pub fn append(self, description: String, script: String) -> (extended: Self)
        requires
            self@.len() < usize::MAX,
        ensures
            extended@ == self@.push(
                Migration { version: (self@.len() + 1) as u64, description, script },
            ),
    {
        proof {
            use_type_invariant(&self);
        }
        let version = self.migrations.len() as u64 + 1;
        let mut migrations = self.migrations;
        migrations.push(Migration { version, description, script });
        MigrationRunner { migrations }
    }

    /// The migration to apply next in `run`, or `None` where the run is
    /// over: the store is up to date, or a script has failed.
    pub fn next(&self, run: &Run) -> (step: Option<&Migration>)
        ensures
            match next_version(self@.len(), run@) {
                Some(version) => step == Some(&self@[version - 1]) && self@[version - 1].version
                    == version,
                None => step is None,
            },
    {
        proof {
            use_type_invariant(self);
        }
        if run.failure.is_none() && run.version < self.migrations.len() as u64 {
            Some(&self.migrations[run.version as usize])
        } else {
            None
        }
    }

    /// Takes the host's report on the migration that `next` named. The
    /// store's version moves on only with a success; a failure is kept with
    /// its reason and ends the run.
    pub fn record(&self, run: &mut Run, outcome: Result<(), String>)
        ensures
            final(run)@ == advance(self@.len(), old(run)@, outcome_view(outcome)),
            final(run).stopped_by() == match (next_version(self@.len(), old(run)@), outcome) {
                (Some(version), Err(reason)) => Some(
                    MigrationFailure { version: version as u64, reason },
                ),
                _ => old(run).stopped_by(),
            },
    {
        if run.failure.is_none() && run.version < self.migrations.len() as u64 {
            let version = run.version + 1;
            match outcome {
                Ok(_) => {
                    run.version = version;
                    run.applied.push(version);
                    assert(run@.applied =~= old(run)@.applied.push(version as nat));
                },
                Err(reason) => {
                    run.failure = Some(MigrationFailure { version, reason });
                },
            }
        }
    }

    /// Runs to the end: applies, through `apply`, every migration newer
    /// than `recorded`, oldest first, and stops at the first script that
    /// fails. The result is the run in which exactly the reported script,
    /// if any, failed; every version it counts as applied was accepted by
    /// `apply`, and the failure it reports is the one `apply` returned, for
    /// the version after the one the store is left at.
    pub fn run<F>(&self, recorded: u64, apply: F) -> (end: Run) where
        F: Fn(&Migration) -> Result<(), String>,

        requires
            forall|i: int| 0 <= i < self@.len() ==> apply.requires((&#[trigger] self@[i],)),
        ensures
            end@ == run_from(self@.len(), begin(recorded as nat), witnessed(end@)),
            forall|i: int|
                recorded <= i < end@.version && i < self@.len() ==> apply.ensures(
                    (&#[trigger] self@[i],),
                    Ok(()),
                ),
            match end.stopped_by() {
                Some(failure) => {
                    &&& end@.failure == Some((failure.version as nat, failure.reason@))
                    &&& failure.version == end@.version + 1
                    &&& failure.version <= self@.len()
                    &&& apply.ensures((&self@[failure.version - 1],), Err(failure.reason))
                },
                None => end@.failure is None,
            },
    {
        let ghost latest = self@.len();
        let ghost start = recorded as nat;
        let mut run = Run::begin(recorded);
        loop
            invariant_except_break
                run@.failure is None,
                run.stopped_by() is None,
            invariant
                latest == self@.len(),
                start == recorded,
                forall|i: int| 0 <= i < self@.len() ==> apply.requires((&#[trigger] self@[i],)),
                start <= run@.version,
                run@.version <= latest || run@.version == start,
                run@.applied == ascending(start, run@.version),
                forall|i: int|
                    recorded <= i < run@.version && i < self@.len() ==> apply.ensures(
                        (&#[trigger] self@[i],),
                        Ok(()),
                    ),
            ensures
                next_version(latest, run@) is None,
                match run.stopped_by() {
                    Some(failure) => {
                        &&& run@.failure == Some((failure.version as nat, failure.reason@))
                        &&& failure.version == run@.version + 1
                        &&& failure.version <= latest
                        &&& apply.ensures((&self@[failure.version - 1],), Err(failure.reason))
                    },
                    None => run@.failure is None,
                },
            decreases latest - run@.version,
        {
            match self.next(&run) {
                None => {
                    break ;
                },
                Some(migration) => {
                    let outcome = apply(migration);
                    let failed = match &outcome {
                        Ok(done) => {
                            assert(outcome == Ok::<(), String>(*done));
                            false
                        },
                        Err(_) => true,
                    };
                    self.record(&mut run, outcome);
                    if failed {
                        break ;
                    }
                    assert(run@.applied =~= ascending(start, run@.version));
                },
            }
        }
        proof {
            lemma_witnessed_run(latest, start, run@);
        }
        run
    }
}

/// Scripts that succeed carry a run forward one version at a time.
proof fn lemma_run_through(
    latest: nat,
    from: Progress,
    to: nat,
    outcomes: spec_fn(nat) -> Result<(), Seq<char>>,
)
    requires
        from.failure is None,
        from.version <= to <= latest,
        forall|v: nat| from.version < v <= to ==> (#[trigger] outcomes(v)) is Ok,
    ensures
        run_from(latest, from, outcomes) == run_from(
            latest,
            Progress {
                version: to,
                applied: from.applied + ascending(from.version, to),
                failure: None,
            },
            outcomes,
        ),
    decreases to - from.version,
{
    if from.version == to {
        assert(from.applied + ascending(from.version, to) =~= from.applied);
    } else {
        let version = from.version + 1;
        assert(outcomes(version) is Ok);
        let step = advance(latest, from, outcomes(version));
        lemma_run_through(latest, step, to, outcomes);
        assert(step.applied + ascending(step.version, to) =~= from.applied + ascending(
            from.version,
            to,
        ));
    }
}

/// A finished run of the shape that `MigrationRunner::run` produces is the
/// model run under the outcomes it bears witness to.
proof fn lemma_witnessed_run(latest: nat, recorded: nat, end: Progress)
    requires
        next_version(latest, end) is None,
        recorded <= end.version,
        end.version <= latest || end.version == recorded,
        end.applied == ascending(recorded, end.version),
        end.failure matches Some((failed, _)) ==> failed == end.version + 1 && failed <= latest,
    ensures
        end == run_from(latest, begin(recorded), witnessed(end)),
{
    let outcomes = witnessed(end);
    if end.version <= latest {
        lemma_run_through(latest, begin(recorded), end.version, outcomes);
        let reached = Progress { version: end.version, applied: end.applied, failure: None };
        assert(begin(recorded).applied + ascending(recorded, end.version) =~= end.applied);
        if end.failure is Some {
            assert(advance(latest, reached, outcomes((end.version + 1) as nat)) == end);
            assert(run_from(latest, reached, outcomes) == run_from(latest, end, outcomes));
        } else {
            assert(reached == end);
        }
    } else {
        assert(ascending(recorded, recorded) =~= Seq::<nat>::empty());
    }
}

/// A run carried to its end has nothing pending, has applied the versions
/// after the one it started from in ascending order, each once, and records
/// the last of them. If it failed, it failed on the version after that.
pub proof fn law_applied_once_in_order(
    latest: nat,
    recorded: nat,
    outcomes: spec_fn(nat) -> Result<(), Seq<char>>,
)
    ensures
        ({
            let end = run_from(latest, begin(recorded), outcomes);
            &&& next_version(latest, end) is None
            &&& recorded <= end.version
            &&& end.version <= latest || end.version == recorded
            &&& end.applied == ascending(recorded, end.version)
            &&& end.failure matches Some((failed, reason)) ==> failed == end.version + 1 && failed
                <= latest && outcomes(failed) == Err::<(), Seq<char>>(reason)
        }),
{
    assert(begin(recorded).applied =~= ascending(recorded, recorded));
    lemma_run_shape(latest, recorded, begin(recorded), outcomes);
}

proof fn lemma_run_shape(
    latest: nat,
    recorded: nat,
    from: Progress,
    outcomes: spec_fn(nat) -> Result<(), Seq<char>>,
)
    requires
        from.failure is None,
        recorded <= from.version,
        from.version <= latest || from.version == recorded,
        from.applied == ascending(recorded, from.version),
    ensures
        ({
            let end = run_from(latest, from, outcomes);
            &&& next_version(latest, end) is None
            &&& from.version <= end.version
            &&& end.version <= latest || end.version == recorded
            &&& end.applied == ascending(recorded, end.version)
            &&& end.failure matches Some((failed, reason)) ==> failed == end.version + 1 && failed
                <= latest && outcomes(failed) == Err::<(), Seq<char>>(reason)
        }),
    decreases latest - from.version,
{
    if from.version < latest {
        let version = from.version + 1;
        let step = advance(latest, from, outcomes(version));
        match outcomes(version) {
            Ok(_) => {
                assert(step.applied =~= ascending(recorded, step.version));
                lemma_run_shape(latest, recorded, step, outcomes);
            },
            Err(_) => {
                assert(run_from(latest, step, outcomes) == step);
            },
        }
    }
}

/// Running twice: when a run ended without a failure, a second run from the
/// version it recorded applies nothing and leaves that version as it is,
/// however the scripts would fare.
pub proof fn law_rerun_applies_nothing(
    latest: nat,
    recorded: nat,
    outcomes: spec_fn(nat) -> Result<(), Seq<char>>,
    again: spec_fn(nat) -> Result<(), Seq<char>>,
)
    requires
        run_from(latest, begin(recorded), outcomes).failure is None,
    ensures
        ({
            let first = run_from(latest, begin(recorded), outcomes);
            let second = run_from(latest, begin(first.version), again);
            &&& second.applied == Seq::<nat>::empty()
            &&& second.version == first.version
            &&& second.failure is None
        }),
{
    law_applied_once_in_order(latest, recorded, outcomes);
}

/// Ordering: when every pending script succeeds, the run applies exactly
/// the versions after the recorded one, oldest first, and the store ends at
/// the latest version.
pub proof fn law_pending_applied_in_order(
    latest: nat,
    recorded: nat,
    outcomes: spec_fn(nat) -> Result<(), Seq<char>>,
)
    requires
        recorded <= latest,
        forall|v: nat| recorded < v <= latest ==> (#[trigger] outcomes(v)) is Ok,
    ensures
        run_from(latest, begin(recorded), outcomes) == (Progress {
            version: latest,
            applied: ascending(recorded, latest),
            failure: None,
        }),
{
    lemma_run_through(latest, begin(recorded), latest, outcomes);
    assert(begin(recorded).applied + ascending(recorded, latest) =~= ascending(recorded, latest));
}

/// No partial marking: when the script of version `failing` is the first
/// to fail, the store stays at the version before it, only the versions
/// before it were applied, and nothing after it is attempted.
pub proof fn law_failed_script_keeps_predecessor(
    latest: nat,
    recorded: nat,
    outcomes: spec_fn(nat) -> Result<(), Seq<char>>,
    failing: nat,
)
    requires
        recorded < failing <= latest,
        forall|v: nat| recorded < v < failing ==> (#[trigger] outcomes(v)) is Ok,
        outcomes(failing) is Err,
    ensures
        run_from(latest, begin(recorded), outcomes) == (Progress {
            version: (failing - 1) as nat,
            applied: ascending(recorded, (failing - 1) as nat),
            failure: Some((failing, outcomes(failing)->Err_0)),
        }),
{
    let before = (failing - 1) as nat;
    lemma_run_through(latest, begin(recorded), before, outcomes);
    let reached = Progress {
        version: before,
        applied: ascending(recorded, before),
        failure: None,
    };
    assert(begin(recorded).applied + ascending(recorded, before) =~= ascending(recorded, before));
    let stopped = advance(latest, reached, outcomes(failing));
    assert(run_from(latest, reached, outcomes) == run_from(latest, stopped, outcomes));
    assert(run_from(latest, stopped, outcomes) == stopped);
}

/// A run that ends without a failure, on a store that was not ahead of
/// the list, leaves the store at the latest version, and a second run
/// leaves it there and applies nothing.
pub proof fn law_rerun_keeps_latest(
    latest: nat,
    recorded: nat,
    outcomes: spec_fn(nat) -> Result<(), Seq<char>>,
    again: spec_fn(nat) -> Result<(), Seq<char>>,
)
    requires
        recorded <= latest,
        run_from(latest, begin(recorded), outcomes).failure is None,
    ensures
        run_from(latest, begin(recorded), outcomes).version == latest,
        run_from(latest, begin(latest), again) == begin(latest),
{
    law_applied_once_in_order(latest, recorded, outcomes);
}

/// The store after one run following another: each of `runs` says how the
/// scripts fare in one run, and each run starts from the version that the
/// run before it left. `applied` collects what all of them applied, in
/// order; `failure` is that of the last run.
pub open spec fn runs_from(
    latest: nat,
    recorded: nat,
    runs: Seq<spec_fn(nat) -> Result<(), Seq<char>>>,
) -> Progress
    decreases runs.len(),
{
    if runs.len() == 0 {
        begin(recorded)
    } else {
        let before = runs_from(latest, recorded, runs.drop_last());
        let last = run_from(latest, begin(before.version), runs.last());
        Progress {
            version: last.version,
            applied: before.applied + last.applied,
            failure: last.failure,
        }
    }
}

/// Once the store is up to date, every further run is a no-op, however
/// many follow and however the scripts would fare: nothing is applied, the
/// version stays, and no run fails.
pub proof fn law_further_runs_are_no_ops(
    latest: nat,
    recorded: nat,
    runs: Seq<spec_fn(nat) -> Result<(), Seq<char>>>,
)
    requires
        latest <= recorded,
    ensures
        runs_from(latest, recorded, runs) == begin(recorded),
    decreases runs.len(),
{
    if runs.len() > 0 {
        law_further_runs_are_no_ops(latest, recorded, runs.drop_last());
        assert(begin(recorded).applied + begin(recorded).applied =~= begin(recorded).applied);
    }
}

/// A fresh store brought up to date by a run in which every script
/// succeeds has had every listed version applied once, oldest first, and
/// any number of further runs leaves exactly that: the same log, the same
/// version.
pub proof fn law_fresh_store_then_further_runs(
    latest: nat,
    outcomes: spec_fn(nat) -> Result<(), Seq<char>>,
    runs: Seq<spec_fn(nat) -> Result<(), Seq<char>>>,
)
    requires
        forall|v: nat| 0 < v <= latest ==> (#[trigger] outcomes(v)) is Ok,
    ensures
        ({
            let first = run_from(latest, begin(0), outcomes);
            let after = runs_from(latest, first.version, runs);
            &&& first.version == latest
            &&& first.applied == ascending(0, latest)
            &&& first.failure is None
            &&& after.version == latest
            &&& first.applied + after.applied == ascending(0, latest)
            &&& after.failure is None
        }),
{
    law_pending_applied_in_order(latest, 0, outcomes);
    law_further_runs_are_no_ops(latest, latest, runs);
    assert(ascending(0, latest) + begin(latest).applied =~= ascending(0, latest));
}

} // verus!
