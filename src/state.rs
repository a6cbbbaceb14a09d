use vstd::prelude::*;

use crate::error::{error_is, ErrorKind, RunError};
use crate::inputs::Inputs;
use crate::platform::{config_dir, join_path, new_run_id, now_rfc3339, path_joined};

verus! {

/// The name under which the application keeps its runs.
pub const APP_NAME: &'static str = "homebrew-tap-setup";

/// Version of the snapshot layout written by this library.
pub const SCHEMA_VERSION: u32 = 1;

/// Where one step of a run stands.
#[derive(Clone, Copy, Debug, PartialEq, Eq, Structural)]
pub enum StepStatus {
    Pending,
    Running,
    Complete,
    Failed,
    DryRun,
}

/// The execution record of one step, keyed by the step's id.
#[derive(Clone, Debug)]
pub struct StepRecord {
    pub id: String,
    pub status: StepStatus,
    pub started_at: Option<String>,
    pub finished_at: Option<String>,
    pub error: Option<String>,
    pub skipped_apply: bool,
}

/// The durable record of one run.
#[derive(Clone, Debug)]
pub struct State {
    pub schema_version: u32,
    pub run_id: String,
    pub started_at: String,
    pub steps: Vec<StepRecord>,
    pub dry_run: bool,
    pub inputs: Option<Inputs>,
    pub tap_path: Option<String>,
    pub formula_name: Option<String>,
    pub summary_printed: bool,
}

/// The location under which the snapshots of all runs are kept.
#[derive(Clone, Debug)]
pub struct StateStore {
    base_dir: String,
}

/// One run as the runner drives it: its id, the mode of this invocation,
/// where its snapshot goes, its state and its domain configuration.
#[derive(Clone, Debug)]
pub struct RunContext {
    pub run_id: String,
    pub dry_run: bool,
    pub state_store: StateStore,
    pub state: State,
    pub inputs: Inputs,
}

/// `o` holds a string whose characters are `s`.
pub open spec fn holds_text(o: Option<String>, s: Seq<char>) -> bool {
    o matches Some(x) && x@ == s
}

/// A record that has just been created for step `id`.
pub open spec fn is_fresh_record(r: StepRecord, id: Seq<char>) -> bool {
    &&& r.id@ == id
    &&& r.status == StepStatus::Pending
    &&& r.started_at is None
    &&& r.finished_at is None
    &&& r.error is None
    &&& !r.skipped_apply
}

/// Some record of `steps` carries the id `id`.
pub open spec fn has_record(steps: Seq<StepRecord>, id: Seq<char>) -> bool {
    exists|j: int| 0 <= j < steps.len() && (#[trigger] steps[j]).id@ == id
}

/// `i` is the position of the first record of `steps` that carries `id`.
pub open spec fn first_record(steps: Seq<StepRecord>, id: Seq<char>, i: int) -> bool {
    &&& 0 <= i < steps.len()
    &&& steps[i].id@ == id
    &&& forall|j: int| 0 <= j < i ==> (#[trigger] steps[j]).id@ != id
}

/// `a` and `b` agree on everything but their step records.
pub open spec fn same_but_steps(a: State, b: State) -> bool {
    &&& a.schema_version == b.schema_version
    &&& a.run_id == b.run_id
    &&& a.started_at == b.started_at
    &&& a.dry_run == b.dry_run
    &&& a.inputs == b.inputs
    &&& a.tap_path == b.tap_path
    &&& a.formula_name == b.formula_name
    &&& a.summary_printed == b.summary_printed
}

/// What looking up or creating the record of `id` does: `new` is `old`
/// where a record of `id` exists, and `old` with a fresh record appended
/// otherwise; `i` is the position of the record of `id` in `new`.
pub open spec fn record_ensured(old: Seq<StepRecord>, new: Seq<StepRecord>, id: Seq<char>, i: int) -> bool {
    if has_record(old, id) {
        new == old && first_record(old, id, i)
    } else {
        &&& new.len() == old.len() + 1
        &&& new.subrange(0, old.len() as int) == old
        &&& i == old.len()
        &&& is_fresh_record(new[i], id)
    }
}

impl StepRecord {
    /// A `Pending` record for step `id`, with no times and no error.
    pub fn new(id: &str) -> (r: StepRecord)
        ensures
            is_fresh_record(r, id@),
    {
        StepRecord {
            id: String::from_str(id),
            status: StepStatus::Pending,
            started_at: None,
            finished_at: None,
            error: None,
            skipped_apply: false,
        }
    }
}

impl State {
    /// This state with its dry-run flag set to `d`.
    pub open spec fn with_dry_run(self, d: bool) -> State {
        State { dry_run: d, ..self }
    }

    /// The initial state of run `run_id`, started at `started_at`.
    pub fn new(run_id: String, started_at: String) -> (r: State)
        ensures
            r.schema_version == SCHEMA_VERSION,
            r.run_id == run_id,
            r.started_at == started_at,
            r.steps@.len() == 0,
            !r.dry_run,
            r.inputs is None,
            r.tap_path is None,
            r.formula_name is None,
            !r.summary_printed,
    {
        State {
            schema_version: SCHEMA_VERSION,
            run_id,
            started_at,
            steps: Vec::new(),
            dry_run: false,
            inputs: None,
            tap_path: None,
            formula_name: None,
            summary_printed: false,
        }
    }

    /// The position of the record of step `id`, appending a fresh one when
    /// the step has none yet.
    pub fn ensure_step(&mut self, id: &str) -> (r: usize)
        requires
            old(self).steps@.len() < usize::MAX,
        ensures
            same_but_steps(*old(self), *final(self)),
            record_ensured(old(self).steps@, final(self).steps@, id@, r as int),
    {
        let key = String::from_str(id);
        let n = self.steps.len();
        let mut i: usize = 0;
        while i < n
            invariant
                *self == *old(self),
                key@ == id@,
                n == self.steps@.len(),
                i <= n,
                forall|j: int| 0 <= j < i ==> (#[trigger] self.steps@[j]).id@ != id@,
            decreases n - i,
        {
            if self.steps[i].id == key {
                return i;
            }
            i = i + 1;
        }
        self.steps.push(StepRecord::new(id));
        assert(self.steps@.subrange(0, n as int) =~= old(self).steps@);
        n
    }
}

/// The location of the snapshot of run `id` under `base`.
pub open spec fn snapshot_location(base: Seq<char>, id: Seq<char>) -> Seq<char> {
    path_joined(path_joined(path_joined(base, "runs"@), id), "state.json"@)
}

impl StateStore {
    /// The directory under which this store keeps its runs.
    pub closed spec fn base(&self) -> Seq<char> {
        self.base_dir@
    }

    /// The store kept in the configuration directory of application
    /// `app_name`; fails where the platform gives no such directory.
    pub fn new(app_name: &str) -> (r: Result<StateStore, RunError>)
        ensures
            r matches Err(e) ==> error_is(e, ErrorKind::Storage, Seq::empty(),
                "Could not resolve config directory"@),
    {
        match config_dir(app_name) {
            Some(base_dir) => Ok(StateStore { base_dir }),
            None => {
                proof {
                    reveal_strlit("");
                    assert(""@ =~= Seq::<char>::empty());
                }
                Err(RunError::new(ErrorKind::Storage, "", "Could not resolve config directory"))
            },
        }
    }

    /// The store kept under `base_dir`.
    pub fn at(base_dir: String) -> (r: StateStore)
        ensures
            r.base() == base_dir@,
    {
        StateStore { base_dir }
    }

    /// The directory of run `run_id`.
    pub fn run_dir(&self, run_id: &str) -> (r: String)
        ensures
            r@ == path_joined(path_joined(self.base(), "runs"@), run_id@),
    {
        let runs = join_path(self.base_dir.as_str(), "runs");
        join_path(runs.as_str(), run_id)
    }

    fn state_path_internal(&self, run_id: &str) -> (r: String)
        ensures
            r@ == snapshot_location(self.base(), run_id@),
    {
        let dir = self.run_dir(run_id);
        join_path(dir.as_str(), "state.json")
    }

    /// Where the snapshot of run `run_id` is kept.
    pub fn state_path(&self, run_id: &str) -> (r: String)
        ensures
            r@ == snapshot_location(self.base(), run_id@),
    {
        self.state_path_internal(run_id)
    }

    /// The directory under which this store keeps its runs.
    pub fn base_dir(&self) -> (r: &String)
        ensures
            r@ == self.base(),
    {
        &self.base_dir
    }
}

impl RunContext {
    /// A fresh run: a new random id, an initial state that embeds `inputs`
    /// and records `dry_run`, kept in `state_store`.
    pub fn new(dry_run: bool, inputs: Inputs, state_store: StateStore) -> (r: RunContext)
        ensures
            r.run_id@.len() == 36,
            r.state.run_id == r.run_id,
            r.dry_run == dry_run,
            r.state_store == state_store,
            r.inputs == inputs,
            r.state.schema_version == SCHEMA_VERSION,
            r.state.steps@.len() == 0,
            r.state.dry_run == dry_run,
            r.state.inputs == Some(inputs),
            r.state.tap_path is None,
            r.state.formula_name is None,
            !r.state.summary_printed,
    {
        let run_id = new_run_id();
        let mut state = State::new(run_id.clone(), now_rfc3339());
        state.dry_run = dry_run;
        state.inputs = Some(inputs.duplicate());
        RunContext { run_id, dry_run, state_store, state, inputs }
    }

    /// Resume run `run_id` from its snapshot `snapshot`, in the mode
    /// `dry_run` of this invocation. Fails where the snapshot holds no
    /// domain configuration; otherwise the state is the snapshot with only
    /// its dry-run flag replaced, and the configuration is the one embedded.
    pub fn load(run_id: String, dry_run: bool, state_store: StateStore, snapshot: State) -> (r: Result<RunContext, RunError>)
        ensures
            snapshot.inputs is None <==> r is Err,
            r matches Err(e) ==> e.kind == ErrorKind::MissingConfig,
            r matches Ok(c) ==> {
                &&& c.run_id == run_id
                &&& c.dry_run == dry_run
                &&& c.state_store == state_store
                &&& c.state == snapshot.with_dry_run(dry_run)
                &&& snapshot.inputs == Some(c.inputs)
            },
    {
        match &snapshot.inputs {
            None => Err(RunError::new(ErrorKind::MissingConfig, run_id.as_str(), "")),
            Some(inputs) => {
                let inputs = inputs.duplicate();
                let mut state = snapshot;
                state.dry_run = dry_run;
                Ok(RunContext { run_id, dry_run, state_store, state, inputs })
            },
        }
    }
}

} // verus!
