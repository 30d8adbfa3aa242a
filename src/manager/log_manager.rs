use vstd::prelude::*;
use crate::config::profile::{build_profile, defaults_for, is_v4_uuid_text, LoggingProfile};
use crate::error::LoggingError;
use crate::manager::config_check::{check_next, CheckStage, ConfigCheck, Verdict, VerdictModel};
use crate::utils::permissions::verify_root;
use crate::utils::system::{
    apply_system_config, logging_parameter_cmds, models, restart_logging_service, restart_steps,
    set_logging_parameters, status_query, status_query_cmd, step_models, system_config_cmds,
    write_profile, write_profile_steps, CommandModel, CommandSpec, Step, StepModel,
};

verus! {

/// How an enable operation that ran to its end left the configuration.
#[derive(Clone, Copy, PartialEq, Eq, Structural, Debug)]
pub enum Outcome {
    /// Verification passed at once.
    Verified,
    /// Verification passed after the one remediation.
    VerifiedAfterRetry,
    /// Verification still failed after the remediation; not an error.
    Unverified,
}

/// Where an enable operation stands.
#[derive(Clone, Copy, PartialEq, Eq, Structural, Debug)]
pub enum Phase {
    /// Writing, applying, restarting and settling.
    Pipeline,
    /// Running the three-stage verification.
    Checking,
    /// Re-applying the system configuration and subsystem parameters.
    Remediating,
    /// Over: a result has been handed out.
    Finished,
}

/// What came of the step last handed out.
pub enum Event {
    /// It was carried out; for a command, this is its standard output.
    Succeeded(Vec<u8>),
    /// It could not be carried out.
    Failed(LoggingError),
}

/// An [`Event`] over plain values.
pub enum EventModel {
    Succeeded(Seq<u8>),
    Failed(LoggingError),
}

impl View for Event {
    type V = EventModel;

    open spec fn view(&self) -> EventModel {
        match self {
            Event::Succeeded(out) => EventModel::Succeeded(out@),
            Event::Failed(e) => EventModel::Failed(*e),
        }
    }
}

/// What an enable operation asks for next.
pub enum Progress {
    /// Carry out this step and report how it went.
    Perform(Step),
    /// The operation is over with this result.
    Complete(Result<Outcome, LoggingError>),
}

/// A [`Progress`] over plain values.
pub enum ProgressModel {
    Perform(StepModel),
    Complete(Result<Outcome, LoggingError>),
}

impl View for Progress {
    type V = ProgressModel;

    open spec fn view(&self) -> ProgressModel {
        match self {
            Progress::Perform(s) => ProgressModel::Perform(s@),
            Progress::Complete(r) => ProgressModel::Complete(*r),
        }
    }
}

/// An enable operation over plain values.
pub struct SessionModel {
    pub phase: Phase,
    /// The steps still to hand out, first one first.
    pub upcoming: Seq<StepModel>,
    /// Whether the remediation has been made.
    pub retried: bool,
    pub stage: CheckStage,
    pub dump: Seq<u8>,
}

impl SessionModel {
    /// While verifying, the check still waits for an output.
    pub open spec fn is_consistent(self) -> bool {
        self.phase == Phase::Checking ==> self.stage != CheckStage::Finished
    }
}

/// Each command as a step that runs it.
pub open spec fn runs(cs: Seq<CommandModel>) -> Seq<StepModel> {
    cs.map_values(|c: CommandModel| StepModel::Run(c))
}

/// The steps of applying a profile stored under `root`: write it, then the
/// system configuration, then the subsystem parameters.
pub open spec fn apply_steps(root: Seq<char>) -> Seq<StepModel> {
    write_profile_steps(root) + runs(system_config_cmds()) + runs(logging_parameter_cmds())
}

/// Everything an enable operation does before it verifies: apply, restart
/// the service, and let it settle for two seconds.
pub open spec fn enable_steps(root: Seq<char>) -> Seq<StepModel> {
    apply_steps(root) + restart_steps() + seq![StepModel::Sleep(2)]
}

/// The one remediation: the system configuration and subsystem parameters
/// applied again.
pub open spec fn remediation_steps() -> Seq<StepModel> {
    runs(system_config_cmds()) + runs(logging_parameter_cmds())
}

/// The steps held in `p`, which keeps them last one first.
pub open spec fn upcoming_of(p: Seq<Step>) -> Seq<StepModel> {
    Seq::new(p.len(), |i: int| p[p.len() - 1 - i]@)
}

/// Where an enable operation goes on `e`, the report on the step it last
/// handed out. Any failure ends it with that error. A failed verification
/// leads to one remediation and a second verification; after that the
/// operation ends without error whatever the verdict.
pub open spec fn session_next(s: SessionModel, e: EventModel) -> (SessionModel, ProgressModel) {
    match e {
        EventModel::Failed(err) => (
            SessionModel { phase: Phase::Finished, ..s },
            ProgressModel::Complete(Err(err)),
        ),
        EventModel::Succeeded(out) => match s.phase {
            Phase::Checking => {
                let (stage, dump, v) = check_next(s.stage, s.dump, out);
                match v {
                    VerdictModel::Run(c) => (
                        SessionModel { stage, dump, ..s },
                        ProgressModel::Perform(StepModel::Run(c)),
                    ),
                    VerdictModel::Done(true) => (
                        SessionModel { phase: Phase::Finished, stage, dump, ..s },
                        ProgressModel::Complete(
                            Ok(
                                if s.retried {
                                    Outcome::VerifiedAfterRetry
                                } else {
                                    Outcome::Verified
                                },
                            ),
                        ),
                    ),
                    VerdictModel::Done(false) => if s.retried {
                        (
                            SessionModel { phase: Phase::Finished, stage, dump, ..s },
                            ProgressModel::Complete(Ok(Outcome::Unverified)),
                        )
                    } else {
                        (
                            SessionModel {
                                phase: Phase::Remediating,
                                upcoming: remediation_steps().drop_first(),
                                retried: true,
                                stage,
                                dump,
                            },
                            ProgressModel::Perform(remediation_steps()[0]),
                        )
                    },
                }
            },
            Phase::Finished => (s, ProgressModel::Complete(Ok(Outcome::Unverified))),
            _ => if s.upcoming.len() > 0 {
                (
                    SessionModel { upcoming: s.upcoming.drop_first(), ..s },
                    ProgressModel::Perform(s.upcoming[0]),
                )
            } else {
                (
                    SessionModel {
                        phase: Phase::Checking,
                        stage: CheckStage::Status,
                        dump: Seq::empty(),
                        ..s
                    },
                    ProgressModel::Perform(StepModel::Run(status_query_cmd())),
                )
            },
        },
    }
}

/// One enable operation in progress: the profile it writes and the steps
/// it has yet to hand out.
pub struct EnableSession {
    /// The document that the profile-writing step stores.
    pub profile: LoggingProfile,
    pub phase: Phase,
    /// Steps still to hand out, last one first.
    pub pending: Vec<Step>,
    pub retried: bool,
    pub check: ConfigCheck,
}

impl View for EnableSession {
    type V = SessionModel;

    open spec fn view(&self) -> SessionModel {
        SessionModel {
            phase: self.phase,
            upcoming: upcoming_of(self.pending@),
            retried: self.retried,
            stage: self.check.stage,
            dump: self.check.dump@,
        }
    }
}

/// Queues `steps` in front of what `pending` already holds.
fn push_steps(pending: &mut Vec<Step>, steps: Vec<Step>)
    ensures
        upcoming_of(final(pending)@) == step_models(steps@) + upcoming_of(old(pending)@),
{
    let ghost target = step_models(steps@) + upcoming_of(pending@);
    let mut steps = steps;
    while steps.len() > 0
        invariant
            target == step_models(steps@) + upcoming_of(pending@),
        decreases steps@.len(),
    {
        let ghost before_steps = steps@;
        let ghost before_pending = pending@;
        let s = steps.pop().unwrap();
        pending.push(s);
        assert(step_models(before_steps) =~= step_models(steps@) + seq![s@]);
        assert(upcoming_of(pending@) =~= seq![s@] + upcoming_of(before_pending));
        assert(step_models(steps@) + upcoming_of(pending@) =~= step_models(before_steps)
            + upcoming_of(before_pending));
    }
    assert(step_models(steps@) =~= Seq::<StepModel>::empty());
    assert(target =~= upcoming_of(pending@));
}

/// Queues a step running each of `cmds` in front of what `pending` already holds.
fn push_runs(pending: &mut Vec<Step>, cmds: Vec<CommandSpec>)
    ensures
        upcoming_of(final(pending)@) == runs(models(cmds@)) + upcoming_of(old(pending)@),
{
    let ghost target = runs(models(cmds@)) + upcoming_of(pending@);
    let mut cmds = cmds;
    while cmds.len() > 0
        invariant
            target == runs(models(cmds@)) + upcoming_of(pending@),
        decreases cmds@.len(),
    {
        let ghost before_cmds = cmds@;
        let ghost before_pending = pending@;
        let c = cmds.pop().unwrap();
        let s = Step::Run(c);
        pending.push(s);
        assert(runs(models(before_cmds)) =~= runs(models(cmds@)) + seq![s@]);
        assert(upcoming_of(pending@) =~= seq![s@] + upcoming_of(before_pending));
        assert(runs(models(cmds@)) + upcoming_of(pending@) =~= runs(models(before_cmds))
            + upcoming_of(before_pending));
    }
    assert(runs(models(cmds@)) =~= Seq::<StepModel>::empty());
    assert(target =~= upcoming_of(pending@));
}

/// Takes the first of the queued steps.
fn next_step(pending: &mut Vec<Step>) -> (r: Step)
    requires
        old(pending)@.len() > 0,
    ensures
        r@ == upcoming_of(old(pending)@)[0],
        upcoming_of(final(pending)@) == upcoming_of(old(pending)@).drop_first(),
{
    let ghost before = pending@;
    let r = pending.pop().unwrap();
    assert(upcoming_of(pending@) =~= upcoming_of(before).drop_first());
    r
}

impl EnableSession {
    /// Takes the report on the step last handed out and says what comes next.
    pub fn advance(&mut self, event: Event) -> (r: Progress)
        requires
            old(self).phase != Phase::Finished,
            old(self)@.is_consistent(),
        ensures
            (final(self)@, r@) == session_next(old(self)@, event@),
            final(self)@.is_consistent(),
            final(self).profile == old(self).profile,
    {
        let out = match event {
            Event::Failed(e) => {
                self.phase = Phase::Finished;
                return Progress::Complete(Err(e));
            },
            Event::Succeeded(out) => out,
        };
        if self.phase == Phase::Checking {
            match self.check.feed(out.as_slice()) {
                Verdict::Run(c) => Progress::Perform(Step::Run(c)),
                Verdict::Done(true) => {
                    self.phase = Phase::Finished;
                    if self.retried {
                        Progress::Complete(Ok(Outcome::VerifiedAfterRetry))
                    } else {
                        Progress::Complete(Ok(Outcome::Verified))
                    }
                },
                Verdict::Done(false) => {
                    if self.retried {
                        self.phase = Phase::Finished;
                        Progress::Complete(Ok(Outcome::Unverified))
                    } else {
                        let mut pending: Vec<Step> = Vec::new();
                        push_runs(&mut pending, set_logging_parameters());
                        push_runs(&mut pending, apply_system_config());
                        assert(upcoming_of(pending@) =~= remediation_steps());
                        let first = next_step(&mut pending);
                        self.pending = pending;
                        self.phase = Phase::Remediating;
                        self.retried = true;
                        Progress::Perform(first)
                    }
                },
            }
        } else if self.pending.len() > 0 {
            Progress::Perform(next_step(&mut self.pending))
        } else {
            let (check, status) = ConfigCheck::start();
            self.check = check;
            self.phase = Phase::Checking;
            Progress::Perform(Step::Run(status))
        }
    }
}

/// Configures and verifies private logging, keeping its profile under a
/// fixed configuration root.
pub struct LogManager {
    profile_path: String,
}

impl LogManager {
    /// The configuration root the profile is written under.
    pub closed spec fn root(&self) -> Seq<char> {
        self.profile_path@
    }

    pub fn new() -> (r: LogManager)
        ensures
            r.root() == "/Library/Preferences/Logging"@,
    {
        LogManager { profile_path: "/Library/Preferences/Logging".to_owned() }
    }

    /// Queues the steps that apply a profile in front of `pending`.
    fn apply_config(&self, pending: &mut Vec<Step>)
        ensures
            upcoming_of(final(pending)@) == apply_steps(self.root()) + upcoming_of(old(pending)@),
    {
        let ghost rest = upcoming_of(pending@);
        push_runs(pending, set_logging_parameters());
        push_runs(pending, apply_system_config());
        push_steps(pending, write_profile(self.profile_path.as_str()));
        assert(upcoming_of(pending@) =~= apply_steps(self.root()) + rest);
    }

    /// Starts enabling private logging for `subsystems` on behalf of the user
    /// with effective id `euid`. Anyone but the superuser is refused before
    /// any step is handed out. Otherwise the profile holds one default entry
    /// per name, and the first step is returned with the session that
    /// hands out the rest.
    pub fn enable_private_logging(&self, euid: u32, subsystems: &Vec<String>) -> (r: Result<
        (EnableSession, Step),
        LoggingError,
    >)
        ensures
            r is Ok <==> euid == 0,
            euid != 0 ==> r matches Err(LoggingError::PermissionError(_)),
            r matches Ok((s, first)) ==> {
                &&& first@ == enable_steps(self.root())[0]
                &&& s@.upcoming == enable_steps(self.root()).drop_first()
                &&& s@.phase == Phase::Pipeline
                &&& s@.is_consistent()
                &&& !s@.retried
                &&& defaults_for(s.profile.payload_content@, subsystems@)
                &&& s.profile.is_profile_of(s.profile.payload_content@, s.profile.payload_uuid@)
                &&& is_v4_uuid_text(s.profile.payload_uuid@)
            },
    {
        match verify_root(euid) {
            Err(e) => {
                return Err(e);
            },
            Ok(()) => {},
        }
        let profile = build_profile(subsystems);
        let mut pending: Vec<Step> = Vec::new();
        pending.push(Step::Sleep(2));
        push_steps(&mut pending, restart_logging_service());
        self.apply_config(&mut pending);
        assert(upcoming_of(pending@) =~= enable_steps(self.root()));
        let first = next_step(&mut pending);
        let (check, _) = ConfigCheck::start();
        Ok((EnableSession { profile, phase: Phase::Pipeline, pending, retried: false, check }, first))
    }

    /// Starts a verification of the current configuration: the check, and
    /// the command of its first stage.
    pub fn verify_config(&self) -> (r: (ConfigCheck, CommandSpec))
        ensures
            r.0.stage == CheckStage::Status,
            r.0.dump@ == Seq::<u8>::empty(),
            r.1@ == status_query_cmd(),
    {
        ConfigCheck::start()
    }
}

/// A step that cannot be carried out ends the operation with its error, in
/// any phase; nothing is handed out after it.
pub proof fn lemma_failure_is_final(s: SessionModel, err: LoggingError)
    requires
        s.phase != Phase::Finished,
    ensures
        session_next(s, EventModel::Failed(err)).0.phase == Phase::Finished,
        session_next(s, EventModel::Failed(err)).1 == ProgressModel::Complete(Err(err)),
{
}

/// A failed verification before the remediation leads to the remediation;
/// one after it ends the operation without error.
pub proof fn lemma_single_remediation(s: SessionModel, out: Seq<u8>)
    requires
        s.phase == Phase::Checking,
        check_next(s.stage, s.dump, out).2 == VerdictModel::Done(false),
    ensures
        !s.retried ==> session_next(s, EventModel::Succeeded(out)).0.phase == Phase::Remediating
            && session_next(s, EventModel::Succeeded(out)).0.retried
            && session_next(s, EventModel::Succeeded(out)).1 == ProgressModel::Perform(
            remediation_steps()[0],
        ),
        s.retried ==> session_next(s, EventModel::Succeeded(out)).1 == ProgressModel::Complete(
            Ok(Outcome::Unverified),
        ),
{
}

} // verus!
