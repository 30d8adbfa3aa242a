use vstd::prelude::*;
use crate::utils::system::{
    log_sample_cmd, log_sample_query, private_logs_visible, settings_present, settings_query,
    settings_query_cmd, status_active, status_query, status_query_cmd, verify_logging_config,
    verify_private_logs, verify_subsystem_config, CommandModel, CommandSpec,
};

verus! {

/// Which output the verification waits for next.
#[derive(Clone, Copy, PartialEq, Eq, Structural, Debug)]
pub enum CheckStage {
    /// The status report of stage one.
    Status,
    /// The preference dump of stage two.
    Settings,
    /// The status report that completes stage two.
    FreshStatus,
    /// The log sample of stage three.
    Sample,
    /// A verdict has been given.
    Finished,
}

/// What the verification asks for after an output.
pub enum Verdict {
    /// Run this command and hand over its output.
    Run(CommandSpec),
    /// The verification is over, with this result.
    Done(bool),
}

/// A [`Verdict`] over plain values.
pub enum VerdictModel {
    Run(CommandModel),
    Done(bool),
}

impl View for Verdict {
    type V = VerdictModel;

    open spec fn view(&self) -> VerdictModel {
        match self {
            Verdict::Run(c) => VerdictModel::Run(c@),
            Verdict::Done(b) => VerdictModel::Done(*b),
        }
    }
}

/// The three-stage verification of the logging configuration, driven one
/// command output at a time. A failing stage ends it at once.
pub struct ConfigCheck {
    pub stage: CheckStage,
    /// The preference dump, kept until stage two can be judged.
    pub dump: Vec<u8>,
}

/// Where the verification goes on `out`, the output of the command it asked
/// for while at `stage`; `dump` is the preference dump seen so far.
pub open spec fn check_next(stage: CheckStage, dump: Seq<u8>, out: Seq<u8>) -> (
    CheckStage,
    Seq<u8>,
    VerdictModel,
) {
    match stage {
        CheckStage::Status => if status_active(out) {
            (CheckStage::Settings, dump, VerdictModel::Run(settings_query_cmd()))
        } else {
            (CheckStage::Finished, dump, VerdictModel::Done(false))
        },
        CheckStage::Settings => (
            CheckStage::FreshStatus,
            out,
            VerdictModel::Run(status_query_cmd()),
        ),
        CheckStage::FreshStatus => if settings_present(dump) && status_active(out) {
            (CheckStage::Sample, dump, VerdictModel::Run(log_sample_cmd()))
        } else {
            (CheckStage::Finished, dump, VerdictModel::Done(false))
        },
        CheckStage::Sample => (
            CheckStage::Finished,
            dump,
            VerdictModel::Done(private_logs_visible(out)),
        ),
        CheckStage::Finished => (CheckStage::Finished, dump, VerdictModel::Done(false)),
    }
}

/// The verdict that feeding `outs` in order to a verification at `stage`
/// reaches, if it reaches one before they run out.
pub open spec fn run_check(stage: CheckStage, dump: Seq<u8>, outs: Seq<Seq<u8>>) -> Option<bool>
    decreases outs.len(),
{
    if outs.len() == 0 || stage == CheckStage::Finished {
        None
    } else {
        let (s, d, v) = check_next(stage, dump, outs[0]);
        match v {
            VerdictModel::Done(b) => Some(b),
            VerdictModel::Run(_) => run_check(s, d, outs.drop_first()),
        }
    }
}

impl ConfigCheck {
    /// A verification that has not started, and the command of its first stage.
    pub fn start() -> (r: (ConfigCheck, CommandSpec))
        ensures
            r.0.stage == CheckStage::Status,
            r.0.dump@ == Seq::<u8>::empty(),
            r.1@ == status_query_cmd(),
    {
        (ConfigCheck { stage: CheckStage::Status, dump: Vec::new() }, status_query())
    }

    /// Takes the output of the command last asked for and says what comes next.
    pub fn feed(&mut self, out: &[u8]) -> (r: Verdict)
        requires
            old(self).stage != CheckStage::Finished,
        ensures
            (final(self).stage, final(self).dump@, r@) == check_next(
                old(self).stage,
                old(self).dump@,
                out@,
            ),
    {
        match self.stage {
            CheckStage::Status => {
                if verify_logging_config(out) {
                    self.stage = CheckStage::Settings;
                    Verdict::Run(settings_query())
                } else {
                    self.stage = CheckStage::Finished;
                    Verdict::Done(false)
                }
            },
            CheckStage::Settings => {
                let mut dump: Vec<u8> = Vec::new();
                let mut i: usize = 0;
                while i < out.len()
                    invariant
                        i <= out@.len(),
                        dump@ == out@.subrange(0, i as int),
                    decreases out@.len() - i,
                {
                    dump.push(out[i]);
                    i += 1;
                    assert(dump@ =~= out@.subrange(0, i as int));
                }
                assert(out@.subrange(0, out@.len() as int) =~= out@);
                self.dump = dump;
                self.stage = CheckStage::FreshStatus;
                Verdict::Run(status_query())
            },
            CheckStage::FreshStatus => {
                if verify_subsystem_config(self.dump.as_slice(), out) {
                    self.stage = CheckStage::Sample;
                    Verdict::Run(log_sample_query())
                } else {
                    self.stage = CheckStage::Finished;
                    Verdict::Done(false)
                }
            },
            CheckStage::Sample => {
                self.stage = CheckStage::Finished;
                Verdict::Done(verify_private_logs(out))
            },
            CheckStage::Finished => Verdict::Done(false),
        }
    }
}

/// When the status report of stage one lacks an indicator, the verification
/// ends with `false` on that output alone: no further command is asked for.
pub proof fn lemma_first_stage_short_circuits(status: Seq<u8>, rest: Seq<Seq<u8>>)
    requires
        !status_active(status),
    ensures
        check_next(CheckStage::Status, Seq::empty(), status) == (
            CheckStage::Finished,
            Seq::<u8>::empty(),
            VerdictModel::Done(false),
        ),
        run_check(CheckStage::Status, Seq::empty(), seq![status] + rest) == Some(false),
{
    assert((seq![status] + rest)[0] == status);
}

/// Fed the four outputs it asks for, a verification says `true` exactly when
/// every stage holds: both status reports show debug and private-data
/// capture, the dump holds the four settings, and the sample shows no
/// redacted field.
pub proof fn lemma_verdict_is_conjunction(
    status: Seq<u8>,
    dump: Seq<u8>,
    fresh_status: Seq<u8>,
    sample: Seq<u8>,
)
    ensures
        run_check(CheckStage::Status, Seq::empty(), seq![status, dump, fresh_status, sample])
            == Some(
            status_active(status) && settings_present(dump) && status_active(fresh_status)
                && private_logs_visible(sample),
        ),
{
    let outs = seq![status, dump, fresh_status, sample];
    assert(outs.drop_first() =~= seq![dump, fresh_status, sample]);
    assert(outs.drop_first().drop_first() =~= seq![fresh_status, sample]);
    assert(outs.drop_first().drop_first().drop_first() =~= seq![sample]);
    reveal_with_fuel(run_check, 5);
}

} // verus!
