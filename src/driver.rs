use vstd::prelude::*;
use crate::error::{DeployStep, ErrorKind, PipelineError};
use crate::plan::{Stage, Step, StepView};

verus! {

/// How the host reports a step it performed.
pub enum Outcome {
    Success,
    /// The directory or file was already there.
    AlreadyExists,
    /// The file to remove was not there.
    NotFound,
    /// Any other failure, with the message of the tool or the system.
    Failed { message: String },
}

pub enum OutcomeView {
    Success,
    AlreadyExists,
    NotFound,
    Failed(Seq<char>),
}

impl View for Outcome {
    type V = OutcomeView;

    open spec fn view(&self) -> OutcomeView {
        match self {
            Outcome::Success => OutcomeView::Success,
            Outcome::AlreadyExists => OutcomeView::AlreadyExists,
            Outcome::NotFound => OutcomeView::NotFound,
            Outcome::Failed { message } => OutcomeView::Failed(message@),
        }
    }
}

/// The error a failure in each stage is reported as.
pub open spec fn stage_error(s: Stage) -> ErrorKind {
    match s {
        Stage::Assemble => ErrorKind::AssemblyFailed,
        Stage::Materialize => ErrorKind::WriteError,
        Stage::Compile => ErrorKind::CompileFailed,
        Stage::ClearManifest => ErrorKind::WriteError,
        Stage::Manifest { index } => ErrorKind::ManifestWriteFailed { index },
        Stage::Sign => ErrorKind::SigningFailed,
        Stage::Deploy { step } => ErrorKind::DeployFailed { step },
    }
}

/// Whether an outcome lets the run go on: success; an existing directory;
/// a descriptor that was not there to remove; anything from booting the simulator.
pub open spec fn tolerated(s: Stage, o: OutcomeView) -> bool {
    match o {
        OutcomeView::Success => true,
        OutcomeView::AlreadyExists => s == Stage::Assemble || s == (Stage::Deploy { step: DeployStep::Boot }),
        OutcomeView::NotFound => s == Stage::ClearManifest || s == (Stage::Deploy { step: DeployStep::Boot }),
        OutcomeView::Failed(_) => s == (Stage::Deploy { step: DeployStep::Boot }),
    }
}

/// `None` where the run goes on, else the error it ends with: the stage's
/// error, with the failure's message, or the step's target where there is none.
pub open spec fn judge_spec(st: StepView, o: OutcomeView) -> Option<(ErrorKind, Seq<char>)> {
    if tolerated(st.stage, o) {
        None
    } else {
        Some((stage_error(st.stage), match o {
            OutcomeView::Failed(m) => m,
            _ => st.target,
        }))
    }
}

pub open spec fn error_view(e: Option<PipelineError>) -> Option<(ErrorKind, Seq<char>)> {
    match e {
        Some(e) => Some(e@),
        None => None,
    }
}

fn stage_error_of(s: Stage) -> (r: ErrorKind)
    ensures
        r == stage_error(s),
{
    match s {
        Stage::Assemble => ErrorKind::AssemblyFailed,
        Stage::Materialize => ErrorKind::WriteError,
        Stage::Compile => ErrorKind::CompileFailed,
        Stage::ClearManifest => ErrorKind::WriteError,
        Stage::Manifest { index } => ErrorKind::ManifestWriteFailed { index },
        Stage::Sign => ErrorKind::SigningFailed,
        Stage::Deploy { step } => ErrorKind::DeployFailed { step },
    }
}

/// Decides what the outcome of a step means for the run.
pub fn judge(step: &Step, o: &Outcome) -> (r: Option<PipelineError>)
    ensures
        error_view(r) == judge_spec(step@, o@),
{
    let s = step.stage;
    let boot = s == Stage::Deploy { step: DeployStep::Boot };
    match o {
        Outcome::Success => None,
        Outcome::AlreadyExists => {
            if s == Stage::Assemble || boot {
                None
            } else {
                Some(PipelineError::new(stage_error_of(s), step.target.clone()))
            }
        },
        Outcome::NotFound => {
            if s == Stage::ClearManifest || boot {
                None
            } else {
                Some(PipelineError::new(stage_error_of(s), step.target.clone()))
            }
        },
        Outcome::Failed { message } => {
            if boot {
                None
            } else {
                Some(PipelineError::new(stage_error_of(s), message.clone()))
            }
        },
    }
}

/// One run in progress: the planned steps, how many have succeeded, and the
/// failure that ended it, if one did.
pub struct Pipeline {
    pub steps: Vec<Step>,
    pub next: usize,
    pub failure: Option<PipelineError>,
}

impl Pipeline {
    pub open spec fn wf(&self) -> bool {
        &&& self.next <= self.steps@.len()
        &&& self.failure.is_some() ==> self.next < self.steps@.len()
    }

    pub open spec fn spec_finished(&self) -> bool {
        self.failure.is_some() || self.next == self.steps@.len()
    }

    /// Every step that builds the bundle has succeeded; only deployment may
    /// have failed or be left.
    pub open spec fn spec_built(&self) -> bool {
        forall|i: int| self.next <= i < self.steps@.len() ==> (self.steps@[i].stage is Deploy)
    }

    pub fn new(steps: Vec<Step>) -> (r: Pipeline)
        ensures
            r.wf(),
            r.steps@ == steps@,
            r.next == 0,
            r.failure.is_none(),
    {
        Pipeline { steps, next: 0, failure: None }
    }

    /// The step to perform now; none once the run has finished.
    pub fn current(&self) -> (r: Option<&Step>)
        requires
            self.wf(),
        ensures
            r.is_some() == !self.spec_finished(),
            r.is_some() ==> r.unwrap() == self.steps@[self.next as int],
    {
        if self.failure.is_none() && self.next < self.steps.len() {
            Some(&self.steps[self.next])
        } else {
            None
        }
    }

    /// Takes the outcome of the current step: the run moves on to the next
    /// step, or ends with the error the outcome means.
    pub fn record(&mut self, o: Outcome)
        requires
            old(self).wf(),
            !old(self).spec_finished(),
        ensures
            final(self).wf(),
            final(self).steps@ == old(self).steps@,
            match judge_spec(old(self).steps@[old(self).next as int]@, o@) {
                None => final(self).next == old(self).next + 1 && final(self).failure.is_none(),
                Some(e) => final(self).next == old(self).next && error_view(final(self).failure) == Some(e),
            },
    {
        let i = self.next;
        let n = self.steps.len();
        proof {
            assert(i < n);
        }
        let verdict = judge(&self.steps[i], &o);
        match verdict {
            None => {
                self.next = i + 1;
            },
            Some(e) => {
                self.failure = Some(e);
            },
        }
    }

    pub fn finished(&self) -> (r: bool)
        requires
            self.wf(),
        ensures
            r == self.spec_finished(),
    {
        self.failure.is_some() || self.next == self.steps.len()
    }

    /// Whether the bundle was produced, whatever became of its deployment.
    pub fn build_succeeded(&self) -> (r: bool)
        requires
            self.wf(),
        ensures
            r == self.spec_built(),
    {
        let mut i: usize = self.next;
        while i < self.steps.len()
            invariant
                self.wf(),
                self.next <= i <= self.steps@.len(),
                forall|j: int| self.next <= j < i ==> (self.steps@[j].stage is Deploy),
            decreases self.steps@.len() - i,
        {
            match self.steps[i].stage {
                Stage::Deploy { .. } => {},
                _ => {
                    return false;
                },
            }
            i = i + 1;
        }
        true
    }

    /// The process exit status: zero only when every step succeeded.
    pub fn exit_code(&self) -> (r: i32)
        requires
            self.wf(),
        ensures
            r == (if self.failure.is_none() && self.next == self.steps@.len() { 0i32 } else { 1i32 }),
    {
        if self.failure.is_none() && self.next == self.steps.len() {
            0
        } else {
            1
        }
    }
}

} // verus!
