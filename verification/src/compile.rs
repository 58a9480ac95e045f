use vstd::prelude::*;

verus! {

/// What the graphics collaborator reported for one pipeline stage: the
/// handle it allocated on success, or the diagnostic log on failure.
pub enum StageReport {
    Accepted(u32),
    Rejected(String),
}

/// The next call the collaborator owes a compile session.
pub enum CompileAction {
    /// Compile the fixed vertex stage.
    CompileVertex,
    /// Compile the user-supplied fragment stage.
    CompileFragment,
    /// Link the two compiled stage objects into a program.
    Link(u32, u32),
    /// Release the two stage objects; the linked program stays current.
    ReleaseStages(u32, u32),
    /// Nothing further: the session is finished.
    Idle,
}

/// Where a load attempt stands.  Compilation proceeds in strict order:
/// vertex stage, fragment stage, link; the first stage to fail
/// short-circuits the session with that stage's diagnostic log.
pub enum CompilePhase {
    /// Waiting for the vertex stage's report.
    Vertex,
    /// Vertex stage compiled; waiting for the fragment stage's report.
    Fragment(u32),
    /// Both stages compiled; waiting for the link report.
    Linking(u32, u32),
    /// Finished: the linked program's handle, or the first failing stage's
    /// log.
    Done(Result<u32, String>),
}

/// One attempt to build a program from the fixed vertex stage and a
/// fragment source.  The session only decides; the collaborator performs
/// each returned action and reports back.
pub struct CompileSession {
    pub phase: CompilePhase,
}

/// The transition a session makes on one stage report: the new phase and
/// the action the collaborator owes next.
pub open spec fn spec_step(phase: CompilePhase, report: StageReport) -> (CompilePhase, CompileAction) {
    match (phase, report) {
        (CompilePhase::Vertex, StageReport::Accepted(v)) => (
            CompilePhase::Fragment(v),
            CompileAction::CompileFragment,
        ),
        (CompilePhase::Vertex, StageReport::Rejected(log)) => (
            CompilePhase::Done(Err(log)),
            CompileAction::Idle,
        ),
        (CompilePhase::Fragment(v), StageReport::Accepted(f)) => (
            CompilePhase::Linking(v, f),
            CompileAction::Link(v, f),
        ),
        (CompilePhase::Fragment(_), StageReport::Rejected(log)) => (
            CompilePhase::Done(Err(log)),
            CompileAction::Idle,
        ),
        (CompilePhase::Linking(v, f), StageReport::Accepted(p)) => (
            CompilePhase::Done(Ok(p)),
            CompileAction::ReleaseStages(v, f),
        ),
        (CompilePhase::Linking(_, _), StageReport::Rejected(log)) => (
            CompilePhase::Done(Err(log)),
            CompileAction::Idle,
        ),
        (CompilePhase::Done(r), _) => (CompilePhase::Done(r), CompileAction::Idle),
    }
}

/// The call the collaborator owes in a given phase.
pub open spec fn spec_next_action(phase: CompilePhase) -> CompileAction {
    match phase {
        CompilePhase::Vertex => CompileAction::CompileVertex,
        CompilePhase::Fragment(_) => CompileAction::CompileFragment,
        CompilePhase::Linking(v, f) => CompileAction::Link(v, f),
        CompilePhase::Done(_) => CompileAction::Idle,
    }
}

impl CompileSession {
    /// A fresh session: the first action owed is compiling the vertex
    /// stage.
    pub fn new() -> (s: CompileSession)
        ensures
            s.phase == CompilePhase::Vertex,
    {
        CompileSession { phase: CompilePhase::Vertex }
    }

    /// The call the collaborator owes now.
    pub fn next_action(&self) -> (a: CompileAction)
        ensures
            a == spec_next_action(self.phase),
    {
        match &self.phase {
            CompilePhase::Vertex => CompileAction::CompileVertex,
            CompilePhase::Fragment(_) => CompileAction::CompileFragment,
            CompilePhase::Linking(v, f) => CompileAction::Link(*v, *f),
            CompilePhase::Done(_) => CompileAction::Idle,
        }
    }

    /// Whether the session has finished.
    pub fn is_done(&self) -> (r: bool)
        ensures
            r == (self.phase is Done),
    {
        match &self.phase {
            CompilePhase::Done(_) => true,
            _ => false,
        }
    }

    /// Advance on one stage report and return the action the collaborator
    /// owes next.
    pub fn step(&mut self, report: StageReport) -> (a: CompileAction)
        requires
            !(old(self).phase is Done),
        ensures
            (final(self).phase, a) == spec_step(old(self).phase, report),
    {
        let (next, action): (CompilePhase, CompileAction) = match (&self.phase, report) {
            (CompilePhase::Vertex, StageReport::Accepted(v)) => (
                CompilePhase::Fragment(v),
                CompileAction::CompileFragment,
            ),
            (CompilePhase::Vertex, StageReport::Rejected(log)) => (
                CompilePhase::Done(Err(log)),
                CompileAction::Idle,
            ),
            (CompilePhase::Fragment(v), StageReport::Accepted(f)) => {
                let v = *v;
                (CompilePhase::Linking(v, f), CompileAction::Link(v, f))
            },
            (CompilePhase::Fragment(_), StageReport::Rejected(log)) => (
                CompilePhase::Done(Err(log)),
                CompileAction::Idle,
            ),
            (CompilePhase::Linking(v, f), StageReport::Accepted(p)) => {
                let v = *v;
                let f = *f;
                (CompilePhase::Done(Ok(p)), CompileAction::ReleaseStages(v, f))
            },
            (CompilePhase::Linking(_, _), StageReport::Rejected(log)) => (
                CompilePhase::Done(Err(log)),
                CompileAction::Idle,
            ),
            (CompilePhase::Done(_), _) => {
                proof {
                    assert(false);
                }
                (CompilePhase::Vertex, CompileAction::Idle)
            },
        };
        self.phase = next;
        action
    }

    /// Consume a finished session, yielding the linked program's handle or
    /// the first failing stage's log.
    pub fn finish(self) -> (r: Result<u32, String>)
        requires
            self.phase is Done,
        ensures
            self.phase == CompilePhase::Done(r),
    {
        match self.phase {
            CompilePhase::Done(r) => r,
            _ => {
                proof {
                    assert(false);
                }
                Err(String::new())
            },
        }
    }
}

/// Law: a session whose three stage reports are all accepted walks vertex,
/// fragment and link in that strict order, requests the release of both
/// stage objects once the link succeeds, and finishes with the linked
/// program.
pub proof fn lemma_successful_session(v: u32, f: u32, p: u32)
    ensures
        ({
            let (s1, a1) = spec_step(CompilePhase::Vertex, StageReport::Accepted(v));
            let (s2, a2) = spec_step(s1, StageReport::Accepted(f));
            let (s3, a3) = spec_step(s2, StageReport::Accepted(p));
            &&& s1 == CompilePhase::Fragment(v)
            &&& a1 == CompileAction::CompileFragment
            &&& s2 == CompilePhase::Linking(v, f)
            &&& a2 == CompileAction::Link(v, f)
            &&& s3 == CompilePhase::Done(Result::<u32, String>::Ok(p))
            &&& a3 == CompileAction::ReleaseStages(v, f)
        }),
{
}

/// Law: the first rejected stage short-circuits the session: whatever
/// unfinished phase it arrives in, the session finishes at once with that
/// stage's log and owes the collaborator no further call.
pub proof fn lemma_rejection_short_circuits(phase: CompilePhase, log: String)
    requires
        !(phase is Done),
    ensures
        spec_step(phase, StageReport::Rejected(log)) == (
            CompilePhase::Done(Result::<u32, String>::Err(log)),
            CompileAction::Idle,
        ),
{
}

} // verus!
