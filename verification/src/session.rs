//! One call, from the buffers handed over to the words handed back, as a state
//! machine. The machine decides; whoever drives it talks to the device and
//! reports what happened.
//!
//! A session is made from a buffer set that breaks no rule, so nothing is
//! asked of a device for a call that breaks the rules. It then waits for a
//! device, and, once the plan is submitted, for the staging buffer to be
//! readable. Each wait is resolved once: by success or by a fault. What is
//! reported out of turn, or after the call has ended, changes nothing.

use vstd::prelude::*;
use crate::error::GpuError;
use crate::kernel::CompiledKernel;
use crate::plan::{plan, violation, Plan};
use crate::words::{decode_words, image_of, lemma_decode_inverts_encode, words_in};

verus! {

/// Where a call stands.
#[derive(Debug, Clone, Copy, PartialEq, Eq, Structural)]
pub enum Phase {
    /// A device has been asked for.
    AwaitingDevice,
    /// The plan is with the device; the staging buffer is not yet readable.
    AwaitingReadback,
    /// The output was handed back.
    Returned,
    /// The call failed.
    Failed,
}

/// What the driver reports.
#[derive(Debug, Clone, PartialEq, Eq)]
pub enum Event {
    /// A compute-capable device and its queue are ready.
    DeviceReady,
    /// There is no such device.
    DeviceUnavailable,
    /// The submitted work is done and the staging buffer was mapped; these are
    /// its bytes.
    ReadbackReady(Vec<u8>),
    /// The staging buffer could not be mapped.
    ReadbackFailed,
}

/// What the driver is to do next.
#[derive(Debug, Clone, PartialEq, Eq)]
pub enum Action {
    /// Carry out the session's plan, then map the staging buffer and report.
    Submit,
    /// Hand these words to the caller: the call is over.
    Return(Vec<u32>),
    /// Hand this error to the caller: the call is over.
    Fail(GpuError),
    /// Nothing: the report was out of turn.
    Ignore,
}

/// Whether `after` and `action` are the machine's answer to `event`, reported in
/// phase `before` of a call whose staging buffer has `staging_size` bytes.
pub open spec fn answers(
    before: Phase,
    staging_size: u64,
    event: Event,
    after: Phase,
    action: Action,
) -> bool {
    match (before, event) {
        (Phase::AwaitingDevice, Event::DeviceReady) => {
            &&& after == Phase::AwaitingReadback
            &&& action is Submit
        },
        (Phase::AwaitingDevice, Event::DeviceUnavailable) => {
            &&& after == Phase::Failed
            &&& action == Action::Fail(GpuError::DeviceUnavailable)
        },
        (Phase::AwaitingReadback, Event::ReadbackReady(bytes)) => {
            if bytes@.len() == staging_size {
                &&& after == Phase::Returned
                &&& action matches Action::Return(words)
                &&& words@ == words_in(bytes@)
            } else {
                &&& after == Phase::Failed
                &&& action == Action::Fail(GpuError::ReadbackFailed)
            }
        },
        (Phase::AwaitingReadback, Event::ReadbackFailed) => {
            &&& after == Phase::Failed
            &&& action == Action::Fail(GpuError::ReadbackFailed)
        },
        _ => {
            &&& after == before
            &&& action is Ignore
        },
    }
}

/// One call in progress.
pub struct Session {
    buffers: Vec<Vec<u32>>,
    plan: Plan,
    phase: Phase,
}

impl Session {
    /// A session holds a buffer set that breaks no rule, and the plan for it.
    #[verifier::type_invariant]
    pub closed spec fn wf(&self) -> bool {
        &&& violation(self.buffers@, self.buffers@.len() as usize) is None
        &&& self.plan.lays_out(self.buffers@)
    }

    /// The host buffers of this call.
    pub closed spec fn buffers(&self) -> Seq<Vec<u32>> {
        self.buffers@
    }

    /// What the device is asked to do.
    pub closed spec fn plan(&self) -> Plan {
        self.plan
    }

    /// Where the call stands.
    pub closed spec fn phase(&self) -> Phase {
        self.phase
    }

    /// Starts a call. A buffer set that breaks a rule is turned away here,
    /// before any device is asked for; otherwise the session waits for a device.
    pub fn begin(buffers: Vec<Vec<u32>>, kernel: &CompiledKernel) -> (r: Result<Session, GpuError>)
        ensures
            match violation(buffers@, kernel.buffer_count) {
                Some(v) => r == Err::<Session, GpuError>(GpuError::Contract(v)),
                None => {
                    &&& r matches Ok(s)
                    &&& s.wf()
                    &&& s.buffers() == buffers@
                    &&& s.plan().describes(buffers@, *kernel)
                    &&& s.phase() == Phase::AwaitingDevice
                },
            },
    {
        match plan(&buffers, kernel) {
            Err(e) => Err(e),
            Ok(p) => Ok(Session { buffers, plan: p, phase: Phase::AwaitingDevice }),
        }
    }

    /// Takes a report from the driver and says what to do next. The host buffers
    /// and the plan stay as they are, whatever is reported.
    pub fn step(&mut self, event: Event) -> (action: Action)
        ensures
            final(self).wf(),
            final(self).buffers() == old(self).buffers(),
            final(self).plan() == old(self).plan(),
            answers(
                old(self).phase(),
                old(self).plan().staging_size,
                event,
                final(self).phase(),
                action,
            ),
            action matches Action::Return(words) ==> words@.len() == old(self).buffers()[0]@.len(),
    {
        proof {
            use_type_invariant(&*self);
        }
        match self.phase {
            Phase::AwaitingDevice => match event {
                Event::DeviceReady => {
                    self.phase = Phase::AwaitingReadback;
                    Action::Submit
                },
                Event::DeviceUnavailable => {
                    self.phase = Phase::Failed;
                    Action::Fail(GpuError::DeviceUnavailable)
                },
                _ => Action::Ignore,
            },
            Phase::AwaitingReadback => match event {
                Event::ReadbackReady(bytes) => {
                    if bytes.len() as u64 == self.plan.staging_size {
                        self.phase = Phase::Returned;
                        Action::Return(decode_words(&bytes))
                    } else {
                        self.phase = Phase::Failed;
                        Action::Fail(GpuError::ReadbackFailed)
                    }
                },
                Event::ReadbackFailed => {
                    self.phase = Phase::Failed;
                    Action::Fail(GpuError::ReadbackFailed)
                },
                _ => Action::Ignore,
            },
            _ => Action::Ignore,
        }
    }

    /// Where the call stands.
    pub fn current_phase(&self) -> (p: Phase)
        ensures
            p == self.phase(),
    {
        self.phase
    }

    /// What the device is asked to do.
    pub fn current_plan(&self) -> (p: &Plan)
        ensures
            *p == self.plan(),
            p.lays_out(self.buffers()),
    {
        proof {
            use_type_invariant(self);
        }
        &self.plan
    }

    /// The host buffers, as they were handed over.
    pub fn host_buffers(&self) -> (b: &Vec<Vec<u32>>)
        ensures
            b@ == self.buffers(),
    {
        &self.buffers
    }

    /// Ends the session and gives the host buffers back.
    pub fn into_buffers(self) -> (b: Vec<Vec<u32>>)
        ensures
            b@ == self.buffers(),
    {
        self.buffers
    }
}

/// A call that has ended stays ended: whatever is reported afterwards, the phase
/// is kept and the driver is told to do nothing.
pub proof fn lemma_ended_call_ignores_reports(
    before: Phase,
    staging_size: u64,
    event: Event,
    after: Phase,
    action: Action,
)
    requires
        before == Phase::Returned || before == Phase::Failed,
        answers(before, staging_size, event, after, action),
    ensures
        after == before,
        action is Ignore,
{
}

/// Every answer but "nothing" moves the call on, and an answer that ends the
/// call is given in a phase that waits: each wait is resolved at most once.
pub proof fn lemma_each_wait_resolves_once(
    before: Phase,
    staging_size: u64,
    event: Event,
    after: Phase,
    action: Action,
)
    requires
        answers(before, staging_size, event, after, action),
    ensures
        !(action is Ignore) ==> after != before,
        action is Submit ==> before == Phase::AwaitingDevice && after == Phase::AwaitingReadback,
        action is Return ==> before == Phase::AwaitingReadback && after == Phase::Returned,
        action is Fail ==> after == Phase::Failed && (before == Phase::AwaitingDevice || before
            == Phase::AwaitingReadback),
{
}

/// When the staging buffer holds the image of `words`, as many as the output
/// buffer has, the call returns exactly `words`.
pub proof fn lemma_readback_returns_staged_words(
    session: Session,
    words: Seq<u32>,
    bytes: Vec<u8>,
    after: Phase,
    action: Action,
)
    requires
        session.wf(),
        session.phase() == Phase::AwaitingReadback,
        words.len() == session.buffers()[0]@.len(),
        bytes@ == image_of(words),
        answers(
            session.phase(),
            session.plan().staging_size,
            Event::ReadbackReady(bytes),
            after,
            action,
        ),
    ensures
        after == Phase::Returned,
        action matches Action::Return(out) && out@ == words,
{
    lemma_decode_inverts_encode(words);
}

/// When the device leaves the output buffer as it was uploaded, the call returns
/// buffer 0 unchanged.
pub proof fn lemma_untouched_output_returns_unchanged(
    session: Session,
    bytes: Vec<u8>,
    after: Phase,
    action: Action,
)
    requires
        session.wf(),
        session.phase() == Phase::AwaitingReadback,
        bytes@ == session.plan().bindings@[0].contents@,
        answers(
            session.phase(),
            session.plan().staging_size,
            Event::ReadbackReady(bytes),
            after,
            action,
        ),
    ensures
        after == Phase::Returned,
        action matches Action::Return(out) && out@ == session.buffers()[0]@,
{
    lemma_readback_returns_staged_words(session, session.buffers()[0]@, bytes, after, action);
}

/// The machine's answer is a function of the phase, the staging size and the
/// report: two answers to the same report agree on the phase that follows and on
/// what is handed to the caller.
pub proof fn lemma_answer_is_determined(
    before: Phase,
    staging_size: u64,
    event: Event,
    after: Phase,
    action: Action,
    other_after: Phase,
    other_action: Action,
)
    requires
        answers(before, staging_size, event, after, action),
        answers(before, staging_size, event, other_after, other_action),
    ensures
        after == other_after,
        action is Submit <==> other_action is Submit,
        action is Ignore <==> other_action is Ignore,
        action matches Action::Return(words) ==> other_action matches Action::Return(others)
            && others@ == words@,
        action matches Action::Fail(error) ==> other_action == Action::Fail(error),
{
}

/// The elements that the buffers hold at one index, buffer 0 first.
pub open spec fn column(buffers: Seq<Vec<u32>>, index: int) -> Seq<u32> {
    Seq::new(buffers.len(), |k: int| buffers[k]@[index])
}

/// What buffer 0 holds once each of its elements has been replaced by `update`
/// of the elements at its index.
pub open spec fn updated(buffers: Seq<Vec<u32>>, update: spec_fn(Seq<u32>) -> u32) -> Seq<u32> {
    Seq::new(buffers[0]@.len(), |i: int| update(column(buffers, i)))
}

/// When the device stages buffer 0 with each element updated from the elements
/// at its index, the call returns exactly those updated elements.
pub proof fn lemma_staged_update_is_returned(
    session: Session,
    update: spec_fn(Seq<u32>) -> u32,
    bytes: Vec<u8>,
    after: Phase,
    action: Action,
)
    requires
        session.wf(),
        session.phase() == Phase::AwaitingReadback,
        bytes@ == image_of(updated(session.buffers(), update)),
        answers(
            session.phase(),
            session.plan().staging_size,
            Event::ReadbackReady(bytes),
            after,
            action,
        ),
    ensures
        after == Phase::Returned,
        action matches Action::Return(out) && out@.len() == session.buffers()[0]@.len()
            && forall|i: int|
            0 <= i < out@.len() ==> out@[i] == update(column(session.buffers(), i)),
{
    lemma_readback_returns_staged_words(
        session,
        updated(session.buffers(), update),
        bytes,
        after,
        action,
    );
}

/// When the device stages a buffer of zeros with 4 added to each element, the
/// call returns 4 at every index.
pub proof fn lemma_four_added_to_zeros_returns_fours(
    session: Session,
    bytes: Vec<u8>,
    after: Phase,
    action: Action,
)
    requires
        session.wf(),
        session.phase() == Phase::AwaitingReadback,
        forall|i: int| 0 <= i < session.buffers()[0]@.len() ==> session.buffers()[0]@[i] == 0,
        bytes@ == image_of(
            updated(session.buffers(), |at: Seq<u32>| ((at[0] + 4) % 0x1_0000_0000) as u32),
        ),
        answers(
            session.phase(),
            session.plan().staging_size,
            Event::ReadbackReady(bytes),
            after,
            action,
        ),
    ensures
        after == Phase::Returned,
        action matches Action::Return(out) && out@.len() == session.buffers()[0]@.len()
            && forall|i: int| 0 <= i < out@.len() ==> out@[i] == 4,
{
    let add_four = |at: Seq<u32>| ((at[0] + 4) % 0x1_0000_0000) as u32;
    lemma_staged_update_is_returned(session, add_four, bytes, after, action);
    let out = action->Return_0;
    assert forall|i: int| 0 <= i < out@.len() implies out@[i] == 4 by {
        assert(column(session.buffers(), i)[0] == session.buffers()[0]@[i]);
    }
}

/// Two calls over buffers that hold the same words ask the same of the device,
/// whatever was run before them, and answer the same report alike.
pub proof fn lemma_equal_calls_answer_alike(
    one: Session,
    other: Session,
    event: Event,
    after: Phase,
    action: Action,
    other_after: Phase,
    other_action: Action,
)
    requires
        one.wf(),
        other.wf(),
        one.buffers().len() == other.buffers().len(),
        forall|i: int|
            0 <= i < one.buffers().len() ==> (#[trigger] one.buffers()[i])@ == other.buffers()[i]@,
        one.phase() == other.phase(),
        answers(one.phase(), one.plan().staging_size, event, after, action),
        answers(other.phase(), other.plan().staging_size, event, other_after, other_action),
    ensures
        one.plan().staging_size == other.plan().staging_size,
        one.plan().invocations == other.plan().invocations,
        one.plan().copy_size == other.plan().copy_size,
        one.plan().bindings@.len() == other.plan().bindings@.len(),
        forall|i: int|
            0 <= i < one.plan().bindings@.len() ==> (#[trigger] one.plan().bindings@[i]).contents@
                == other.plan().bindings@[i].contents@,
        after == other_after,
        action is Submit <==> other_action is Submit,
        action is Ignore <==> other_action is Ignore,
        action matches Action::Return(words) ==> other_action matches Action::Return(others)
            && others@ == words@,
        action matches Action::Fail(error) ==> other_action == Action::Fail(error),
{
    assert(one.buffers()[0]@ == other.buffers()[0]@);
    assert forall|i: int| 0 <= i < one.plan().bindings@.len() implies (
    #[trigger] one.plan().bindings@[i]).contents@ == other.plan().bindings@[i].contents@ by {
        assert(one.plan().bindings@[i].binds(i, one.buffers()[i]@));
        assert(other.plan().bindings@[i].binds(i, other.buffers()[i]@));
        assert(one.buffers()[i]@ == other.buffers()[i]@);
    }
    lemma_answer_is_determined(
        one.phase(),
        one.plan().staging_size,
        event,
        after,
        action,
        other_after,
        other_action,
    );
}

} // verus!
