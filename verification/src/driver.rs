//! The HMAC driver: a state machine that drives one provider session through
//! key import, signing-context creation, data feeding and finalization.
//!
//! The driver performs no provider call itself. `HmacDriver::start` checks the
//! input and asks for the first provider call as an [`Action`]; the caller
//! performs it and hands the provider's result back as an [`Event`] through
//! [`HmacDriver::step`], which answers with the next action, the finished tag,
//! an error, or a fatal internal-consistency verdict.

use vstd::prelude::*;

use crate::alg::CKA_SIGN;
use crate::alg::Error;
use crate::alg::HmacAlgorithm;
use crate::alg::hmac_alg_to_ckm;
use crate::alg::hmac_alg_to_hmac_len;
use crate::alg::spec_ckm;
use crate::alg::spec_hmac_len;

verus! {

/// Where the driver stands in the provider session. Handles (slot, key,
/// context) are opaque tokens chosen by the party that performs the provider
/// calls.
#[derive(Clone, Copy, Debug, PartialEq, Eq, Structural)]
pub enum Phase {
    /// Waiting for the process-wide library initialization.
    Initializing,
    /// Waiting for the provider's internal slot handle.
    AcquiringSlot,
    /// Waiting for the key bytes to be imported into the slot.
    ImportingKey { slot: u64 },
    /// Waiting for a signing context bound to the imported key.
    CreatingContext { key_handle: u64 },
    /// Waiting for the message to be fed into the context.
    Feeding { context: u64 },
    /// Waiting for the context to be finalized into the digest buffer.
    Finalizing { context: u64 },
    /// The tag has been returned.
    Finished,
    /// A provider call failed, or a fatal inconsistency was seen.
    Failed,
}

/// A provider call the driver asks its caller to perform.
pub enum Action {
    /// Ensure the process-wide cryptographic library state is initialized
    /// (idempotent). Reply with [`Event::Initialized`].
    EnsureInitialized,
    /// Acquire the provider's internal slot. Reply with
    /// [`Event::SlotAcquired`].
    AcquireSlot,
    /// Import `key` into the slot as a symmetric key object scoped by
    /// `usage` for signing, under `mechanism`. Reply with
    /// [`Event::KeyImported`].
    ImportKey { slot: u64, mechanism: u64, usage: u64, key: Vec<u8> },
    /// Create a signing context bound to the imported key and the same
    /// mechanism, with an empty mechanism parameter. Reply with
    /// [`Event::ContextCreated`].
    CreateContext { mechanism: u64, usage: u64, key_handle: u64 },
    /// Feed the whole message into the context in one call. Reply with
    /// [`Event::Fed`].
    Feed { context: u64, data: Vec<u8> },
    /// Finalize the context into `digest`, a zeroed buffer of `capacity`
    /// bytes. Reply with [`Event::Finalized`], returning the filled buffer
    /// and the provider's reported output length.
    Finalize { context: u64, digest: Vec<u8>, capacity: u32 },
}

/// A provider result handed back to the driver.
pub enum Event {
    /// The library is initialized.
    Initialized,
    /// The internal slot handle.
    SlotAcquired(u64),
    /// The imported symmetric key handle.
    KeyImported(u64),
    /// The signing context handle.
    ContextCreated(u64),
    /// The message was fed into the context.
    Fed,
    /// The filled digest buffer and the provider's reported output length.
    Finalized(Vec<u8>, u32),
    /// Any provider call failed, with the provider's native error code.
    ProviderFailed(u64),
}

/// The driver's answer to an event.
pub enum Outcome {
    /// Perform this provider call next.
    Next(Action),
    /// The finished tag, of exactly the algorithm's expected length.
    Done(Vec<u8>),
    /// The pipeline stopped: the error to surface to the caller.
    Fail(Error),
    /// An internal-consistency violation: the provider reported an output
    /// length other than the expected one, or an event that the current
    /// phase cannot answer. The caller must abort, not continue.
    Fatal,
}

/// The mathematical model of a driver: its fields with byte vectors
/// abstracted to sequences.
pub ghost struct DriverModel {
    pub mechanism: u64,
    pub expected_len: usize,
    pub key: Seq<u8>,
    pub data: Seq<u8>,
    pub phase: Phase,
}

/// The mathematical model of an action.
pub ghost enum ActionModel {
    EnsureInitialized,
    AcquireSlot,
    ImportKey { slot: u64, mechanism: u64, usage: u64, key: Seq<u8> },
    CreateContext { mechanism: u64, usage: u64, key_handle: u64 },
    Feed { context: u64, data: Seq<u8> },
    Finalize { context: u64, digest: Seq<u8>, capacity: u32 },
}

/// The mathematical model of an event.
pub ghost enum EventModel {
    Initialized,
    SlotAcquired(u64),
    KeyImported(u64),
    ContextCreated(u64),
    Fed,
    Finalized(Seq<u8>, u32),
    ProviderFailed(u64),
}

/// The mathematical model of an outcome.
pub ghost enum OutcomeModel {
    Next(ActionModel),
    Done(Seq<u8>),
    Fail(Error),
    Fatal,
}

impl View for Action {
    type V = ActionModel;

    open spec fn view(&self) -> ActionModel {
        match self {
            Action::EnsureInitialized => ActionModel::EnsureInitialized,
            Action::AcquireSlot => ActionModel::AcquireSlot,
            Action::ImportKey { slot, mechanism, usage, key } => ActionModel::ImportKey {
                slot: *slot,
                mechanism: *mechanism,
                usage: *usage,
                key: key@,
            },
            Action::CreateContext { mechanism, usage, key_handle } => ActionModel::CreateContext {
                mechanism: *mechanism,
                usage: *usage,
                key_handle: *key_handle,
            },
            Action::Feed { context, data } => ActionModel::Feed {
                context: *context,
                data: data@,
            },
            Action::Finalize { context, digest, capacity } => ActionModel::Finalize {
                context: *context,
                digest: digest@,
                capacity: *capacity,
            },
        }
    }
}

impl View for Event {
    type V = EventModel;

    open spec fn view(&self) -> EventModel {
        match self {
            Event::Initialized => EventModel::Initialized,
            Event::SlotAcquired(s) => EventModel::SlotAcquired(*s),
            Event::KeyImported(k) => EventModel::KeyImported(*k),
            Event::ContextCreated(c) => EventModel::ContextCreated(*c),
            Event::Fed => EventModel::Fed,
            Event::Finalized(buf, n) => EventModel::Finalized(buf@, *n),
            Event::ProviderFailed(code) => EventModel::ProviderFailed(*code),
        }
    }
}

impl View for Outcome {
    type V = OutcomeModel;

    open spec fn view(&self) -> OutcomeModel {
        match self {
            Outcome::Next(a) => OutcomeModel::Next(a@),
            Outcome::Done(tag) => OutcomeModel::Done(tag@),
            Outcome::Fail(e) => OutcomeModel::Fail(*e),
            Outcome::Fatal => OutcomeModel::Fatal,
        }
    }
}

/// One HMAC computation in progress: the resolved mechanism and expected tag
/// length, the caller's key and message, and the session phase.
pub struct HmacDriver {
    mechanism: u64,
    expected_len: usize,
    key: Vec<u8>,
    data: Vec<u8>,
    phase: Phase,
}

impl View for HmacDriver {
    type V = DriverModel;

    closed spec fn view(&self) -> DriverModel {
        DriverModel {
            mechanism: self.mechanism,
            expected_len: self.expected_len,
            key: self.key@,
            data: self.data@,
            phase: self.phase,
        }
    }
}

/// Whether the session still has provider calls ahead of it.
pub open spec fn in_progress(p: Phase) -> bool {
    !(p is Finished || p is Failed)
}

/// The model of a freshly started driver for `alg`, `key` and `data`.
pub open spec fn start_model(alg: HmacAlgorithm, key: Seq<u8>, data: Seq<u8>) -> DriverModel {
    DriverModel {
        mechanism: spec_ckm(alg),
        expected_len: spec_hmac_len(alg),
        key: key,
        data: data,
        phase: Phase::Initializing,
    }
}

/// The driver's transition function, on the mathematical models: from the
/// current driver and a provider event to the successor driver and the
/// driver's answer. Total: every pair of driver and event has exactly one
/// successor.
pub open spec fn step_model(d: DriverModel, ev: EventModel) -> (DriverModel, OutcomeModel) {
    if ev is ProviderFailed {
        let code = ev->ProviderFailed_0;
        if in_progress(d.phase) {
            (
                DriverModel { phase: Phase::Failed, ..d },
                OutcomeModel::Fail(Error::ProviderError(code)),
            )
        } else {
            (DriverModel { phase: Phase::Failed, ..d }, OutcomeModel::Fatal)
        }
    } else {
        match (d.phase, ev) {
            (Phase::Initializing, EventModel::Initialized) => (
                DriverModel { phase: Phase::AcquiringSlot, ..d },
                OutcomeModel::Next(ActionModel::AcquireSlot),
            ),
            (Phase::AcquiringSlot, EventModel::SlotAcquired(slot)) => (
                DriverModel { phase: Phase::ImportingKey { slot }, ..d },
                OutcomeModel::Next(
                    ActionModel::ImportKey {
                        slot,
                        mechanism: d.mechanism,
                        usage: CKA_SIGN,
                        key: d.key,
                    },
                ),
            ),
            (Phase::ImportingKey { .. }, EventModel::KeyImported(key_handle)) => (
                DriverModel { phase: Phase::CreatingContext { key_handle }, ..d },
                OutcomeModel::Next(
                    ActionModel::CreateContext { mechanism: d.mechanism, usage: CKA_SIGN, key_handle },
                ),
            ),
            (Phase::CreatingContext { .. }, EventModel::ContextCreated(context)) => (
                DriverModel { phase: Phase::Feeding { context }, ..d },
                OutcomeModel::Next(ActionModel::Feed { context, data: d.data }),
            ),
            (Phase::Feeding { context }, EventModel::Fed) => (
                DriverModel { phase: Phase::Finalizing { context }, ..d },
                OutcomeModel::Next(
                    ActionModel::Finalize {
                        context,
                        digest: Seq::new(d.expected_len as nat, |i: int| 0u8),
                        capacity: d.expected_len as u32,
                    },
                ),
            ),
            (Phase::Finalizing { .. }, EventModel::Finalized(buf, reported_len)) => {
                if buf.len() == d.expected_len && reported_len as usize == d.expected_len {
                    (DriverModel { phase: Phase::Finished, ..d }, OutcomeModel::Done(buf))
                } else {
                    (DriverModel { phase: Phase::Failed, ..d }, OutcomeModel::Fatal)
                }
            },
            _ => (DriverModel { phase: Phase::Failed, ..d }, OutcomeModel::Fatal),
        }
    }
}

/// Copies a byte vector. The driver keeps the caller's key and data and hands
/// copies out in its actions.
fn copy_bytes(v: &Vec<u8>) -> (r: Vec<u8>)
    ensures
        r@ == v@,
{
    let mut r: Vec<u8> = Vec::new();
    let mut i: usize = 0;
    while i < v.len()
        invariant
            i <= v@.len(),
            r@ == v@.subrange(0, i as int),
        decreases v@.len() - i,
    {
        r.push(v[i]);
        proof {
            assert(r@ =~= v@.subrange(0, i + 1));
        }
        i = i + 1;
    }
    proof {
        assert(r@ =~= v@);
    }
    r
}

/// Allocates a zeroed digest buffer of length `n`.
fn zero_buffer(n: usize) -> (r: Vec<u8>)
    ensures
        r@ == Seq::new(n as nat, |i: int| 0u8),
{
    let mut r: Vec<u8> = Vec::new();
    let mut i: usize = 0;
    while i < n
        invariant
            i <= n,
            r@ == Seq::new(i as nat, |j: int| 0u8),
        decreases n - i,
    {
        r.push(0u8);
        proof {
            assert(r@ =~= Seq::new((i + 1) as nat, |j: int| 0u8));
        }
        i = i + 1;
    }
    r
}

/// Checks that a message length fits the provider's 32-bit length field:
/// returns it narrowed when it fits, and `InputTooLarge` when it does not.
pub fn check_data_len(len: usize) -> (r: Result<u32, Error>)
    ensures
        len <= u32::MAX ==> r == Ok::<u32, Error>(len as u32),
        len > u32::MAX ==> r == Err::<u32, Error>(Error::InputTooLarge),
{
    if len <= u32::MAX as usize {
        Ok(len as u32)
    } else {
        Err(Error::InputTooLarge)
    }
}

impl HmacDriver {
    /// Begins an HMAC computation. Rejects a message longer than the
    /// provider's 32-bit length field before any provider interaction;
    /// otherwise resolves the algorithm and asks for the idempotent
    /// process-wide initialization as the first provider call.
    pub fn start(alg: &HmacAlgorithm, key: Vec<u8>, data: Vec<u8>) -> (r: Result<
        (HmacDriver, Action),
        Error,
    >)
        ensures
            data@.len() > u32::MAX ==> r is Err && r->Err_0 == Error::InputTooLarge,
            data@.len() <= u32::MAX ==> {
                &&& r matches Ok((d, a))
                &&& d@ == start_model(*alg, key@, data@)
                &&& a@ == ActionModel::EnsureInitialized
            },
    {
        if let Err(e) = check_data_len(data.len()) {
            return Err(e);
        }
        let mechanism = hmac_alg_to_ckm(alg)?;
        let expected_len = hmac_alg_to_hmac_len(alg)?;
        let driver = HmacDriver { mechanism, expected_len, key, data, phase: Phase::Initializing };
        Ok((driver, Action::EnsureInitialized))
    }

    /// Answers one provider event: the driver moves to its successor state
    /// and returns the next provider call, the finished tag, the error to
    /// surface, or a fatal internal-consistency verdict. Behaves exactly as
    /// [`step_model`] on the models.
    pub fn step(&mut self, ev: Event) -> (o: Outcome)
        ensures
            final(self)@ == step_model(old(self)@, ev@).0,
            o@ == step_model(old(self)@, ev@).1,
    {
        match ev {
            Event::ProviderFailed(code) => {
                let was_in_progress = match self.phase {
                    Phase::Finished | Phase::Failed => false,
                    _ => true,
                };
                self.phase = Phase::Failed;
                if was_in_progress {
                    Outcome::Fail(Error::ProviderError(code))
                } else {
                    Outcome::Fatal
                }
            },
            Event::Initialized => match self.phase {
                Phase::Initializing => {
                    self.phase = Phase::AcquiringSlot;
                    Outcome::Next(Action::AcquireSlot)
                },
                _ => {
                    self.phase = Phase::Failed;
                    Outcome::Fatal
                },
            },
            Event::SlotAcquired(slot) => match self.phase {
                Phase::AcquiringSlot => {
                    self.phase = Phase::ImportingKey { slot };
                    Outcome::Next(
                        Action::ImportKey {
                            slot,
                            mechanism: self.mechanism,
                            usage: CKA_SIGN,
                            key: copy_bytes(&self.key),
                        },
                    )
                },
                _ => {
                    self.phase = Phase::Failed;
                    Outcome::Fatal
                },
            },
            Event::KeyImported(key_handle) => match self.phase {
                Phase::ImportingKey { .. } => {
                    self.phase = Phase::CreatingContext { key_handle };
                    Outcome::Next(
                        Action::CreateContext {
                            mechanism: self.mechanism,
                            usage: CKA_SIGN,
                            key_handle,
                        },
                    )
                },
                _ => {
                    self.phase = Phase::Failed;
                    Outcome::Fatal
                },
            },
            Event::ContextCreated(context) => match self.phase {
                Phase::CreatingContext { .. } => {
                    self.phase = Phase::Feeding { context };
                    Outcome::Next(Action::Feed { context, data: copy_bytes(&self.data) })
                },
                _ => {
                    self.phase = Phase::Failed;
                    Outcome::Fatal
                },
            },
            Event::Fed => match self.phase {
                Phase::Feeding { context } => {
                    self.phase = Phase::Finalizing { context };
                    Outcome::Next(
                        Action::Finalize {
                            context,
                            digest: zero_buffer(self.expected_len),
                            capacity: self.expected_len as u32,
                        },
                    )
                },
                _ => {
                    self.phase = Phase::Failed;
                    Outcome::Fatal
                },
            },
            Event::Finalized(buf, reported_len) => match self.phase {
                Phase::Finalizing { .. } => {
                    if buf.len() == self.expected_len && reported_len as usize
                        == self.expected_len {
                        self.phase = Phase::Finished;
                        Outcome::Done(buf)
                    } else {
                        self.phase = Phase::Failed;
                        Outcome::Fatal
                    }
                },
                _ => {
                    self.phase = Phase::Failed;
                    Outcome::Fatal
                },
            },
        }
    }
}

/// A driver that belongs to `alg`: its mechanism code and expected tag length
/// are the ones the algorithm resolves to. Established by `start`, preserved
/// by every step.
pub open spec fn wf_for(d: DriverModel, alg: HmacAlgorithm) -> bool {
    &&& d.mechanism == spec_ckm(alg)
    &&& d.expected_len == spec_hmac_len(alg)
}

/// The driver after a whole run: `d` stepped through `evs`, in order.
pub open spec fn run_state(d: DriverModel, evs: Seq<EventModel>) -> DriverModel
    decreases evs.len(),
{
    if evs.len() == 0 {
        d
    } else {
        run_state(step_model(d, evs[0]).0, evs.subrange(1, evs.len() as int))
    }
}

/// The driver's answer to the last event of a whole run: `d` stepped through
/// `evs`, in order. Meaningful for a non-empty `evs`.
pub open spec fn run_outcome(d: DriverModel, evs: Seq<EventModel>) -> OutcomeModel
    recommends
        evs.len() > 0,
    decreases evs.len(),
{
    if evs.len() <= 1 {
        step_model(d, evs[0]).1
    } else {
        run_outcome(step_model(d, evs[0]).0, evs.subrange(1, evs.len() as int))
    }
}

/// Law: every step keeps the driver bound to its algorithm: the mechanism
/// code and the expected tag length never change.
pub proof fn lemma_step_preserves_wf(d: DriverModel, ev: EventModel, alg: HmacAlgorithm)
    requires
        wf_for(d, alg),
    ensures
        wf_for(step_model(d, ev).0, alg),
{
}

/// Law: when a step of a driver bound to `alg` hands the tag out, the tag has
/// exactly the algorithm's expected length.
pub proof fn lemma_done_tag_length(d: DriverModel, ev: EventModel, alg: HmacAlgorithm)
    requires
        wf_for(d, alg),
        step_model(d, ev).1 is Done,
    ensures
        step_model(d, ev).1->Done_0.len() == spec_hmac_len(alg),
{
}

/// Law: over a whole run of a driver bound to `alg`, whenever the outcome is
/// the finished tag, the tag has exactly the algorithm's expected length.
pub proof fn lemma_run_done_tag_length(d: DriverModel, evs: Seq<EventModel>, alg: HmacAlgorithm)
    requires
        wf_for(d, alg),
        evs.len() > 0,
        run_outcome(d, evs) is Done,
    ensures
        run_outcome(d, evs)->Done_0.len() == spec_hmac_len(alg),
    decreases evs.len(),
{
    if evs.len() <= 1 {
        lemma_done_tag_length(d, evs[0], alg);
    } else {
        lemma_step_preserves_wf(d, evs[0], alg);
        lemma_run_done_tag_length(step_model(d, evs[0]).0, evs.subrange(1, evs.len() as int), alg);
    }
}

/// Law: the driver is deterministic. A run's final state and outcome are a
/// function of the start state and the provider's replies alone; the tag
/// bytes themselves are whatever the provider computed, so byte-identical
/// replies give byte-identical tags.
pub proof fn lemma_run_deterministic(
    d1: DriverModel,
    d2: DriverModel,
    evs1: Seq<EventModel>,
    evs2: Seq<EventModel>,
)
    requires
        d1 == d2,
        evs1 == evs2,
    ensures
        run_state(d1, evs1) == run_state(d2, evs2),
        run_outcome(d1, evs1) == run_outcome(d2, evs2),
{
}

/// Law: a provider failure at any point of the session surfaces the
/// provider's error code unchanged and moves the driver to `Failed`.
pub proof fn lemma_failure_propagates(d: DriverModel, code: u64)
    requires
        in_progress(d.phase),
    ensures
        step_model(d, EventModel::ProviderFailed(code)).1 == OutcomeModel::Fail(
            Error::ProviderError(code),
        ),
        step_model(d, EventModel::ProviderFailed(code)).0.phase == Phase::Failed,
{
}

/// Law: a failed driver never asks for another provider call: after a
/// failure, no later event yields a `Next` action, so a failed key import is
/// never followed by context creation, feeding or finalization.
pub proof fn lemma_failed_is_final(d: DriverModel, ev: EventModel)
    requires
        d.phase == Phase::Failed,
    ensures
        !(step_model(d, ev).1 is Next),
        step_model(d, ev).0.phase == Phase::Failed,
{
}

/// Law: success is owed on the success path. Whenever every provider call
/// succeeds and the finalize step reports the expected length, a run from the
/// start state through the five replies, in the pipeline's order, ends with
/// the provider's tag handed out as `Done` — whatever the handles and the tag
/// bytes were.
pub proof fn lemma_success_run(
    alg: HmacAlgorithm,
    key: Seq<u8>,
    data: Seq<u8>,
    slot: u64,
    key_handle: u64,
    context: u64,
    buf: Seq<u8>,
    reported: u32,
)
    requires
        buf.len() == spec_hmac_len(alg),
        reported as usize == spec_hmac_len(alg),
    ensures
        run_outcome(
            start_model(alg, key, data),
            seq![
                EventModel::Initialized,
                EventModel::SlotAcquired(slot),
                EventModel::KeyImported(key_handle),
                EventModel::ContextCreated(context),
                EventModel::Fed,
                EventModel::Finalized(buf, reported),
            ],
        ) == OutcomeModel::Done(buf),
{
    let evs = seq![
        EventModel::Initialized,
        EventModel::SlotAcquired(slot),
        EventModel::KeyImported(key_handle),
        EventModel::ContextCreated(context),
        EventModel::Fed,
        EventModel::Finalized(buf, reported),
    ];
    let d0 = start_model(alg, key, data);
    let d1 = step_model(d0, evs[0]).0;
    let d2 = step_model(d1, evs[1]).0;
    let d3 = step_model(d2, evs[2]).0;
    let d4 = step_model(d3, evs[3]).0;
    let d5 = step_model(d4, evs[4]).0;
    assert(evs.subrange(1, 6) =~= seq![evs[1], evs[2], evs[3], evs[4], evs[5]]);
    let e1 = evs.subrange(1, 6);
    assert(e1.subrange(1, 5) =~= seq![evs[2], evs[3], evs[4], evs[5]]);
    let e2 = e1.subrange(1, 5);
    assert(e2.subrange(1, 4) =~= seq![evs[3], evs[4], evs[5]]);
    let e3 = e2.subrange(1, 4);
    assert(e3.subrange(1, 3) =~= seq![evs[4], evs[5]]);
    let e4 = e3.subrange(1, 3);
    assert(e4.subrange(1, 2) =~= seq![evs[5]]);
    let e5 = e4.subrange(1, 2);
    assert(run_outcome(d5, e5) == step_model(d5, evs[5]).1);
    assert(run_outcome(d4, e4) == run_outcome(d5, e5));
    assert(run_outcome(d3, e3) == run_outcome(d4, e4));
    assert(run_outcome(d2, e2) == run_outcome(d3, e3));
    assert(run_outcome(d1, e1) == run_outcome(d2, e2));
    assert(run_outcome(d0, evs) == run_outcome(d1, e1));
    assert(step_model(d5, evs[5]).1 == OutcomeModel::Done(buf));
}

/// Law: the driver hands the caller's inputs to the provider unchanged: the
/// key bytes of an import call and the data bytes of a feed call are exactly
/// the ones the driver was started with.
pub proof fn lemma_inputs_forwarded(d: DriverModel, ev: EventModel)
    ensures
        step_model(d, ev).1 matches OutcomeModel::Next(a) ==> {
            &&& a matches ActionModel::ImportKey { key, .. } ==> key == d.key
            &&& a matches ActionModel::Feed { data, .. } ==> data == d.data
        },
{
}

} // verus!
