//! The round-trip workflow as a state machine: write a key, read it back,
//! delete it, read again to confirm absence. The machine decides; the
//! caller performs each requested operation against the real store and
//! hands the result back as an event. Every failure of the first five
//! steps is fatal; the final confirmation read is advisory only, so a
//! non-empty result there downgrades to a soft warning.

use vstd::prelude::*;

use crate::config::Config;
use crate::errors::ErrorKind;
use crate::errors::StoreError;
use crate::store::MemoryStore;
use crate::store::copy_bytes;

verus! {

/// How a finished run ended: full success, the advisory deletion check
/// failed (soft warning), or a fatal failure of one of the operations.
pub enum Outcome {
    Success,
    SoftWarning,
    Fatal(StoreError),
}

/// Where the workflow stands. `Done` is terminal; every other phase has
/// exactly one operation pending.
pub enum Phase {
    /// Nothing has happened yet; the readiness delay is pending.
    Init,
    /// The delay has elapsed; connecting is pending.
    Ready,
    /// Connected; the write is pending.
    Connected,
    /// Written; the first read is pending.
    Saved,
    /// Read back; the delete is pending.
    Retrieved,
    /// Deleted; the confirmation read is pending.
    Deleted,
    /// Terminal, with the run's outcome.
    Done(Outcome),
}

/// The operation the workflow asks its caller to perform next.
pub enum Action {
    /// Wait the given number of seconds for the service to become ready.
    Wait(u64),
    /// Connect to the endpoint.
    Connect(String),
    /// Write the value under the key in the store: store name, key, value.
    Save(String, String, Vec<u8>),
    /// Read the key from the store: store name, key.
    Get(String, String),
    /// Delete the key from the store: store name, key.
    Delete(String, String),
}

/// What the caller reports back: the requested operation's result. A
/// failure carries the transport's detail string; a completed read carries
/// the bytes it returned.
pub enum Event {
    Waited,
    ConnectOk,
    ConnectFailed(String),
    SaveOk,
    SaveFailed(String),
    GetOk(Vec<u8>),
    GetFailed(String),
    DeleteOk,
    DeleteFailed(String),
}

/// A single round-trip run: its configuration, where it stands, and the
/// value the first read returned, once it has.
pub struct Workflow {
    pub config: Config,
    pub phase: Phase,
    pub retrieved: Option<Vec<u8>>,
}

/// Whether `e` reports the operation pending in `phase`.
pub open spec fn expected_event(phase: Phase, e: Event) -> bool {
    match phase {
        Phase::Init => e is Waited,
        Phase::Ready => e is ConnectOk || e is ConnectFailed,
        Phase::Connected => e is SaveOk || e is SaveFailed,
        Phase::Saved => e is GetOk || e is GetFailed,
        Phase::Retrieved => e is DeleteOk || e is DeleteFailed,
        Phase::Deleted => e is GetOk || e is GetFailed,
        Phase::Done(_) => false,
    }
}

/// The transition relation, one step: what the workflow becomes when its
/// pending operation's result arrives.
pub open spec fn spec_step(w: Workflow, e: Event) -> Workflow
    recommends
        expected_event(w.phase, e),
{
    match (w.phase, e) {
        (Phase::Init, Event::Waited) => Workflow { phase: Phase::Ready, ..w },
        (Phase::Ready, Event::ConnectOk) => Workflow { phase: Phase::Connected, ..w },
        (Phase::Ready, Event::ConnectFailed(d)) => Workflow {
            phase: Phase::Done(
                Outcome::Fatal(StoreError { kind: ErrorKind::Connection, detail: d }),
            ),
            ..w
        },
        (Phase::Connected, Event::SaveOk) => Workflow { phase: Phase::Saved, ..w },
        (Phase::Connected, Event::SaveFailed(d)) => Workflow {
            phase: Phase::Done(Outcome::Fatal(StoreError { kind: ErrorKind::Save, detail: d })),
            ..w
        },
        (Phase::Saved, Event::GetOk(v)) => Workflow {
            phase: Phase::Retrieved,
            retrieved: Some(v),
            ..w
        },
        (Phase::Saved, Event::GetFailed(d)) => Workflow {
            phase: Phase::Done(Outcome::Fatal(StoreError { kind: ErrorKind::Get, detail: d })),
            ..w
        },
        (Phase::Retrieved, Event::DeleteOk) => Workflow { phase: Phase::Deleted, ..w },
        (Phase::Retrieved, Event::DeleteFailed(d)) => Workflow {
            phase: Phase::Done(Outcome::Fatal(StoreError { kind: ErrorKind::Delete, detail: d })),
            ..w
        },
        (Phase::Deleted, Event::GetOk(v)) => Workflow {
            phase: Phase::Done(
                if v@.len() == 0 {
                    Outcome::Success
                } else {
                    Outcome::SoftWarning
                },
            ),
            ..w
        },
        (Phase::Deleted, Event::GetFailed(d)) => Workflow {
            phase: Phase::Done(Outcome::Fatal(StoreError { kind: ErrorKind::Get, detail: d })),
            ..w
        },
        _ => w,
    }
}

/// Whether `r` is the operation pending in `w`: exactly one per phase,
/// with the store name, key and value taken from the configuration, and
/// none once the workflow is done.
pub open spec fn is_next_action(w: Workflow, r: Option<Action>) -> bool {
    match w.phase {
        Phase::Init => r matches Some(Action::Wait(s)) && s == w.config.delay_seconds,
        Phase::Ready => r matches Some(Action::Connect(a)) && a@ == w.config.address@,
        Phase::Connected => r matches Some(Action::Save(st, k, v)) && st@ == w.config.store_name@
            && k@ == w.config.key@ && v@ == w.config.value@,
        Phase::Saved => r matches Some(Action::Get(st, k)) && st@ == w.config.store_name@ && k@
            == w.config.key@,
        Phase::Retrieved => r matches Some(Action::Delete(st, k)) && st@ == w.config.store_name@
            && k@ == w.config.key@,
        Phase::Deleted => r matches Some(Action::Get(st, k)) && st@ == w.config.store_name@ && k@
            == w.config.key@,
        Phase::Done(_) => r is None,
    }
}

impl Workflow {
    /// A fresh run of the round-trip over `config`: nothing done yet.
    pub fn new(config: Config) -> (w: Workflow)
        ensures
            w.config == config,
            w.phase == Phase::Init,
            w.retrieved is None,
    {
        Workflow { config, phase: Phase::Init, retrieved: None }
    }

    /// The operation to perform next, or nothing once the run is done.
    pub fn next_action(&self) -> (r: Option<Action>)
        ensures
            is_next_action(*self, r),
    {
        match &self.phase {
            Phase::Init => Some(Action::Wait(self.config.delay_seconds)),
            Phase::Ready => Some(Action::Connect(self.config.address.clone())),
            Phase::Connected => Some(
                Action::Save(
                    self.config.store_name.clone(),
                    self.config.key.clone(),
                    copy_bytes(&self.config.value),
                ),
            ),
            Phase::Saved => Some(
                Action::Get(self.config.store_name.clone(), self.config.key.clone()),
            ),
            Phase::Retrieved => Some(
                Action::Delete(self.config.store_name.clone(), self.config.key.clone()),
            ),
            Phase::Deleted => Some(
                Action::Get(self.config.store_name.clone(), self.config.key.clone()),
            ),
            Phase::Done(_) => None,
        }
    }

    /// Advance by one step on the pending operation's result.
    pub fn step(&mut self, e: Event)
        requires
            expected_event(old(self).phase, e),
        ensures
            *final(self) == spec_step(*old(self), e),
    {
        match e {
            Event::Waited => {
                self.phase = Phase::Ready;
            },
            Event::ConnectOk => {
                self.phase = Phase::Connected;
            },
            Event::ConnectFailed(d) => {
                self.phase = Phase::Done(
                    Outcome::Fatal(StoreError { kind: ErrorKind::Connection, detail: d }),
                );
            },
            Event::SaveOk => {
                self.phase = Phase::Saved;
            },
            Event::SaveFailed(d) => {
                self.phase = Phase::Done(
                    Outcome::Fatal(StoreError { kind: ErrorKind::Save, detail: d }),
                );
            },
            Event::GetOk(v) => {
                match &self.phase {
                    Phase::Saved => {
                        self.retrieved = Some(v);
                        self.phase = Phase::Retrieved;
                    },
                    _ => {
                        if v.is_empty() {
                            self.phase = Phase::Done(Outcome::Success);
                        } else {
                            self.phase = Phase::Done(Outcome::SoftWarning);
                        }
                    },
                }
            },
            Event::GetFailed(d) => {
                self.phase = Phase::Done(
                    Outcome::Fatal(StoreError { kind: ErrorKind::Get, detail: d }),
                );
            },
            Event::DeleteOk => {
                self.phase = Phase::Deleted;
            },
            Event::DeleteFailed(d) => {
                self.phase = Phase::Done(
                    Outcome::Fatal(StoreError { kind: ErrorKind::Delete, detail: d }),
                );
            },
        }
    }
}

impl Outcome {
    /// The process exit code a run maps to: zero on success and on the
    /// advisory soft warning, non-zero only on a fatal failure.
    pub fn exit_code(&self) -> (c: i32)
        ensures
            c == 0 <==> !(*self is Fatal),
            *self is Fatal ==> c == 1,
    {
        match self {
            Outcome::Fatal(_) => 1,
            _ => 0,
        }
    }
}

/// A failed connection ends the run at once: the workflow is terminal with
/// a fatal connection error carrying the transport detail, and it requests
/// no further operation — in particular no save, get or delete.
pub proof fn lemma_connect_failure_terminates(w: Workflow, d: String, r: Option<Action>)
    requires
        w.phase == Phase::Ready,
        is_next_action(spec_step(w, Event::ConnectFailed(d)), r),
    ensures
        spec_step(w, Event::ConnectFailed(d)).phase == Phase::Done(
            Outcome::Fatal(StoreError { kind: ErrorKind::Connection, detail: d }),
        ),
        r is None,
{
}

/// A failed save ends the run at once: the workflow is terminal with a
/// fatal save error, and it requests no further operation — the get and
/// the delete are never asked for.
pub proof fn lemma_save_failure_terminates(w: Workflow, d: String, r: Option<Action>)
    requires
        w.phase == Phase::Connected,
        is_next_action(spec_step(w, Event::SaveFailed(d)), r),
    ensures
        spec_step(w, Event::SaveFailed(d)).phase == Phase::Done(
            Outcome::Fatal(StoreError { kind: ErrorKind::Save, detail: d }),
        ),
        r is None,
{
}

/// Run the whole round-trip against an in-memory store: every remote
/// operation is played by `store`, so no step can fail in transport. The
/// run always succeeds: the first read returns exactly the configured
/// value, the confirmation read finds the key gone, and the store is left
/// as it was except that the configured key is absent.
pub fn run_roundtrip_local(config: Config, store: &mut MemoryStore) -> (r: (Outcome, Option<
    Vec<u8>,
>))
    requires
        old(store).wf(),
        config.wf(),
    ensures
        r.0 is Success,
        r.1 matches Some(v) && v@ == config.value@,
        final(store).wf(),
        final(store)@ == old(store)@.remove(config.key@),
{
    let ghost k = config.key@;
    let mut w = Workflow::new(config);
    w.step(Event::Waited);
    w.step(Event::ConnectOk);
    match w.next_action() {
        Some(Action::Save(_, key, value)) => {
            store.save(key, value);
            w.step(Event::SaveOk);
        },
        _ => unreached(),
    }
    match w.next_action() {
        Some(Action::Get(_, key)) => {
            let v1 = store.get(&key);
            w.step(Event::GetOk(v1));
        },
        _ => unreached(),
    }
    match w.next_action() {
        Some(Action::Delete(_, key)) => {
            store.delete(&key);
            w.step(Event::DeleteOk);
        },
        _ => unreached(),
    }
    match w.next_action() {
        Some(Action::Get(_, key)) => {
            let v2 = store.get(&key);
            w.step(Event::GetOk(v2));
        },
        _ => unreached(),
    }
    proof {
        assert(store@ =~= old(store)@.remove(k));
    }
    match w.phase {
        Phase::Done(o) => (o, w.retrieved),
        _ => unreached(),
    }
}

} // verus!
