//! The lifecycle state machine of the push export providers.
//!
//! One provider exists per telemetry signal (logs, traces, metrics). Each is
//! built from an exporter, a batching strategy and the shared resource
//! identity, and moves through uninitialized, active, draining and
//! terminated states. The embedding runtime performs the real exporter
//! construction, flush I/O and timeouts; this module owns every decision:
//! when records are accepted, what a shutdown must drain, and that one
//! provider's shutdown never touches another's state.

use vstd::prelude::*;

verus! {

/// The telemetry signal a provider carries.
#[derive(Clone, Copy, PartialEq, Eq, Structural, Debug)]
pub enum SignalKind {
    Logs,
    Traces,
    Metrics,
}

/// A provider's lifecycle state.
#[derive(Clone, Copy, PartialEq, Eq, Structural, Debug)]
pub enum ProviderState {
    /// Not yet constructed: nothing is accepted.
    Uninitialized,
    /// Constructed, background flushing running: records are accepted.
    Active,
    /// Shutdown requested: no new records; buffered ones are being drained.
    Draining,
    /// Drain finished (delivered or failed permanently): everything is
    /// rejected from now on and no retry crosses this boundary.
    Terminated,
}

/// The error of a failed provider construction (a malformed endpoint, a
/// rejected configuration): fatal at startup.
#[derive(Clone, Copy, PartialEq, Eq, Structural, Debug)]
pub enum ProviderError {
    Construction,
}

/// The process-wide descriptive label set attached to every exported
/// signal: created once, immutable, shared by the three providers.
pub struct ResourceIdentity {
    service_name: String,
}

impl ResourceIdentity {
    pub closed spec fn spec_service_name(&self) -> Seq<char> {
        self.service_name@
    }

    /// Fixes the service name once, at startup.
    pub fn new(service_name: String) -> (r: ResourceIdentity)
        ensures
            r.spec_service_name() == service_name@,
    {
        ResourceIdentity { service_name }
    }

    /// The immutable service-name label.
    pub fn service_name(&self) -> (r: &String)
        ensures
            r@ == self.spec_service_name(),
    {
        &self.service_name
    }
}

/// One push export provider: its lifecycle state and how many accepted
/// records still wait in its batching buffer.
pub struct Provider {
    state: ProviderState,
    buffered: u64,
}

/// A provider after a completed shutdown: terminated, nothing buffered.
pub closed spec fn spec_shutdown(p: Provider) -> Provider {
    Provider { state: ProviderState::Terminated, buffered: 0 }
}

impl Provider {
    pub closed spec fn spec_state(&self) -> ProviderState {
        self.state
    }

    /// How many accepted records are still buffered.
    pub closed spec fn spec_buffered(&self) -> u64 {
        self.buffered
    }

    /// A provider accepts records only while active.
    pub open spec fn accepting(&self) -> bool {
        self.spec_state() == ProviderState::Active
    }

    /// The current lifecycle state.
    pub fn state(&self) -> (s: ProviderState)
        ensures
            s == self.spec_state(),
    {
        self.state
    }

    /// How many accepted records are still buffered.
    pub fn buffered(&self) -> (n: u64)
        ensures
            n == self.spec_buffered(),
    {
        self.buffered
    }

    /// A provider that has not been constructed yet.
    pub fn new() -> (p: Provider)
        ensures
            p.spec_state() == ProviderState::Uninitialized,
            p.spec_buffered() == 0,
    {
        Provider { state: ProviderState::Uninitialized, buffered: 0 }
    }

    /// Records the outcome of the exporter construction the runtime
    /// performed. Success activates the provider and starts accepting
    /// records; failure is reported as a fatal startup error and leaves
    /// the provider uninitialized.
    pub fn activate(&mut self, construction_ok: bool) -> (r: Result<(), ProviderError>)
        requires
            old(self).spec_state() == ProviderState::Uninitialized,
        ensures
            final(self).spec_buffered() == old(self).spec_buffered(),
            r is Ok <==> construction_ok,
            construction_ok ==> final(self).spec_state() == ProviderState::Active,
            !construction_ok ==> final(self).spec_state() == ProviderState::Uninitialized
                && r == Result::<(), ProviderError>::Err(ProviderError::Construction),
    {
        if construction_ok {
            self.state = ProviderState::Active;
            Ok(())
        } else {
            Err(ProviderError::Construction)
        }
    }

    /// Offers one telemetry record. It is accepted — buffered for the next
    /// flush — exactly while the provider is active; after shutdown has
    /// begun the record is dropped and rejection is reported.
    pub fn record(&mut self) -> (accepted: bool)
        ensures
            accepted == old(self).accepting(),
            final(self).spec_state() == old(self).spec_state(),
            accepted ==> final(self).spec_buffered() == crate::registry::counter_add(
                old(self).spec_buffered(),
                1,
            ),
            !accepted ==> final(self).spec_buffered() == old(self).spec_buffered(),
    {
        match self.state {
            ProviderState::Active => {
                if self.buffered <= u64::MAX - 1 {
                    self.buffered = self.buffered + 1;
                }
                true
            },
            _ => false,
        }
    }

    /// Requests shutdown: the provider stops accepting records and reports
    /// how many buffered records the runtime must now try to deliver within
    /// the drain timeout. Asking a provider that is already terminated (or
    /// never constructed) to drain is safe and drains nothing.
    pub fn begin_shutdown(&mut self) -> (to_drain: u64)
        ensures
            final(self).spec_buffered() == old(self).spec_buffered(),
            old(self).spec_state() == ProviderState::Active ==> final(self).spec_state()
                == ProviderState::Draining && to_drain == old(self).spec_buffered(),
            old(self).spec_state() != ProviderState::Active ==> final(self).spec_state() == (if old(
                self,
            ).spec_state() == ProviderState::Draining {
                ProviderState::Draining
            } else {
                ProviderState::Terminated
            }) && to_drain == 0,
    {
        match self.state {
            ProviderState::Active => {
                self.state = ProviderState::Draining;
                self.buffered
            },
            ProviderState::Draining => 0,
            _ => {
                self.state = ProviderState::Terminated;
                0
            },
        }
    }

    /// Records the drain outcome the runtime observed (full delivery, or a
    /// timeout-induced partial failure): either way the provider terminates,
    /// nothing stays buffered, and no retry happens past this point.
    pub fn finish_drain(&mut self, _delivered_ok: bool)
        ensures
            *final(self) == spec_shutdown(*old(self)),
            final(self).spec_state() == ProviderState::Terminated,
            final(self).spec_buffered() == 0,
    {
        self.state = ProviderState::Terminated;
        self.buffered = 0;
    }
}

/// The three independent providers, one per signal. They share no mutable
/// state: each field changes only through its own provider's methods.
pub struct Pipeline {
    pub logs: Provider,
    pub traces: Provider,
    pub metrics: Provider,
}

/// The pipeline after one provider's full shutdown (request plus drain):
/// only that provider changes.
pub open spec fn spec_shutdown_one(p: Pipeline, which: SignalKind) -> Pipeline {
    match which {
        SignalKind::Logs => Pipeline { logs: spec_shutdown(p.logs), ..p },
        SignalKind::Traces => Pipeline { traces: spec_shutdown(p.traces), ..p },
        SignalKind::Metrics => Pipeline { metrics: spec_shutdown(p.metrics), ..p },
    }
}

/// The pipeline after full shutdowns in the given order.
pub open spec fn spec_shutdown_seq(p: Pipeline, order: Seq<SignalKind>) -> Pipeline
    decreases order.len(),
{
    if order.len() == 0 {
        p
    } else {
        spec_shutdown_seq(spec_shutdown_one(p, order[0]), order.drop_first())
    }
}

/// The pipeline with all three providers shut down.
pub open spec fn spec_shutdown_all(p: Pipeline) -> Pipeline {
    Pipeline {
        logs: spec_shutdown(p.logs),
        traces: spec_shutdown(p.traces),
        metrics: spec_shutdown(p.metrics),
    }
}

impl Pipeline {
    /// Three unconstructed providers.
    pub fn new() -> (p: Pipeline)
        ensures
            p.logs.spec_state() == ProviderState::Uninitialized,
            p.traces.spec_state() == ProviderState::Uninitialized,
            p.metrics.spec_state() == ProviderState::Uninitialized,
    {
        Pipeline { logs: Provider::new(), traces: Provider::new(), metrics: Provider::new() }
    }

    /// Fully shuts one provider down (request plus drain bookkeeping) and
    /// reports how many buffered records the runtime must deliver. The
    /// other two providers are untouched, so no shutdown blocks another.
    pub fn shutdown_one(&mut self, which: SignalKind) -> (to_drain: u64)
        ensures
            *final(self) == spec_shutdown_one(*old(self), which),
            to_drain == (match which {
                SignalKind::Logs => if old(self).logs.spec_state() == ProviderState::Active {
                    old(self).logs.spec_buffered()
                } else {
                    0
                },
                SignalKind::Traces => if old(self).traces.spec_state() == ProviderState::Active {
                    old(self).traces.spec_buffered()
                } else {
                    0
                },
                SignalKind::Metrics => if old(self).metrics.spec_state() == ProviderState::Active {
                    old(self).metrics.spec_buffered()
                } else {
                    0
                },
            }),
    {
        let to_drain = match which {
            SignalKind::Logs => {
                let n = self.logs.begin_shutdown();
                self.logs.finish_drain(true);
                n
            },
            SignalKind::Traces => {
                let n = self.traces.begin_shutdown();
                self.traces.finish_drain(true);
                n
            },
            SignalKind::Metrics => {
                let n = self.metrics.begin_shutdown();
                self.metrics.finish_drain(true);
                n
            },
        };
        to_drain
    }
}

/// Law: provider shutdown is order-independent. Shutting down the three
/// providers in any permutation — metrics, then traces, then logs, or any
/// other — ends with every provider terminated and empty, and the result
/// does not depend on the order, because one provider's shutdown never
/// touches another provider's state.
pub proof fn lemma_shutdown_any_order(p: Pipeline, order: Seq<SignalKind>)
    requires
        order.len() == 3,
        order.contains(SignalKind::Logs),
        order.contains(SignalKind::Traces),
        order.contains(SignalKind::Metrics),
    ensures
        spec_shutdown_seq(p, order) == spec_shutdown_all(p),
{
    let i = choose|i: int| 0 <= i < 3 && order[i] == SignalKind::Logs;
    let j = choose|j: int| 0 <= j < 3 && order[j] == SignalKind::Traces;
    let k = choose|k: int| 0 <= k < 3 && order[k] == SignalKind::Metrics;
    assert(i != j && j != k && i != k);
    let o1 = order.drop_first();
    let o2 = o1.drop_first();
    let o3 = o2.drop_first();
    assert(o3 =~= Seq::<SignalKind>::empty());
    assert(o1[0] == order[1] && o2[0] == order[2]);
    let q1 = spec_shutdown_one(p, order[0]);
    let q2 = spec_shutdown_one(q1, order[1]);
    let q3 = spec_shutdown_one(q2, order[2]);
    assert(spec_shutdown_seq(p, order) == spec_shutdown_seq(q1, o1));
    assert(spec_shutdown_seq(q1, o1) == spec_shutdown_seq(q2, o2));
    assert(spec_shutdown_seq(q2, o2) == spec_shutdown_seq(q3, o3));
    assert(spec_shutdown_seq(q3, o3) == q3);
}

/// Law: shutting a provider down twice is the same as shutting it down
/// once: the second request finds it terminated and drains nothing.
pub proof fn lemma_shutdown_idempotent(p: Pipeline, which: SignalKind)
    ensures
        spec_shutdown_one(spec_shutdown_one(p, which), which) == spec_shutdown_one(p, which),
{
}

} // verus!
