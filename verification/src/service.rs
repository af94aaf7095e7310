//! The service-facing wiring of the registry: the three samples the sidecar
//! registers at startup, the request counter hook, and the exposition body.
//!
//! The embedding HTTP layer owns the mutual-exclusion domain around an
//! `AppMetrics` value; every handler works on it under that lock and hands
//! plain strings back.

use vstd::prelude::*;
use vstd::string::StringExecFns;

use crate::expose::encode;
use crate::expose::encode_seq;
use crate::expose::models;
use crate::registry::counter_add;
use crate::registry::counter_of;
use crate::registry::gauge_of;
use crate::registry::MetricValue;
use crate::registry::MetricKind;
use crate::registry::Registry;
use crate::registry::SampleModel;

verus! {

/// The samples the service registers at startup, in registration order:
/// the request counter, then the memory and CPU gauges.
pub open spec fn initial_samples() -> Seq<SampleModel> {
    seq![
        (SampleModel {
            name: "http_requests_total"@,
            help: "Number of HTTP requests"@,
            value: MetricValue::Counter(0),
        }),
        (SampleModel {
            name: "app_memory_bytes"@,
            help: "Memory used by the app in bytes"@,
            value: MetricValue::Gauge(0),
        }),
        (SampleModel {
            name: "app_cpu_percent"@,
            help: "CPU usage percent of the app"@,
            value: MetricValue::Gauge(0),
        }),
    ]
}

/// The acknowledgement body of the instrumented index route.
pub open spec fn ack_body() -> Seq<char> {
    "Hello! This request was counted."@
}

/// The registry of this service together with the handles of its three
/// standard samples, created once at startup.
pub struct AppMetrics {
    registry: Registry,
    request_counter: usize,
    memory_gauge: usize,
    cpu_gauge: usize,
}

impl AppMetrics {
    /// The registry holds exactly the three standard samples, under their
    /// registration names, with the kinds they were registered with.
    pub closed spec fn wf(&self) -> bool {
        &&& self.registry.wf()
        &&& self.registry@.len() == 3
        &&& self.request_counter == 0
        &&& self.memory_gauge == 1
        &&& self.cpu_gauge == 2
        &&& self.registry@[0].name == initial_samples()[0].name
        &&& self.registry@[0].help == initial_samples()[0].help
        &&& self.registry@[0].value is Counter
        &&& self.registry@[1].name == initial_samples()[1].name
        &&& self.registry@[1].help == initial_samples()[1].help
        &&& self.registry@[1].value is Gauge
        &&& self.registry@[2].name == initial_samples()[2].name
        &&& self.registry@[2].help == initial_samples()[2].help
        &&& self.registry@[2].value is Gauge
    }

    /// The current models of the registered samples, in order.
    pub closed spec fn samples(&self) -> Seq<SampleModel> {
        self.registry@
    }

    /// The current request count.
    pub closed spec fn requests(&self) -> u64 {
        counter_of(self.registry@[0].value)
    }

    /// The current memory gauge content, in thousandths of a megabyte.
    pub closed spec fn memory_gauge_milli(&self) -> i64 {
        gauge_of(self.registry@[1].value)
    }

    /// The current CPU gauge content, in thousandths of a percent.
    pub closed spec fn cpu_gauge_milli(&self) -> i64 {
        gauge_of(self.registry@[2].value)
    }

    /// Builds the registry and registers the three standard samples.
    /// The names are distinct, so registration cannot fail.
    pub fn new() -> (r: AppMetrics)
        ensures
            r.wf(),
            r.samples() =~= initial_samples(),
            r.requests() == 0,
            r.memory_gauge_milli() == 0,
            r.cpu_gauge_milli() == 0,
    {
        proof {
            reveal_strlit("http_requests_total");
            reveal_strlit("app_memory_bytes");
            reveal_strlit("app_cpu_percent");
            assert("http_requests_total"@.len() == 19);
            assert("app_memory_bytes"@.len() == 16);
            assert("app_cpu_percent"@.len() == 15);
        }
        let mut registry = Registry::new();
        let request_counter = match registry.register(
            String::from_str("http_requests_total"),
            String::from_str("Number of HTTP requests"),
            MetricKind::Counter,
        ) {
            Ok(h) => h,
            Err(_) => {
                proof {
                    assert(false);
                }
                0
            },
        };
        let memory_gauge = match registry.register(
            String::from_str("app_memory_bytes"),
            String::from_str("Memory used by the app in bytes"),
            MetricKind::Gauge,
        ) {
            Ok(h) => h,
            Err(_) => {
                proof {
                    assert(false);
                }
                0
            },
        };
        let cpu_gauge = match registry.register(
            String::from_str("app_cpu_percent"),
            String::from_str("CPU usage percent of the app"),
            MetricKind::Gauge,
        ) {
            Ok(h) => h,
            Err(_) => {
                proof {
                    assert(false);
                }
                0
            },
        };
        AppMetrics { registry, request_counter, memory_gauge, cpu_gauge }
    }

    /// The request counter hook: counts one inbound request before the
    /// acknowledgement body is handed back to the HTTP layer. Touches no
    /// other sample.
    pub fn handle_request(&mut self) -> (body: String)
        requires
            old(self).wf(),
        ensures
            final(self).wf(),
            final(self).requests() == counter_add(old(self).requests(), 1),
            final(self).samples() =~= old(self).samples().update(
                0,
                (SampleModel {
                    value: MetricValue::Counter(counter_add(old(self).requests(), 1)),
                    ..old(self).samples()[0]
                }),
            ),
            body@ == ack_body(),
    {
        self.registry.increment_counter(self.request_counter, 1);
        String::from_str("Hello! This request was counted.")
    }

    /// Folds one resource reading into the two gauges, last write wins.
    /// Touches no other sample.
    pub fn set_resource_gauges(&mut self, memory_milli_mb: i64, cpu_milli_percent: i64)
        requires
            old(self).wf(),
        ensures
            final(self).wf(),
            final(self).requests() == old(self).requests(),
            final(self).memory_gauge_milli() == memory_milli_mb,
            final(self).cpu_gauge_milli() == cpu_milli_percent,
            final(self).samples() =~= old(self).samples().update(
                1,
                (SampleModel {
                    value: MetricValue::Gauge(memory_milli_mb),
                    ..old(self).samples()[1]
                }),
            ).update(
                2,
                (SampleModel {
                    value: MetricValue::Gauge(cpu_milli_percent),
                    ..old(self).samples()[2]
                }),
            ),
    {
        self.registry.set_gauge(self.memory_gauge, memory_milli_mb);
        self.registry.set_gauge(self.cpu_gauge, cpu_milli_percent);
    }

    /// The exposition endpoint's body: takes one atomic snapshot and
    /// encodes it. Never mutates the registry.
    pub fn render(&self) -> (out: String)
        ensures
            out@ =~= encode_seq(self.samples()),
    {
        let snap = self.registry.snapshot();
        let out = encode(&snap);
        proof {
            assert(models(snap@) =~= self.registry@);
        }
        out
    }
}

} // verus!
