//! The metrics registry: the shared container of counters and gauges.
//!
//! A registry is an ordered collection of named samples with unique names.
//! Registration happens once at startup; after that, request handlers and
//! the resource sampler mutate sample values through handles, and the
//! exposition endpoint reads a snapshot of every sample at once.
//!
//! Gauge values are fixed-point numbers counted in thousandths, so a gauge
//! holding `2500` stands for `2.5`. This keeps every value in the registry
//! an integer while still allowing fractional readings.

use vstd::prelude::*;

verus! {

/// The two kinds of metric sample.
#[derive(Clone, Copy, PartialEq, Eq, Structural, Debug)]
pub enum MetricKind {
    Counter,
    Gauge,
}

/// The current value of one sample. A counter is a monotonically
/// non-decreasing integer; a gauge is a last-write-wins fixed-point number
/// counted in thousandths.
#[derive(Clone, Copy, PartialEq, Eq, Structural, Debug)]
pub enum MetricValue {
    Counter(u64),
    Gauge(i64),
}

impl MetricValue {
    /// The kind of sample this value belongs to.
    pub fn kind(&self) -> (k: MetricKind)
        ensures
            k == self.spec_kind(),
    {
        match self {
            MetricValue::Counter(_) => MetricKind::Counter,
            MetricValue::Gauge(_) => MetricKind::Gauge,
        }
    }

    pub open spec fn spec_kind(self) -> MetricKind {
        match self {
            MetricValue::Counter(_) => MetricKind::Counter,
            MetricValue::Gauge(_) => MetricKind::Gauge,
        }
    }
}

/// The numeric content of a counter value; zero on a gauge.
pub open spec fn counter_of(v: MetricValue) -> u64 {
    match v {
        MetricValue::Counter(c) => c,
        MetricValue::Gauge(_) => 0,
    }
}

/// The numeric content of a gauge value in thousandths; zero on a counter.
pub open spec fn gauge_of(v: MetricValue) -> i64 {
    match v {
        MetricValue::Counter(_) => 0,
        MetricValue::Gauge(g) => g,
    }
}

/// Saturating addition on counter values: a counter never wraps backwards.
pub open spec fn counter_add(c: u64, delta: u64) -> u64 {
    if c + delta <= u64::MAX {
        (c + delta) as u64
    } else {
        u64::MAX
    }
}

/// The counter content after `k` unit increments starting from `c`.
pub open spec fn counter_after(c: u64, k: nat) -> u64
    decreases k,
{
    if k == 0 {
        c
    } else {
        counter_add(counter_after(c, (k - 1) as nat), 1)
    }
}

/// Law (no lost updates): every unit increment takes a counter from `v` to
/// `counter_add(v, 1)`, and the registry's mutual-exclusion domain makes
/// concurrent calls take effect one after another; so any sequence of `k`
/// unit increments starting from a zero counter leaves it at exactly `k`.
pub proof fn lemma_unit_increments_count(k: nat)
    requires
        k <= u64::MAX,
    ensures
        counter_after(0, k) == k,
    decreases k,
{
    if k > 0 {
        lemma_unit_increments_count((k - 1) as nat);
    }
}

/// The mathematical model of one registered sample.
pub struct SampleModel {
    pub name: Seq<char>,
    pub help: Seq<char>,
    pub value: MetricValue,
}

/// One registered sample: a stable name, a human-readable description and
/// the current value. Name and description are fixed at registration time.
pub struct MetricSample {
    name: String,
    help: String,
    value: MetricValue,
}

impl View for MetricSample {
    type V = SampleModel;

    closed spec fn view(&self) -> SampleModel {
        SampleModel { name: self.name@, help: self.help@, value: self.value }
    }
}

impl MetricSample {
    /// The sample's name.
    pub fn name(&self) -> (r: &String)
        ensures
            r@ == self@.name,
    {
        &self.name
    }

    /// The sample's description.
    pub fn help(&self) -> (r: &String)
        ensures
            r@ == self@.help,
    {
        &self.help
    }

    /// The sample's current value.
    pub fn value(&self) -> (r: MetricValue)
        ensures
            r == self@.value,
    {
        self.value
    }
}

/// The error raised when a second sample is registered under a name that is
/// already taken. Duplicate registration is a startup-time configuration
/// error, never a request-time one.
#[derive(Clone, Copy, PartialEq, Eq, Structural, Debug)]
pub enum RegistryError {
    DuplicateName,
}

/// True when some sample in `s` carries the name `name`.
pub open spec fn spec_has_name(s: Seq<SampleModel>, name: Seq<char>) -> bool {
    exists|i: int| 0 <= i < s.len() && s[i].name == name
}

/// No two samples of `s` share a name.
pub open spec fn unique_names(s: Seq<SampleModel>) -> bool {
    forall|i: int, j: int| 0 <= i < j < s.len() ==> s[i].name != s[j].name
}

proof fn lemma_unique_names_push(s: Seq<SampleModel>, v: SampleModel)
    requires
        unique_names(s),
        !spec_has_name(s, v.name),
    ensures
        unique_names(s.push(v)),
{
    let t = s.push(v);
    assert forall|i: int, j: int| 0 <= i < j < t.len() implies t[i].name != t[j].name by {
        if j == s.len() {
            assert(t[i] == s[i]);
            assert(t[j] == v);
        } else {
            assert(t[i] == s[i]);
            assert(t[j] == s[j]);
        }
    }
}

proof fn lemma_unique_names_update(s: Seq<SampleModel>, k: int, v: SampleModel)
    requires
        unique_names(s),
        0 <= k < s.len(),
        v.name == s[k].name,
    ensures
        unique_names(s.update(k, v)),
{
    let t = s.update(k, v);
    assert forall|i: int, j: int| 0 <= i < j < t.len() implies t[i].name != t[j].name by {
        assert(t[i].name == s[i].name);
        assert(t[j].name == s[j].name);
    }
}

/// The value a sample starts from: counters at zero, gauges at zero.
pub open spec fn initial_value(kind: MetricKind) -> MetricValue {
    match kind {
        MetricKind::Counter => MetricValue::Counter(0),
        MetricKind::Gauge => MetricValue::Gauge(0),
    }
}

/// The ordered collection of samples, keyed by unique name.
///
/// All concurrent access is mediated by a single mutual-exclusion domain
/// owned by the embedding service; every method here works on the registry
/// under that lock, and every critical section is free of I/O.
pub struct Registry {
    samples: Vec<MetricSample>,
}

impl View for Registry {
    type V = Seq<SampleModel>;

    closed spec fn view(&self) -> Seq<SampleModel> {
        self.samples@.map(|i: int, s: MetricSample| s@)
    }
}

impl Registry {
    /// No two samples share a name.
    pub open spec fn wf(&self) -> bool {
        unique_names(self@)
    }

    /// An empty registry, created once at process startup.
    pub fn new() -> (r: Registry)
        ensures
            r.wf(),
            r@ =~= Seq::<SampleModel>::empty(),
    {
        Registry { samples: Vec::new() }
    }

    /// How many samples are registered.
    pub fn len(&self) -> (n: usize)
        ensures
            n == self@.len(),
    {
        self.samples.len()
    }

    fn contains_name(&self, name: &String) -> (r: bool)
        ensures
            r == spec_has_name(self@, name@),
    {
        let n = self.samples.len();
        let mut i: usize = 0;
        while i < n
            invariant
                n == self@.len(),
                i <= n,
                forall|j: int| 0 <= j < i ==> self@[j].name != name@,
            decreases n - i,
        {
            if self.samples[i].name == *name {
                assert(self@[i as int].name == name@);
                return true;
            }
            i += 1;
        }
        false
    }

    /// Registers a new sample. Fails with a duplicate-name error, leaving
    /// the registry untouched, exactly when the name is already taken;
    /// otherwise appends the sample at its initial value and returns the
    /// handle through which the sample is mutated from then on.
    pub fn register(&mut self, name: String, help: String, kind: MetricKind) -> (r: Result<
        usize,
        RegistryError,
    >)
        requires
            old(self).wf(),
        ensures
            final(self).wf(),
            match r {
                Ok(h) => {
                    &&& !spec_has_name(old(self)@, name@)
                    &&& h == old(self)@.len()
                    &&& final(self)@ =~= old(self)@.push(
                        (SampleModel { name: name@, help: help@, value: initial_value(kind) }),
                    )
                },
                Err(e) => {
                    &&& e == RegistryError::DuplicateName
                    &&& spec_has_name(old(self)@, name@)
                    &&& final(self)@ =~= old(self)@
                },
            },
    {
        if self.contains_name(&name) {
            Err(RegistryError::DuplicateName)
        } else {
            let ghost gname = name@;
            let ghost ghelp = help@;
            let value = match kind {
                MetricKind::Counter => MetricValue::Counter(0),
                MetricKind::Gauge => MetricValue::Gauge(0),
            };
            let handle = self.samples.len();
            self.samples.push(MetricSample { name, help, value });
            proof {
                let v = SampleModel { name: gname, help: ghelp, value: initial_value(kind) };
                assert(self@ =~= old(self)@.push(v));
                lemma_unique_names_push(old(self)@, v);
            }
            Ok(handle)
        }
    }

    /// Atomically adds `delta` to the counter behind `handle`, saturating at
    /// the largest representable value so the counter never wraps backwards.
    /// No other sample changes.
    pub fn increment_counter(&mut self, handle: usize, delta: u64)
        requires
            old(self).wf(),
            handle < old(self)@.len(),
            old(self)@[handle as int].value is Counter,
        ensures
            final(self).wf(),
            final(self)@ =~= old(self)@.update(
                handle as int,
                (SampleModel {
                    value: MetricValue::Counter(
                        counter_add(counter_of(old(self)@[handle as int].value), delta),
                    ),
                    ..old(self)@[handle as int]
                }),
            ),
    {
        let c = match self.samples[handle].value {
            MetricValue::Counter(c) => c,
            MetricValue::Gauge(_) => {
                proof {
                    assert(false);
                }
                0
            },
        };
        let nv = if c <= u64::MAX - delta {
            c + delta
        } else {
            u64::MAX
        };
        self.samples[handle].value = MetricValue::Counter(nv);
        proof {
            let v = SampleModel {
                value: MetricValue::Counter(nv),
                ..old(self)@[handle as int]
            };
            assert(self@ =~= old(self)@.update(handle as int, v));
            lemma_unique_names_update(old(self)@, handle as int, v);
        }
    }

    /// Atomically overwrites the gauge behind `handle` with `value`
    /// (last write wins), counted in thousandths. No other sample changes.
    pub fn set_gauge(&mut self, handle: usize, value: i64)
        requires
            old(self).wf(),
            handle < old(self)@.len(),
            old(self)@[handle as int].value is Gauge,
        ensures
            final(self).wf(),
            final(self)@ =~= old(self)@.update(
                handle as int,
                (SampleModel {
                    value: MetricValue::Gauge(value),
                    ..old(self)@[handle as int]
                }),
            ),
    {
        self.samples[handle].value = MetricValue::Gauge(value);
        proof {
            let v = SampleModel {
                value: MetricValue::Gauge(value),
                ..old(self)@[handle as int]
            };
            assert(self@ =~= old(self)@.update(handle as int, v));
            lemma_unique_names_update(old(self)@, handle as int, v);
        }
    }

    /// Atomically captures the current name, description, kind and value of
    /// every registered sample, in registration order. Never mutates the
    /// registry; a concurrent gauge or counter update is either fully
    /// visible or fully absent, never mixed, because every snapshot is
    /// taken under the same mutual-exclusion domain as every write.
    pub fn snapshot(&self) -> (r: Vec<MetricSample>)
        ensures
            r@.len() == self@.len(),
            forall|i: int| 0 <= i < r@.len() ==> r@[i]@ == self@[i],
    {
        let n = self.samples.len();
        let mut out: Vec<MetricSample> = Vec::new();
        let mut i: usize = 0;
        while i < n
            invariant
                n == self@.len(),
                i <= n,
                out@.len() == i,
                forall|j: int| 0 <= j < i ==> out@[j]@ == self@[j],
            decreases n - i,
        {
            let s = &self.samples[i];
            out.push(MetricSample { name: s.name.clone(), help: s.help.clone(), value: s.value });
            i += 1;
        }
        out
    }
}


/// Law (snapshot atomicity): a snapshot taken around a gauge write shows
/// either the registry exactly as it was before the write or exactly as it
/// is after; in the latter case the write is complete — the new content
/// under the untouched name and description — and every other sample is
/// the same either way: no snapshot observes a partially-applied update.
pub proof fn lemma_snapshot_gauge_atomic(
    s: Seq<SampleModel>,
    h: int,
    value: i64,
    snap: Seq<SampleModel>,
)
    requires
        0 <= h < s.len(),
        snap == s || snap == s.update(
            h,
            (SampleModel { value: MetricValue::Gauge(value), ..s[h] }),
        ),
    ensures
        snap.len() == s.len(),
        forall|i: int| 0 <= i < s.len() && i != h ==> snap[i] == s[i],
        snap[h].name == s[h].name,
        snap[h].help == s[h].help,
        snap[h].value == s[h].value || snap[h].value == MetricValue::Gauge(value),
{
}

} // verus!
