use vstd::prelude::*;

verus! {

/// Whether an iteration redraws its coordinates or perturbs them.
#[derive(Clone, Copy, Debug, PartialEq, Eq, Structural)]
pub enum MutationType {
    LargeStep,
    SmallStep,
}

/// One coordinate of primary sample space with its transaction log entry:
/// the value and the iteration that last changed it, and the pair as it
/// stood before that change.
#[derive(Debug)]
pub struct Sample<V> {
    pub value: V,
    pub backup_value: V,
    pub modified_at: u64,
    pub backup_modified_at: u64,
}

/// A freshly created coordinate, stamped at iteration zero.
pub open spec fn fresh_sample<V>(value: V) -> Sample<V> {
    Sample { value, backup_value: value, modified_at: 0, backup_modified_at: 0 }
}

/// The value of coordinate `s` once the log entry is rolled back.
pub open spec fn restored<V>(s: Sample<V>) -> Sample<V> {
    Sample { value: s.backup_value, modified_at: s.backup_modified_at, ..s }
}

/// The abstract state of a sampler.
pub ghost struct SamplerState<V> {
    pub stream_count: nat,
    pub stream_index: nat,
    pub sample_index: nat,
    pub samples: Seq<Sample<V>>,
    pub iteration: nat,
    pub large_step_at: nat,
    pub mutation_type: MutationType,
}

/// One step that a caller takes on a sampler between `mutate` and
/// `accept` or `reject`.
pub ghost enum SamplerStep<V> {
    StartStream(nat),
    Extend(V),
    CatchUp(V),
    Commit(V),
}

impl<V> SamplerState<V> {
    /// Streams are interleaved: coordinate `i` of stream `s` lives at
    /// `stream_count * i + s`.
    pub open spec fn coordinate(self) -> nat {
        self.stream_count * self.sample_index + self.stream_index
    }

    pub open spec fn wf(self) -> bool {
        &&& self.stream_count > 0
        &&& self.stream_index < self.stream_count
        &&& self.iteration <= u64::MAX
        &&& self.large_step_at <= u64::MAX
    }

    /// No coordinate is stamped ahead of the clock.
    pub open spec fn settled(self) -> bool {
        &&& self.large_step_at <= self.iteration
        &&& forall|i: int| 0 <= i < self.samples.len() ==> #[trigger] self.samples[i].modified_at
            <= self.iteration
    }

    /// The current coordinate exists and was last changed before the most
    /// recent accepted large step, so it must first take a fresh value.
    pub open spec fn is_stale(self) -> bool {
        self.samples[self.coordinate() as int].modified_at < self.large_step_at
    }

    pub open spec fn start_stream(self, index: nat) -> Self {
        SamplerState { stream_index: index, sample_index: 0, ..self }
    }

    pub open spec fn mutate(self, mutation_type: MutationType) -> Self {
        SamplerState { iteration: self.iteration + 1, mutation_type, ..self }
    }

    pub open spec fn accept(self) -> Self {
        if self.mutation_type == MutationType::LargeStep {
            SamplerState { large_step_at: self.iteration, ..self }
        } else {
            self
        }
    }

    /// Every coordinate changed in the current iteration returns to its
    /// logged value, and the clock goes back one iteration.
    pub open spec fn reject(self) -> Self {
        SamplerState {
            samples: Seq::new(
                self.samples.len(),
                |i: int|
                    if self.samples[i].modified_at == self.iteration {
                        restored(self.samples[i])
                    } else {
                        self.samples[i]
                    },
            ),
            iteration: (self.iteration - 1) as nat,
            ..self
        }
    }

    pub open spec fn extend(self, value: V) -> Self {
        SamplerState { samples: self.samples.push(fresh_sample(value)), ..self }
    }

    pub open spec fn catch_up(self, value: V) -> Self {
        let i = self.coordinate() as int;
        SamplerState {
            samples: self.samples.update(
                i,
                Sample { value, modified_at: self.large_step_at as u64, ..self.samples[i] },
            ),
            ..self
        }
    }

    pub open spec fn commit(self, value: V) -> Self {
        let i = self.coordinate() as int;
        let prev = self.samples[i];
        SamplerState {
            samples: self.samples.update(
                i,
                Sample {
                    value,
                    backup_value: prev.value,
                    modified_at: self.iteration as u64,
                    backup_modified_at: prev.modified_at,
                },
            ),
            sample_index: self.sample_index + 1,
            ..self
        }
    }

    /// What must hold for `step` to be taken.
    pub open spec fn step_ok(self, step: SamplerStep<V>) -> bool {
        match step {
            SamplerStep::StartStream(index) => index < self.stream_count,
            SamplerStep::Extend(_) => self.coordinate() >= self.samples.len(),
            SamplerStep::CatchUp(_) => self.coordinate() < self.samples.len() && self.is_stale(),
            SamplerStep::Commit(_) => self.coordinate() < self.samples.len() && !self.is_stale(),
        }
    }

    pub open spec fn step(self, step: SamplerStep<V>) -> Self {
        match step {
            SamplerStep::StartStream(index) => self.start_stream(index),
            SamplerStep::Extend(value) => self.extend(value),
            SamplerStep::CatchUp(value) => self.catch_up(value),
            SamplerStep::Commit(value) => self.commit(value),
        }
    }

    /// The state after taking `steps` in order.
    pub open spec fn run(self, steps: Seq<SamplerStep<V>>) -> Self
        decreases steps.len(),
    {
        if steps.len() == 0 {
            self
        } else {
            self.run(steps.drop_last()).step(steps.last())
        }
    }

    /// Each of `steps` may be taken where it stands, and no coordinate is
    /// committed twice in the current iteration.
    pub open spec fn run_ok(self, steps: Seq<SamplerStep<V>>) -> bool
        decreases steps.len(),
    {
        if steps.len() == 0 {
            true
        } else {
            let s = self.run(steps.drop_last());
            &&& self.run_ok(steps.drop_last())
            &&& s.step_ok(steps.last())
            &&& (steps.last() is Commit ==> s.samples[s.coordinate() as int].modified_at
                != s.iteration)
        }
    }
}


/// How coordinate `b`, seen during iteration `it`, stands against the value
/// `a` it held before the iteration began, given the last accepted large
/// step `l`: the log entry of a coordinate changed in this iteration holds
/// `a`, and any other coordinate still holds `a`, unless `a` was stale and
/// has been caught up to `l`.
spec fn logged_against<V>(a: Sample<V>, b: Sample<V>, it: nat, l: nat) -> bool {
    if b.modified_at == it {
        (b.backup_value == a.value && b.backup_modified_at == a.modified_at) || (a.modified_at < l
            && b.backup_modified_at == l)
    } else {
        (b.value == a.value && b.modified_at == a.modified_at) || (a.modified_at < l
            && b.modified_at == l)
    }
}

spec fn logged_run<V>(s: SamplerState<V>, u: SamplerState<V>) -> bool {
    &&& u.iteration == s.iteration + 1
    &&& u.large_step_at == s.large_step_at
    &&& u.stream_count == s.stream_count
    &&& u.samples.len() >= s.samples.len()
    &&& forall|i: int|
        0 <= i < s.samples.len() ==> logged_against(
            s.samples[i],
            #[trigger] u.samples[i],
            u.iteration,
            u.large_step_at,
        )
    &&& forall|i: int|
        0 <= i < u.samples.len() ==> stamped_before(#[trigger] u.samples[i], u.iteration)
}

/// Coordinate `b`, seen during iteration `it`, carries no stamp from this
/// iteration but its own, and its log entry none from this iteration.
spec fn stamped_before<V>(b: Sample<V>, it: nat) -> bool {
    if b.modified_at == it {
        b.backup_modified_at < it
    } else {
        b.modified_at < it
    }
}

proof fn lemma_run_logged<V>(
    s: SamplerState<V>,
    mutation_type: MutationType,
    steps: Seq<SamplerStep<V>>,
)
    requires
        s.settled(),
        s.iteration < u64::MAX,
        s.mutate(mutation_type).run_ok(steps),
    ensures
        logged_run(s, s.mutate(mutation_type).run(steps)),
    decreases steps.len(),
{
    let m = s.mutate(mutation_type);
    if steps.len() == 0 {
        assert forall|i: int| 0 <= i < s.samples.len() implies logged_against(
            s.samples[i],
            #[trigger] m.samples[i],
            m.iteration,
            m.large_step_at,
        ) by {
            assert(s.samples[i].modified_at <= s.iteration);
        }
        assert forall|i: int| 0 <= i < m.samples.len() implies stamped_before(
            #[trigger] m.samples[i],
            m.iteration,
        ) by {
            assert(s.samples[i].modified_at <= s.iteration);
        }
    } else {
        let prefix = steps.drop_last();
        lemma_run_logged(s, mutation_type, prefix);
        let u = m.run(prefix);
        let v = m.run(steps);
        assert(v == u.step(steps.last()));
        let l = u.large_step_at;
        let it = u.iteration;
        let c = u.coordinate() as int;
        assert forall|i: int| 0 <= i < s.samples.len() implies logged_against(
            s.samples[i],
            #[trigger] v.samples[i],
            v.iteration,
            v.large_step_at,
        ) by {
            assert(logged_against(s.samples[i], u.samples[i], it, l));
            match steps.last() {
                SamplerStep::StartStream(_) => {},
                SamplerStep::Extend(_) => {},
                SamplerStep::CatchUp(_) => {
                    if i == c {
                        assert(u.samples[i].modified_at < l);
                        assert(v.samples[i].modified_at == l);
                    }
                },
                SamplerStep::Commit(_) => {
                    if i == c {
                        assert(u.samples[i].modified_at != it);
                        assert(v.samples[i].modified_at == it);
                    }
                },
            }
        }
        assert forall|i: int| 0 <= i < v.samples.len() implies stamped_before(
            #[trigger] v.samples[i],
            v.iteration,
        ) by {
            if i < u.samples.len() {
                assert(stamped_before(u.samples[i], it));
            }
        }
    }
}

/// Rejecting a proposal undoes it. Take a settled sampler, begin an
/// iteration with `mutate`, take any valid run of steps that commits each
/// coordinate at most once, then `reject`: the clock and the last large step
/// read as before, and every coordinate that existed holds its earlier value
/// and stamp. The one exception is a coordinate that had fallen behind the
/// last accepted large step and was caught up during the run: it keeps the
/// fresh value it was owed, stamped at that large step.
pub proof fn lemma_reject_restores<V>(
    s: SamplerState<V>,
    mutation_type: MutationType,
    steps: Seq<SamplerStep<V>>,
)
    requires
        s.wf(),
        s.settled(),
        s.iteration < u64::MAX,
        s.mutate(mutation_type).run_ok(steps),
    ensures
        ({
            let t = s.mutate(mutation_type).run(steps).reject();
            &&& t.iteration == s.iteration
            &&& t.large_step_at == s.large_step_at
            &&& t.samples.len() >= s.samples.len()
            &&& t.settled()
            &&& forall|i: int|
                0 <= i < s.samples.len() && s.samples[i].modified_at >= s.large_step_at
                    ==> #[trigger] t.samples[i].value == s.samples[i].value
                    && t.samples[i].modified_at == s.samples[i].modified_at
            &&& forall|i: int|
                0 <= i < s.samples.len() && s.samples[i].modified_at < s.large_step_at
                    ==> (#[trigger] t.samples[i].value == s.samples[i].value
                    && t.samples[i].modified_at == s.samples[i].modified_at)
                    || t.samples[i].modified_at == s.large_step_at
        }),
{
    lemma_run_logged(s, mutation_type, steps);
    let u = s.mutate(mutation_type).run(steps);
    let t = u.reject();
    assert forall|i: int| 0 <= i < s.samples.len() implies logged_against(
        s.samples[i],
        u.samples[i],
        u.iteration,
        u.large_step_at,
    ) && #[trigger] t.samples[i] == (if u.samples[i].modified_at == u.iteration {
        restored(u.samples[i])
    } else {
        u.samples[i]
    }) by {}
    assert forall|i: int| 0 <= i < t.samples.len() implies #[trigger] t.samples[i].modified_at
        <= t.iteration by {
        assert(stamped_before(u.samples[i], u.iteration));
    }
}

/// Accepting a proposal leaves the sampler settled: after `mutate`, a valid
/// run of steps that commits each coordinate at most once, and `accept`, no
/// coordinate is stamped ahead of the clock, and the last large step is this
/// iteration for a large step and unchanged for a small one.
pub proof fn lemma_accept_settles<V>(
    s: SamplerState<V>,
    mutation_type: MutationType,
    steps: Seq<SamplerStep<V>>,
)
    requires
        s.wf(),
        s.settled(),
        s.iteration < u64::MAX,
        s.mutate(mutation_type).run_ok(steps),
    ensures
        ({
            let t = s.mutate(mutation_type).run(steps).accept();
            &&& t.settled()
            &&& t.iteration == s.iteration + 1
            &&& t.large_step_at == if mutation_type == MutationType::LargeStep {
                s.iteration + 1
            } else {
                s.large_step_at
            }
        }),
{
    lemma_run_logged(s, mutation_type, steps);
    lemma_run_keeps_kind(s, mutation_type, steps);
    let u = s.mutate(mutation_type).run(steps);
    let t = u.accept();
    assert forall|i: int| 0 <= i < t.samples.len() implies #[trigger] t.samples[i].modified_at
        <= t.iteration by {
        assert(stamped_before(u.samples[i], u.iteration));
    }
}

proof fn lemma_run_keeps_kind<V>(
    s: SamplerState<V>,
    mutation_type: MutationType,
    steps: Seq<SamplerStep<V>>,
)
    ensures
        s.mutate(mutation_type).run(steps).mutation_type == mutation_type,
    decreases steps.len(),
{
    if steps.len() > 0 {
        lemma_run_keeps_kind(s, mutation_type, steps.drop_last());
    }
}

/// A replayable stream of primary-sample-space coordinates.
///
/// The sampler keeps the bookkeeping of a Metropolis chain: which coordinate
/// each stream draws next, the iteration clock, and a one-entry undo log per
/// coordinate. The values themselves (uniform numbers and their
/// perturbations) are supplied by the caller.
pub struct MmltSampler<V> {
    stream_count: usize,
    stream_index: usize,
    sample_index: usize,
    samples: Vec<Sample<V>>,
    iteration: u64,
    large_step_at: u64,
    mutation_type: MutationType,
}

impl<V> View for MmltSampler<V> {
    type V = SamplerState<V>;

    closed spec fn view(&self) -> SamplerState<V> {
        SamplerState {
            stream_count: self.stream_count as nat,
            stream_index: self.stream_index as nat,
            sample_index: self.sample_index as nat,
            samples: self.samples@,
            iteration: self.iteration as nat,
            large_step_at: self.large_step_at as nat,
            mutation_type: self.mutation_type,
        }
    }
}

impl<V: Copy> MmltSampler<V> {
    pub fn new(stream_count: usize) -> (r: MmltSampler<V>)
        requires
            stream_count > 0,
        ensures
            r@.wf(),
            r@.settled(),
            r@.stream_count == stream_count,
            r@.stream_index == 0,
            r@.sample_index == 0,
            r@.samples.len() == 0,
            r@.iteration == 0,
            r@.large_step_at == 0,
            r@.mutation_type == MutationType::SmallStep,
    {
        MmltSampler {
            stream_count,
            stream_index: 0,
            sample_index: 0,
            samples: Vec::new(),
            iteration: 0,
            large_step_at: 0,
            mutation_type: MutationType::SmallStep,
        }
    }

    /// The position of the next coordinate, known to fit.
    fn index(&self) -> (r: usize)
        requires
            self@.coordinate() < usize::MAX || self@.coordinate() < self@.samples.len(),
        ensures
            r == self@.coordinate(),
    {
        let n = self.samples.len();
        proof {
            let sc = self.stream_count as int;
            let si = self.sample_index as int;
            assert(0 <= sc * si) by (nonlinear_arith)
                requires
                    sc >= 0,
                    si >= 0,
            ;
        }
        self.stream_count * self.sample_index + self.stream_index
    }

    pub fn stream_count(&self) -> (r: usize)
        ensures
            r == self@.stream_count,
    {
        self.stream_count
    }

    pub fn iteration(&self) -> (r: u64)
        ensures
            r == self@.iteration,
    {
        self.iteration
    }

    pub fn large_step_at(&self) -> (r: u64)
        ensures
            r == self@.large_step_at,
    {
        self.large_step_at
    }

    pub fn mutation_type(&self) -> (r: MutationType)
        ensures
            r == self@.mutation_type,
    {
        self.mutation_type
    }

    /// Begins a new iteration of the chain with the given kind of mutation.
    pub fn mutate(&mut self, mutation_type: MutationType)
        requires
            old(self)@.wf(),
            old(self)@.iteration < u64::MAX,
        ensures
            final(self)@ == old(self)@.mutate(mutation_type),
            final(self)@.wf(),
    {
        self.iteration = self.iteration + 1;
        self.mutation_type = mutation_type;
    }

    /// Commits the current iteration; an accepted large step becomes the
    /// point that stale coordinates catch up to.
    pub fn accept(&mut self)
        requires
            old(self)@.wf(),
        ensures
            final(self)@ == old(self)@.accept(),
            final(self)@.wf(),
    {
        if self.mutation_type == MutationType::LargeStep {
            self.large_step_at = self.iteration;
        }
    }

    /// Rolls back every coordinate changed in the current iteration and
    /// turns the clock back by one.
    pub fn reject(&mut self)
        requires
            old(self)@.wf(),
            old(self)@.iteration > 0,
        ensures
            final(self)@ == old(self)@.reject(),
            final(self)@.wf(),
    {
        let n = self.samples.len();
        let mut i: usize = 0;
        while i < n
            invariant
                0 <= i <= n,
                n == old(self)@.samples.len(),
                self.samples@.len() == n,
                self.iteration == old(self).iteration,
                self.stream_count == old(self).stream_count,
                self.stream_index == old(self).stream_index,
                self.sample_index == old(self).sample_index,
                self.large_step_at == old(self).large_step_at,
                self.mutation_type == old(self).mutation_type,
                forall|j: int|
                    0 <= j < i ==> #[trigger] self.samples@[j] == (if old(self)@.samples[j].modified_at
                        == old(self)@.iteration {
                        restored(old(self)@.samples[j])
                    } else {
                        old(self)@.samples[j]
                    }),
                forall|j: int| i <= j < n ==> #[trigger] self.samples@[j] == old(self)@.samples[j],
            decreases n - i,
        {
            if self.samples[i].modified_at == self.iteration {
                let value = self.samples[i].backup_value;
                let stamp = self.samples[i].backup_modified_at;
                let r = Sample {
                    value,
                    backup_value: value,
                    modified_at: stamp,
                    backup_modified_at: stamp,
                };
                self.samples.set(i, r);
            }
            i = i + 1;
        }
        self.iteration = self.iteration - 1;
        assert(self@.samples =~= old(self)@.reject().samples);
    }

    /// Selects the stream that the next draws come from, starting at its
    /// first coordinate.
    pub fn start_stream(&mut self, index: usize)
        requires
            old(self)@.wf(),
            index < old(self)@.stream_count,
        ensures
            final(self)@ == old(self)@.start_stream(index as nat),
            final(self)@.wf(),
    {
        self.stream_index = index;
        self.sample_index = 0;
    }

    /// The position of the next coordinate of the current stream, if it fits
    /// in memory addresses.
    pub fn coordinate_index(&self) -> (r: Option<usize>)
        ensures
            r == (if self@.coordinate() < usize::MAX {
                Some(self@.coordinate() as usize)
            } else {
                None::<usize>
            }),
    {
        match self.stream_count.checked_mul(self.sample_index) {
            Some(base) => match base.checked_add(self.stream_index) {
                Some(index) => {
                    if index < usize::MAX {
                        Some(index)
                    } else {
                        None
                    }
                },
                None => None,
            },
            None => None,
        }
    }

    /// Whether the next coordinate has yet to be created.
    pub fn needs_coordinate(&self) -> (r: bool)
        requires
            self@.coordinate() < usize::MAX,
        ensures
            r == (self@.coordinate() >= self@.samples.len()),
    {
        let index = self.index();
        index >= self.samples.len()
    }

    /// Appends a new coordinate holding `value`, stamped at iteration zero.
    pub fn extend(&mut self, value: V)
        ensures
            final(self)@ == old(self)@.extend(value),
    {
        self.samples.push(Sample { value, backup_value: value, modified_at: 0, backup_modified_at: 0 });
    }

    /// Whether the next coordinate predates the last accepted large step.
    pub fn is_stale(&self) -> (r: bool)
        requires
            self@.coordinate() < self@.samples.len(),
        ensures
            r == self@.is_stale(),
    {
        let index = self.index();
        self.samples[index].modified_at < self.large_step_at
    }

    /// Gives the next coordinate the fresh value it would have taken at the
    /// last accepted large step.
    pub fn catch_up(&mut self, value: V)
        requires
            old(self)@.coordinate() < old(self)@.samples.len(),
        ensures
            final(self)@ == old(self)@.catch_up(value),
    {
        let index = self.index();
        let backup_value = self.samples[index].backup_value;
        let backup_modified_at = self.samples[index].backup_modified_at;
        self.samples.set(
            index,
            Sample { value, backup_value, modified_at: self.large_step_at, backup_modified_at },
        );
    }

    /// The value that the next coordinate holds now.
    pub fn current(&self) -> (r: V)
        requires
            self@.coordinate() < self@.samples.len(),
        ensures
            r == self@.samples[self@.coordinate() as int].value,
    {
        let index = self.index();
        self.samples[index].value
    }

    /// Iterations since the next coordinate was last changed, if it is not
    /// stamped ahead of the clock.
    pub fn elapsed(&self) -> (r: Option<u64>)
        requires
            self@.coordinate() < self@.samples.len(),
        ensures
            r == (if self@.samples[self@.coordinate() as int].modified_at <= self@.iteration {
                Some(
                    (self@.iteration - self@.samples[self@.coordinate() as int].modified_at) as u64,
                )
            } else {
                None::<u64>
            }),
    {
        let index = self.index();
        let stamp = self.samples[index].modified_at;
        if stamp <= self.iteration {
            Some(self.iteration - stamp)
        } else {
            None
        }
    }

    /// Stores `value` in the next coordinate, logging what it held before,
    /// and moves the stream on to its following coordinate.
    pub fn commit(&mut self, value: V)
        requires
            old(self)@.wf(),
            old(self)@.coordinate() < old(self)@.samples.len(),
        ensures
            final(self)@ == old(self)@.commit(value),
            final(self)@.wf(),
    {
        let n = self.samples.len();
        let index = self.index();
        let previous = self.samples[index].value;
        let stamp = self.samples[index].modified_at;
        self.samples.set(
            index,
            Sample {
                value,
                backup_value: previous,
                modified_at: self.iteration,
                backup_modified_at: stamp,
            },
        );
        proof {
            let sc = self.stream_count as int;
            let si = self.sample_index as int;
            assert(sc * si >= si) by (nonlinear_arith)
                requires
                    sc >= 1,
                    si >= 0,
            ;
        }
        self.sample_index = self.sample_index + 1;
    }
}

} // verus!
