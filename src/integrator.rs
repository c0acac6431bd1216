use vstd::prelude::*;
use crate::config::Config;

verus! {

/// Longest path length sampled when none is configured.
pub const DEFAULT_MAX_PATH_LENGTH: usize = 20;

/// Paths drawn per path length to estimate its normalization when none is
/// configured.
pub const DEFAULT_INITIAL_SAMPLE_COUNT: u64 = 100000;

/// Average number of chain iterations per pixel when none is configured.
pub const DEFAULT_AVERAGE_SAMPLES_PER_PIXEL: u64 = 4096;

/// The shortest path length that a Markov chain is run for.
pub const MIN_CHAIN_PATH_LENGTH: usize = 2;

/// Settings of the multiplexed Metropolis integrator.
pub struct MmltIntegrator {
    max_path_length: usize,
    initial_sample_count: u64,
    average_samples_per_pixel: u64,
}

impl MmltIntegrator {
    pub closed spec fn max_path_length_spec(&self) -> nat {
        self.max_path_length as nat
    }

    pub closed spec fn initial_sample_count_spec(&self) -> nat {
        self.initial_sample_count as nat
    }

    pub closed spec fn average_samples_per_pixel_spec(&self) -> nat {
        self.average_samples_per_pixel as nat
    }

    /// Takes each setting from `config`, or its default where it is absent.
    pub fn new(config: &Config) -> (r: MmltIntegrator)
        ensures
            r.max_path_length_spec() == match config.max_path_length {
                Some(v) => v,
                None => DEFAULT_MAX_PATH_LENGTH,
            },
            r.initial_sample_count_spec() == match config.initial_sample_count {
                Some(v) => v,
                None => DEFAULT_INITIAL_SAMPLE_COUNT,
            },
            r.average_samples_per_pixel_spec() == match config.average_samples_per_pixel {
                Some(v) => v,
                None => DEFAULT_AVERAGE_SAMPLES_PER_PIXEL,
            },
    {
        MmltIntegrator {
            max_path_length: match config.max_path_length {
                Some(v) => v,
                None => DEFAULT_MAX_PATH_LENGTH,
            },
            initial_sample_count: match config.initial_sample_count {
                Some(v) => v,
                None => DEFAULT_INITIAL_SAMPLE_COUNT,
            },
            average_samples_per_pixel: match config.average_samples_per_pixel {
                Some(v) => v,
                None => DEFAULT_AVERAGE_SAMPLES_PER_PIXEL,
            },
        }
    }

    pub fn max_path_length(&self) -> (r: usize)
        ensures
            r == self.max_path_length_spec(),
    {
        self.max_path_length
    }

    pub fn initial_sample_count(&self) -> (r: u64)
        ensures
            r == self.initial_sample_count_spec(),
    {
        self.initial_sample_count
    }

    pub fn average_samples_per_pixel(&self) -> (r: u64)
        ensures
            r == self.average_samples_per_pixel_spec(),
    {
        self.average_samples_per_pixel
    }

    /// Number of Markov chains: one per path length from
    /// `MIN_CHAIN_PATH_LENGTH` to the longest, none if that range is empty.
    pub fn chain_count(&self) -> (r: usize)
        ensures
            r == if self.max_path_length_spec() >= MIN_CHAIN_PATH_LENGTH {
                self.max_path_length_spec() - MIN_CHAIN_PATH_LENGTH + 1
            } else {
                0
            },
    {
        if self.max_path_length >= MIN_CHAIN_PATH_LENGTH {
            self.max_path_length - MIN_CHAIN_PATH_LENGTH + 1
        } else {
            0
        }
    }

    /// The path length that chain `chain` samples.
    pub fn chain_path_length(&self, chain: usize) -> (r: usize)
        requires
            chain < self.chain_count_spec(),
        ensures
            r == chain + MIN_CHAIN_PATH_LENGTH,
            MIN_CHAIN_PATH_LENGTH <= r <= self.max_path_length_spec(),
    {
        chain + MIN_CHAIN_PATH_LENGTH
    }

    pub open spec fn chain_count_spec(&self) -> nat {
        if self.max_path_length_spec() >= MIN_CHAIN_PATH_LENGTH {
            (self.max_path_length_spec() - MIN_CHAIN_PATH_LENGTH + 1) as nat
        } else {
            0
        }
    }
}

/// Counts the iterations of the chain loop: it runs until the iterations per
/// pixel reach the target, and notes each whole number of samples per pixel
/// as it is passed.
pub struct Schedule {
    pixel_count: u64,
    target: u64,
    iterations: u64,
    reported: u64,
}

impl Schedule {
    pub closed spec fn pixel_count_spec(&self) -> nat {
        self.pixel_count as nat
    }

    pub closed spec fn target_spec(&self) -> nat {
        self.target as nat
    }

    pub closed spec fn iterations_spec(&self) -> nat {
        self.iterations as nat
    }

    pub closed spec fn reported_spec(&self) -> nat {
        self.reported as nat
    }

    /// Iterations the loop runs in all.
    pub open spec fn total(&self) -> nat {
        self.pixel_count_spec() * self.target_spec()
    }

    pub open spec fn wf(&self) -> bool {
        &&& self.pixel_count_spec() > 0
        &&& self.total() <= u64::MAX
        &&& self.iterations_spec() <= self.total()
    }

    /// Whole samples per pixel done so far.
    pub open spec fn samples_per_pixel_spec(&self) -> nat {
        self.iterations_spec() / self.pixel_count_spec()
    }

    pub fn new(pixel_count: u64, average_samples_per_pixel: u64) -> (r: Schedule)
        requires
            pixel_count > 0,
            pixel_count * average_samples_per_pixel <= u64::MAX,
        ensures
            r.wf(),
            r.pixel_count_spec() == pixel_count,
            r.target_spec() == average_samples_per_pixel,
            r.iterations_spec() == 0,
            r.reported_spec() == 0,
    {
        Schedule { pixel_count, target: average_samples_per_pixel, iterations: 0, reported: 0 }
    }

    pub fn iterations(&self) -> (r: u64)
        ensures
            r == self.iterations_spec(),
    {
        self.iterations
    }

    pub fn samples_per_pixel(&self) -> (r: u64)
        requires
            self.wf(),
        ensures
            r == self.samples_per_pixel_spec(),
    {
        self.iterations / self.pixel_count
    }

    /// Starts one more iteration, unless the iterations per pixel have
    /// reached the target.
    pub fn next(&mut self) -> (r: bool)
        requires
            old(self).wf(),
        ensures
            final(self).wf(),
            r == (old(self).iterations_spec() < old(self).total()),
            final(self).iterations_spec() == old(self).iterations_spec() + if r {
                1nat
            } else {
                0nat
            },
            final(self).pixel_count_spec() == old(self).pixel_count_spec(),
            final(self).target_spec() == old(self).target_spec(),
            final(self).reported_spec() == old(self).reported_spec(),
    {
        proof {
            let pc = self.pixel_count as int;
            let t = self.target as int;
            let it = self.iterations as int;
            assert(it / pc < t <==> it < pc * t) by (nonlinear_arith)
                requires
                    pc > 0,
                    it >= 0,
                    t >= 0,
            ;
        }
        if self.iterations / self.pixel_count < self.target {
            self.iterations = self.iterations + 1;
            true
        } else {
            false
        }
    }

    /// The samples per pixel now reached, if that is more than was last
    /// reported; it then counts as reported.
    pub fn progress(&mut self) -> (r: Option<u64>)
        requires
            old(self).wf(),
        ensures
            final(self).wf(),
            final(self).pixel_count_spec() == old(self).pixel_count_spec(),
            final(self).target_spec() == old(self).target_spec(),
            final(self).iterations_spec() == old(self).iterations_spec(),
            old(self).reported_spec() < old(self).samples_per_pixel_spec() ==> r == Some(
                old(self).samples_per_pixel_spec() as u64,
            ) && final(self).reported_spec() == old(self).samples_per_pixel_spec(),
            old(self).samples_per_pixel_spec() <= old(self).reported_spec() ==> r is None
                && final(self).reported_spec() == old(self).reported_spec(),
    {
        let spp = self.iterations / self.pixel_count;
        if self.reported < spp {
            self.reported = spp;
            Some(spp)
        } else {
            None
        }
    }
}

} // verus!
