use vstd::arithmetic::div_mod::{lemma_fundamental_div_mod, lemma_mod_bound};
use vstd::prelude::*;

verus! {

/// Relies on num_cpus::get: the number of logical cores available to this
/// process, which its documentation promises is at least one.
#[verifier::external_body]
fn available_cores() -> (r: usize)
    ensures
        r >= 1,
{
    num_cpus::get()
}

/// The abstract configuration of a render: image size, the sample budget
/// per pixel and the number of workers that share it.
pub struct RaytracerView {
    pub width: nat,
    pub height: nat,
    pub samples: nat,
    pub threads: nat,
}

/// Configuration of the image sampler: the image size, how many camera
/// rays each pixel receives, and how many workers split that budget.
pub struct Raytracer {
    image_width: usize,
    image_height: usize,
    sample_num: usize,
    thread_num: usize,
}

impl View for Raytracer {
    type V = RaytracerView;

    closed spec fn view(&self) -> RaytracerView {
        RaytracerView {
            width: self.image_width as nat,
            height: self.image_height as nat,
            samples: self.sample_num as nat,
            threads: self.thread_num as nat,
        }
    }
}

impl RaytracerView {
    /// Every configuration has at least one worker, and its pixel buffer
    /// length fits in a `usize`.
    pub open spec fn wf(self) -> bool {
        &&& self.threads >= 1
        &&& self.threads <= usize::MAX
        &&& self.samples <= usize::MAX
        &&& self.width * self.height <= usize::MAX
    }

    /// The number of samples that worker `k` draws for every pixel: the
    /// budget is split evenly, and the first `samples % threads` workers
    /// take one sample more.
    pub open spec fn worker_samples(self, k: int) -> nat {
        if k < self.samples % self.threads {
            self.samples / self.threads + 1
        } else {
            self.samples / self.threads
        }
    }

    /// The samples drawn by workers `0..n` together.
    pub open spec fn samples_below(self, n: nat) -> nat
        decreases n,
    {
        if n == 0 {
            0
        } else {
            self.samples_below((n - 1) as nat) + self.worker_samples(n - 1)
        }
    }

    /// Index of pixel `(x, y)` in the row-major buffer, row 0 on top.
    pub open spec fn pixel_index(self, x: int, y: int) -> int {
        y * self.width + x
    }
}

impl Raytracer {
    #[verifier::type_invariant]
    spec fn inv(self) -> bool {
        self@.wf()
    }

    /// A configuration with one worker per available core.
    pub fn new(image_width: usize, image_height: usize, sample_num: usize) -> (r: Self)
        requires
            image_width * image_height <= usize::MAX,
        ensures
            r@.width == image_width,
            r@.height == image_height,
            r@.samples == sample_num,
            r@.threads >= 1,
            r@.wf(),
    {
        Self::with_threads(image_width, image_height, sample_num, available_cores())
    }

    /// A configuration with a fixed number of workers.
    pub fn with_threads(
        image_width: usize,
        image_height: usize,
        sample_num: usize,
        thread_num: usize,
    ) -> (r: Self)
        requires
            image_width * image_height <= usize::MAX,
            thread_num >= 1,
        ensures
            r@ == (RaytracerView {
                width: image_width as nat,
                height: image_height as nat,
                samples: sample_num as nat,
                threads: thread_num as nat,
            }),
            r@.wf(),
    {
        Raytracer { image_width, image_height, sample_num, thread_num }
    }

    pub fn image_width(&self) -> (r: usize)
        ensures
            r == self@.width,
    {
        self.image_width
    }

    pub fn image_height(&self) -> (r: usize)
        ensures
            r == self@.height,
    {
        self.image_height
    }

    pub fn sample_num(&self) -> (r: usize)
        ensures
            r == self@.samples,
    {
        self.sample_num
    }

    pub fn thread_num(&self) -> (r: usize)
        ensures
            r == self@.threads,
            r >= 1,
    {
        proof {
            use_type_invariant(self);
        }
        self.thread_num
    }

    /// Length of the pixel buffer: one entry per pixel.
    pub fn pixel_count(&self) -> (r: usize)
        ensures
            r == self@.width * self@.height,
    {
        proof {
            use_type_invariant(self);
        }
        self.image_width * self.image_height
    }

    /// Position of pixel `(x, y)` in the row-major pixel buffer, where
    /// `(0, 0)` is the top-left pixel.
    pub fn pixel_index(&self, x: usize, y: usize) -> (r: usize)
        requires
            x < self@.width,
            y < self@.height,
        ensures
            r == self@.pixel_index(x as int, y as int),
            r < self@.width * self@.height,
    {
        proof {
            use_type_invariant(self);
            let w = self.image_width as int;
            let h = self.image_height as int;
            assert(y * w + x < w * h) by (nonlinear_arith)
                requires
                    x < w,
                    y < h,
            ;
        }
        y * self.image_width + x
    }

    /// How many samples per pixel worker `worker` draws. Together the
    /// workers draw exactly the configured budget (see
    /// `lemma_workers_share_budget`).
    pub fn worker_samples(&self, worker: usize) -> (r: usize)
        requires
            worker < self@.threads,
        ensures
            r == self@.worker_samples(worker as int),
    {
        proof {
            use_type_invariant(self);
        }
        let base = self.sample_num / self.thread_num;
        if worker < self.sample_num % self.thread_num {
            proof {
                lemma_fundamental_div_mod(self.sample_num as int, self.thread_num as int);
                assert(base < self.sample_num) by (nonlinear_arith)
                    requires
                        self.thread_num * base + self.sample_num % self.thread_num
                            == self.sample_num,
                        self.sample_num % self.thread_num > 0,
                        self.thread_num >= 1,
                ;
            }
            base + 1
        } else {
            base
        }
    }
}

/// The workers of a well-formed configuration together draw exactly the
/// configured number of samples for every pixel, however the budget
/// divides among them.
pub proof fn lemma_workers_share_budget(v: RaytracerView)
    requires
        v.wf(),
    ensures
        v.samples_below(v.threads) == v.samples,
{
    lemma_samples_below(v, v.threads);
    lemma_fundamental_div_mod(v.samples as int, v.threads as int);
    lemma_mod_bound(v.samples as int, v.threads as int);
}

proof fn lemma_samples_below(v: RaytracerView, n: nat)
    requires
        v.wf(),
        n <= v.threads,
    ensures
        v.samples_below(n) == n * (v.samples / v.threads) + (if n <= v.samples
            % v.threads {
            n
        } else {
            v.samples % v.threads
        }),
    decreases n,
{
    let q = v.samples / v.threads;
    let r = v.samples % v.threads;
    if n > 0 {
        lemma_samples_below(v, (n - 1) as nat);
        assert(n * q == (n - 1) * q + q) by (nonlinear_arith);
        assert(v.worker_samples(n - 1) == if n <= r {
            q + 1
        } else {
            q
        });
    } else {
        assert(0 * q == 0);
    }
}

} // verus!
