use vstd::prelude::*;
use syncbox::Run;
use syncbox::TaskBox;
use syncbox::ThreadPool;

verus! {

/// A shared, clonable handle to a fixed-size worker pool.
///
/// The pool itself is a `syncbox::ThreadPool`, held here opaquely: its
/// declared generics bound the work-queue parameter by a trait that the
/// crate does not re-export, so the type cannot be named in a declaration
/// of its own. The inner handle is reference counted, so cloning a `Pool`
/// shares the one underlying pool instance rather than creating another.
#[verifier::external_body]
pub struct Pool {
    inner: ThreadPool<Box<dyn TaskBox>>,
}

/// The identity of the underlying pool instance a handle refers to: two
/// handles with the same identity share one worker pool.
pub uninterp spec fn pool_inst(p: Pool) -> nat;

/// The number of worker threads the underlying pool was created with.
pub uninterp spec fn pool_workers(p: Pool) -> nat;

/// Relies on `syncbox::ThreadPool::fixed_size`: constructs a pool whose
/// core and maximum size are both `size`, so the handle returned is to a
/// pool of exactly `size` workers.
#[verifier::external_body]
pub(crate) fn new_fixed_pool(size: u32) -> (p: Pool)
    ensures
        pool_workers(p) == size as nat,
{
    Pool { inner: ThreadPool::fixed_size(size) }
}

/// Relies on `syncbox::ThreadPool::clone`: clones the inner reference-
/// counted handle, so the result refers to the same pool instance, with
/// the same workers, as the argument.
#[verifier::external_body]
pub(crate) fn clone_pool(p: &Pool) -> (r: Pool)
    ensures
        pool_inst(r) == pool_inst(*p),
        pool_workers(r) == pool_workers(*p),
{
    Pool { inner: p.inner.clone() }
}

/// Relies on `num_cpus::get`: returns the host's logical CPU count, which
/// is documented to be at least 1.
#[verifier::external_body]
pub(crate) fn host_parallelism() -> (n: usize)
    ensures
        n >= 1,
{
    num_cpus::get()
}

impl Pool {
    /// Relies on `syncbox::ThreadPool::run` (through `syncbox::Run`):
    /// hands the task to the pool for asynchronous execution on one of
    /// its workers.
    #[verifier::external_body]
    pub fn run_task<F: FnOnce() + Send + 'static>(&self, f: F) {
        let task: Box<dyn TaskBox> = Box::new(f);
        self.inner.run(task);
    }
}

} // verus!
