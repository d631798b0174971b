//! A lazily created, shared worker-pool handle that any number of
//! independent call sites can obtain without coordinating initialization
//! order among themselves.
//!
//! A [`Registry`] holds any number of independent slots. Each slot is a
//! one-time-initialization state machine over a single word: `Empty` until
//! someone claims it, `Initializing` while the claimed pool is under
//! construction (and again, for good, after teardown), and `Ready` once a
//! constructed pool has been published by storing its encoded arena index
//! in the word. [`init_from`] claims a slot and publishes a pool of a
//! given size in it; [`Registry::get`] reads without ever constructing;
//! [`get_or_init`] and [`pool_from`] read and construct on first use,
//! masking a lost claim whose winner has already published. Teardown
//! swaps the sentinel back in and drops the slot's pool, after which the
//! slot never hands out a handle again.

pub mod pool;
pub mod registry;
pub mod slot;

pub use pool::Pool;
pub use registry::get_or_init;
pub use registry::init_from;
pub use registry::pool_from;
pub use registry::InitPoolError;
pub use registry::Registry;
pub use slot::SlotState;
