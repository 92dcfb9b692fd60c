//! A fixed-capacity multi-producer, single-consumer queue with scheduled
//! delivery. Producers enqueue items that are ready at once, or items that
//! become ready at a given instant. The single consumer takes ready items in
//! priority order and parks on a Linux futex when nothing is ready.
pub mod time;
pub mod item;
pub mod store;
pub mod wait;
pub mod queue;

pub use item::Item;
pub use queue::{FutexQueue, Receiver, Sender};
pub use store::Store;
pub use time::Instant;
pub use wait::WaitAction;
