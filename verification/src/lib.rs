//! Allocator-instrumentation middleware: an event model for allocator calls,
//! an interception wrapper that notifies an observer around each real
//! allocation, and concurrency-safe statistics aggregators that turn those
//! events into running counters.
pub mod events;
pub mod counters;
pub mod monitor;

pub use events::AllocAction;
pub use events::AllocMonitor;
pub use events::AllocRel;
pub use events::InterAlloc;
pub use events::Layout;
pub use counters::Counters;
pub use monitor::AllocInfo;
pub use monitor::StatsMonitor;
pub use monitor::ThreadMonitor;
