//! Memory-management core for a real-time vision pipeline: size-classed
//! buffer recycling, tracked buffer pooling with pressure statistics,
//! process-wide allocation accounting, and a cross-component budget arbiter.

pub mod accounting;
pub mod budget;
pub mod pool;
pub mod recycler;
