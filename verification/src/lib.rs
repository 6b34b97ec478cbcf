//! Time-value arithmetic for a sound-server client library: a signed
//! microsecond duration type with a reserved "invalid" pattern and checked
//! arithmetic, a seconds+microseconds timestamp type with lexicographic
//! ordering and a monotonic-to-wallclock reconciliation algorithm, and the
//! small state predicates of the surrounding daemon protocol.

pub mod context;
pub mod def;
pub mod microseconds;
pub mod timeval;

pub use microseconds::MicroSeconds;
pub use microseconds::MICROS_PER_SEC;
pub use timeval::Timeval;
pub use timeval::PA_TIMEVAL_RTCLOCK;
