//! A micro-benchmark harness for sophia's in-memory RDF triple stores: it
//! times (a) parsing an N-Triples byte stream and (b) one fixed
//! (predicate, object) pattern query, splitting query cost into time to the
//! first match and time to enumerate the remainder, and brackets the load
//! phase with process-memory readings.

pub mod clock;
pub mod dispatch;
pub mod driver;
pub mod report;
pub mod store;
pub mod vmsize;
