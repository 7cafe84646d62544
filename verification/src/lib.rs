//! Fleet telemetry in two halves: a reporter that delivers one host sample
//! after another to a collector, backing off while deliveries fail, and a
//! collector store that keeps the latest sample of every device.
//!
//! Every rule of both halves is stated as a contract over a mathematical
//! model and proved: the retry schedule in [`reporter`], the assembly of a
//! sample into a report in [`sample`], the latest-value store in [`store`],
//! and the choice of a bundled asset for a request path in [`assets`].

pub mod assets;
pub mod report;
pub mod reporter;
pub mod sample;
pub mod store;
