//! Remote forensic acquisition: target identities, the argument encodings of the
//! access methods, deterministic report paths, the selection of acquisition
//! pipelines from a run's options, and the schedules that drive pipelines and
//! method fallback.
pub mod args;
pub mod computer;
pub mod imaging;
pub mod method;
pub mod remote;
pub mod report;
pub mod schedule;
pub mod selection;
