//! Verified core of `ocellus`, a hardware telemetry exporter for Intel server processors.

pub mod accumulator;
pub mod arch;
pub mod capabilities;
pub mod completeness;
pub mod counter;
pub mod discovery;
pub mod ep;
pub mod error;
pub mod export;
pub mod hsx;
pub mod laws;
pub mod metrics;
pub mod ordered_map;
pub mod pci;
pub mod quantity;
pub mod registers;
pub mod sampling;
pub mod schedule;
pub mod seqs;
pub mod sockets;
pub mod sorting;
pub mod task;
pub mod topology;
pub mod units;
