//! Kernel-runtime library: discovery of Jupyter kernel specifications,
//! construction and persistence of connection descriptors, validated kernel
//! process launch plans, channel multiplexing of protocol messages, and a
//! kernel execution-state tracker.

pub mod command;
pub mod connection;
pub mod kernel;
pub mod kernelspec;
pub mod ports;
pub mod routing;
pub mod storage;
pub mod strutil;
