//! Error reporting for the eBPF virtual machine.

pub mod error;
