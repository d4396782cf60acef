//! Verified core of the Hyperlight host: guest log records and their
//! FlatBuffers encoding, host function signatures and argument checking, and
//! the register and memory-mapping layouts handed to the Windows Hypervisor
//! Platform.

pub mod text;
pub mod log_level;
pub mod fb_builder;
pub mod guest_log_data;
pub mod host_function;
pub mod vcpu_registers;
pub mod memory_region;
