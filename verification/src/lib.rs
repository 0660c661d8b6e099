//! Shared-memory IPC between the cores of an asymmetric multiprocessor.
//!
//! The application processor and a real-time core talk through a window of
//! shared SRAM and ring each other's doorbell when a message has been written.
//! This crate holds every decision of that driver as verified, hardware-free
//! code: it never touches a register or a cache line itself. Where the driver
//! has to act, a function returns the actions to perform, and where the driver
//! has to look at the hardware, a program asks for the value and is told what
//! came back.

pub mod ack;
pub mod ack_laws;
pub mod cache_model;
pub mod channels;
pub mod coherence;
pub mod config;
pub mod config_laws;
pub mod device;
pub mod device_laws;
pub mod driver;
pub mod irq;
pub mod irq_laws;
pub mod mailbox;
pub mod mailbox_hw;
pub mod mailbox_laws;
pub mod mapping;
pub mod notifier;
pub mod plat;
pub mod pte_laws;
pub mod pte_rv64;
pub mod pte_x64;
pub mod reset;
pub mod selftest;
pub mod selftest_laws;
pub mod text;
pub mod vfs;
pub mod wait;
pub mod wait_laws;
pub mod wait_model;

pub use crate::channels::{ChannelId, OvChannelsShmAccess};
pub use crate::driver::{
    Event, IpiIrqEndpoint, IpiSender, RtShmCore, ShmAccess, DEFAULT_CHANNELS,
};
pub use ov_channels::SharedMemory;
