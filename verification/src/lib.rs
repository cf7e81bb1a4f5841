//! Verified core of a terminal dashboard that shows per-GPU PCIe TX/RX traffic
//! read from NVML GPM metrics.

pub mod app;
pub mod gpm;
pub mod handler;
pub mod history;
pub mod layout;
pub mod sampler;
pub mod text;
pub mod view;
