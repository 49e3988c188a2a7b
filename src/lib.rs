//! Verified descriptor logic for RDMA verbs: memory-region views, work
//! requests, device/port selection and completion handling.

pub mod bindings;
pub mod context;
pub mod cq;
pub mod mr;
pub mod qp;
pub mod wr;
