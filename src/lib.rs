//! Hardware-virtualization enablement core: the decisions that bring a
//! processor into virtualization-root operation and back out of it.
//!
//! The hardware itself (identification queries, model-specific registers,
//! control registers, page allocation and the privileged mode instructions) is
//! driven by the caller: the [`controller::ModeController`] hands out one
//! [`controller::Action`] at a time and takes the hardware's answer back as an
//! [`controller::Event`].

pub mod boot;
pub mod controller;
pub mod feature_control;
pub mod fixed_bits;
pub mod model;
pub mod region;
