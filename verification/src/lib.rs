//! Recording of graphics commands into a Vulkan command buffer.
//!
//! A caller speaks in the terms of [`hal`]: barriers, copy regions, clears,
//! ranges of vertices. [`command::CommandBuffer`] turns each request into the
//! device calls that carry it out, and every argument of those calls is fixed by
//! a proved contract. The calls come back as [`call::DeviceCall`] values; whoever
//! holds the device issues them in order and hands the outcome to
//! [`call::DeviceCall::settle`].
//!
//! Numbers in floating point (depths, colours, viewports) are carried as their
//! 32 bit patterns: nothing here computes with them.

pub mod barrier;
pub mod call;
pub mod clear;
pub mod command;
pub mod constants;
pub mod conv;
pub mod hal;
pub mod laws;
pub mod native;
pub mod regions;
mod sealed;
pub mod small;
pub mod vk;
