//! An asynchronous GPU upload scheduler, modelled and verified.
//!
//! The library coordinates CPU-side recording of transfer work into
//! per-queue batches, their submission (a barrier command buffer followed
//! by a copy command buffer, guarded by a fence), and the reclamation of
//! staging memory and command-buffer capacity strictly in submission
//! order, once the device has confirmed completion.
//!
//! Device resources (fences, command buffers, staging buffers, images)
//! appear here as plain integer handles: the caller performs the actual
//! device calls and feeds observed completion signals back in, so every
//! scheduling decision in this crate is verified.

pub mod batch;
pub mod family;
pub mod image_meta;
pub mod laws;
pub mod scheduler;
pub mod state;
