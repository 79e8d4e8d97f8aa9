//! Provisioning of the Chromium Embedded Framework binary distribution for a
//! build, and the reference-count side table that keeps C-ABI callback
//! objects handed to the native library alive.

pub mod error;
pub mod platform;
pub mod rules;
pub mod rewrite;
pub mod extraction;
pub mod sentinel;
pub mod refcount;
pub mod wrapper_build;
