//! Fixed-length owned buffers bound to the allocator that reserved them.
//!
//! A [`ManagedSlice`] asks an [`Allocator`] for a block sized for `len`
//! elements, keeps that allocator by value, and hands the block back to it
//! when [`ManagedSlice::release`] consumes the handle. Release is explicit:
//! a handle dropped without it never gives its block back, so callers pair
//! each construction with a release on every exit path, or hold the handle
//! in a guard that releases it when the guard goes out of scope.

pub mod allocator;
pub mod layout;
pub mod managed_slice;

pub use allocator::{AllocError, Allocator};
pub use layout::Layout;
pub use managed_slice::ManagedSlice;
