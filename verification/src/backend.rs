//! Deferred calls into the graphics backend.
//!
//! The verified state machines never touch a native handle themselves: they
//! track handles as opaque identifiers and hand the embedding program a list
//! of [`Action`] values to perform, in order. Release and unmap actions are
//! best-effort — their native status is intentionally ignored, because the
//! frame content was already consumed when they run.

use vstd::prelude::*;

verus! {

/// One deferred backend call. Handles are carried as the opaque identifiers
/// under which the embedding program registered them.
#[derive(Clone, Copy, PartialEq, Eq, Structural, Debug)]
pub enum Action {
    /// Release the enumeration factory.
    ReleaseFactory { factory: u64 },
    /// Release one reference on an adapter.
    ReleaseAdapter { adapter: u64 },
    /// Add one shared reference on an adapter.
    AddRefAdapter { adapter: u64 },
    /// Release a generic output handle.
    ReleaseOutput { output: u64 },
    /// Release a duplication-capable output handle.
    ReleaseDuplicableOutput { output: u64 },
    /// Release the device.
    ReleaseDevice { device: u64 },
    /// Release the immediate device context.
    ReleaseContext { context: u64 },
    /// Release the duplication session.
    ReleaseDuplication { duplication: u64 },
    /// Release an acquired frame object.
    ReleaseFrame { frame: u64 },
    /// Release a frame's source texture.
    ReleaseTexture { texture: u64 },
    /// Release the creation reference of a staging resource.
    ReleaseStaging { staging: u64 },
    /// Unmap the desktop surface (fastlane mode).
    UnmapDesktop,
    /// Release the outstanding frame at the session level.
    ReleaseSessionFrame,
    /// Unmap a mapped staging surface (slow-path mode).
    UnmapSurface { surface: u64 },
    /// Release a staging surface (slow-path mode).
    ReleaseSurface { surface: u64 },
    /// Mark a staging resource as lowest eviction priority, so it is not
    /// discarded under memory pressure while mapped.
    SetEvictionPriority { staging: u64 },
    /// Issue the GPU-side copy from the frame's texture into the staging
    /// resource.
    CopyToStaging { staging: u64, texture: u64 },
}

} // verus!
