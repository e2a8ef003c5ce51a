//! Names of the directories of the shared filesystem.

use vstd::prelude::*;

verus! {

/// Where the host prepares what it shares with the guest.
pub const MOUNTS: &'static str = "mounts";

/// Where the guest sees what the host shares.
pub const SHARED: &'static str = "shared";

/// Holds one directory for each container.
pub const CONTAINERS: &'static str = "containers";

/// Where the root filesystem of a container is mounted, whatever the
/// strategy that assembled it.
pub const ROOTFS: &'static str = "rootfs";

/// Holds the upper and work directories of an overlay.
pub const OVERLAYFS: &'static str = "overlayfs";

/// The writable layer of an overlay.
pub const UPPER: &'static str = "upper";

/// The work directory of an overlay.
pub const WORK: &'static str = "work";

/// The state directory of the container runtime.
pub const STATE: &'static str = "state";

/// Holds one mount point for each volume that the host shares.
pub const VOLUMES: &'static str = "volumes";

} // verus!
