use vstd::prelude::*;

verus! {

/// The failures this layer can surface.
///
/// Network unavailability is deliberately absent: an unreachable catalog
/// degrades to a local-only inventory and is never reported as an error.
#[derive(Clone, Copy, Debug, PartialEq, Eq, Structural)]
pub enum LauncherError {
    /// A local directory or file could not be read while scanning; fatal for
    /// the whole scan, no partial inventory is produced.
    IoFailure,
    /// The remote catalog document is missing an expected field or has the
    /// wrong shape; fatal for the remote fetch.
    MalformedManifest,
    /// A dependency coordinate string does not have three non-empty
    /// colon-separated segments; fatal for that single resolution call.
    MalformedCoordinate,
}

} // verus!
