//! Pre-flight validation for the server bootstrap.
//!
//! Before the server creates any listening resource it checks that the
//! inclusive port range it may allocate to tunnels is non-empty.  An empty
//! range is a pure configuration mistake, detectable without I/O, and is
//! reported as a fatal error instead of being retried.

use vstd::prelude::*;

verus! {

/// An inclusive range of TCP ports the server may allocate to tunnels.
/// It is usable only when `min <= max` (at least one valid port).
#[derive(Clone, Copy, Debug, PartialEq, Eq, Structural)]
pub struct PortRange {
    /// Minimum accepted port number.
    pub min: u16,
    /// Maximum accepted port number.
    pub max: u16,
}

/// A fatal configuration mistake, surfaced to the user before any
/// network activity occurs.
#[derive(Clone, Copy, Debug, PartialEq, Eq, Structural)]
pub enum ConfigError {
    /// The configured port range contains no port (`min > max`).
    InvalidPortRange,
}

impl PortRange {
    /// A range is valid exactly when it contains at least one port.
    pub open spec fn is_valid(self) -> bool {
        self.min <= self.max
    }
}

/// Decide whether the server bootstrap may proceed with `range`.
///
/// Returns `Ok(())` exactly when the inclusive range is non-empty; an
/// empty range yields `ConfigError::InvalidPortRange`, on which the caller
/// must terminate before constructing any server resource.
pub fn validate_port_range(range: &PortRange) -> (r: Result<(), ConfigError>)
    ensures
        r is Ok <==> range.is_valid(),
        !range.is_valid() ==> r == Err::<(), ConfigError>(ConfigError::InvalidPortRange),
{
    if range.min <= range.max {
        Ok(())
    } else {
        Err(ConfigError::InvalidPortRange)
    }
}

} // verus!
