//! Constructors for the common kinds of errors.

use vstd::prelude::*;

use super::Error;
use crate::text::owned;

verus! {

/// A configuration error with `message`.
pub fn config_error(message: &str) -> (e: Error)
    ensures
        e matches Error::Config(m) && m@ == message@,
{
    Error::Config(owned(message))
}

/// A runtime error with `message`.
pub fn runtime_error(message: &str) -> (e: Error)
    ensures
        e matches Error::Runtime(m) && m@ == message@,
{
    Error::Runtime(owned(message))
}

/// A version-management error with `message`.
pub fn version_error(message: &str) -> (e: Error)
    ensures
        e matches Error::Version(m) && m@ == message@,
{
    Error::Version(owned(message))
}

/// A virtual-environment error with `message`.
pub fn virtual_env_error(message: &str) -> (e: Error)
    ensures
        e matches Error::VirtualEnv(m) && m@ == message@,
{
    Error::VirtualEnv(owned(message))
}

/// A package-management error with `message`.
pub fn package_error(message: &str) -> (e: Error)
    ensures
        e matches Error::Package(m) && m@ == message@,
{
    Error::Package(owned(message))
}

/// A script-execution error with `message`.
pub fn script_error(message: &str) -> (e: Error)
    ensures
        e matches Error::Script(m) && m@ == message@,
{
    Error::Script(owned(message))
}

/// A network error with `message`.
pub fn network_error(message: &str) -> (e: Error)
    ensures
        e matches Error::Network(m) && m@ == message@,
{
    Error::Network(owned(message))
}

/// An unsupported-platform error with `message`.
pub fn platform_error(message: &str) -> (e: Error)
    ensures
        e matches Error::Platform(m) && m@ == message@,
{
    Error::Platform(owned(message))
}

} // verus!
