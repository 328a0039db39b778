//! What is decided about a kernel before it is used.

use vstd::prelude::*;
use crate::config::Config;

verus! {

/// The major number of the oldest version of the language that the
/// commands work with.
pub const MINIMUM_MAJOR: u32 = 13;

/// The minor number of the oldest version of the language that the
/// commands work with.
pub const MINIMUM_MINOR: u32 = 1;

/// Whether the version `major.minor` is the oldest supported version or a
/// later one.
pub open spec fn supported_version(major: u32, minor: u32) -> bool {
    major > MINIMUM_MAJOR || (major == MINIMUM_MAJOR && minor >= MINIMUM_MINOR)
}

/// Whether the commands work with the version `major.minor` of the
/// language.
pub fn is_supported_version(major: u32, minor: u32) -> (supported: bool)
    ensures
        supported == supported_version(major, minor),
{
    !(major < MINIMUM_MAJOR || (major == MINIMUM_MAJOR && minor < MINIMUM_MINOR))
}

/// Whether the installation that is used is reported: from the first
/// level of verbosity on.
pub fn reports_installation(config: &Config) -> (reported: bool)
    ensures
        reported == (config.verbosity >= 1),
{
    config.verbosity >= 1
}

/// Whether the name of the link to the kernel is reported: from the
/// second level of verbosity on.
pub fn reports_link(config: &Config) -> (reported: bool)
    ensures
        reported == (config.verbosity >= 2),
{
    config.verbosity >= 2
}

} // verus!
