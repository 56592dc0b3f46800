//! The search for the configuration file, from a directory upward.

use vstd::prelude::*;

verus! {

/// The name under which a configuration file is looked for first.
pub const CONFIG_FILE_NAME: &'static str = "fripack.json";

/// The name under which a configuration file is looked for second.
pub const ALTERNATE_CONFIG_FILE_NAME: &'static str = "fripack.config.json";

/// What the search does next.
#[derive(Debug, Clone, Copy, PartialEq, Eq, Structural)]
pub enum SearchStep {
    /// The file called [`CONFIG_FILE_NAME`] in this directory is the one.
    UseConfigFile,
    /// The file called [`ALTERNATE_CONFIG_FILE_NAME`] in this directory is the one.
    UseAlternateFile,
    /// Look in the parent directory.
    Ascend,
    /// There is no configuration file.
    GiveUp,
}

/// Decides the next step from what was found in a directory: whether each
/// of the two files exists, and whether the directory has a parent.
pub fn search_step(config_exists: bool, alternate_exists: bool, has_parent: bool) -> (step:
    SearchStep)
    ensures
        step == if config_exists {
            SearchStep::UseConfigFile
        } else if alternate_exists {
            SearchStep::UseAlternateFile
        } else if has_parent {
            SearchStep::Ascend
        } else {
            SearchStep::GiveUp
        },
{
    if config_exists {
        SearchStep::UseConfigFile
    } else if alternate_exists {
        SearchStep::UseAlternateFile
    } else if has_parent {
        SearchStep::Ascend
    } else {
        SearchStep::GiveUp
    }
}

} // verus!
