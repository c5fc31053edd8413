//! Fizzy's high-level representation of command-line arguments, and the
//! validation rule for a user-supplied configuration-file path.

use vstd::prelude::*;

use crate::resolve::RawLayer;

verus! {

/// Fizzy's high-level representation of command-line arguments.
///
/// `verbosity_level` counts the occurrences of the verbose flag and
/// `simulate` whether the simulate flag was given; a count of zero or an
/// absent flag means the flag was not used.
#[derive(Debug, Clone, PartialEq, Eq)]
pub struct CliArgs {
    pub cfg_file_path: Option<String>,
    pub verbosity_level: u64,
    pub simulate: bool,
}

impl CliArgs {
    /// The command-line layer these arguments amount to. A flag that was not
    /// given (verbosity count zero, simulate off) expresses no opinion, so
    /// lower-precedence layers can still supply that field.
    pub fn into_layer(self) -> (r: RawLayer)
        ensures
            r.cfg_file_path == self.cfg_file_path,
            r.verbosity_level == (if self.verbosity_level == 0 {
                None::<u64>
            } else {
                Some(self.verbosity_level)
            }),
            r.simulate == (if self.simulate {
                Some(true)
            } else {
                None::<bool>
            }),
    {
        RawLayer {
            cfg_file_path: self.cfg_file_path,
            verbosity_level: if self.verbosity_level == 0 {
                None
            } else {
                Some(self.verbosity_level)
            },
            simulate: if self.simulate {
                Some(true)
            } else {
                None
            },
        }
    }
}

/// Validate a configuration-file argument: `is_file` says whether the path
/// the user supplied names an existing file.
pub fn is_valid_cfg_file(is_file: bool) -> (r: Result<(), String>)
    ensures
        r is Ok <==> is_file,
        r matches Err(m) ==> m@ == "the configuration file doesn't exist"@,
{
    if !is_file {
        Err("the configuration file doesn't exist".to_owned())
    } else {
        Ok(())
    }
}

} // verus!
