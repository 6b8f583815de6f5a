//! Decisions taken once, before the server listens: where the
//! configuration comes from, and whether the executables' root can be used.

use vstd::prelude::*;
use vstd::string::StringExecFns;

verus! {

/// Where the configuration is read from.
pub enum ConfigSource {
    /// The file named on the command line.
    Given(String),
    /// `./barn.toml`.
    Local,
    /// `barn/barn.toml` under the user's configuration directory.
    Home,
    /// No file: every setting has its default.
    Defaults,
}

/// The source that wins: a file named on the command line, else the file
/// in the working directory if it exists, else the one in the user's
/// configuration directory if it exists, else the defaults.
pub open spec fn chosen_source(given: Option<String>, local_exists: bool, home_exists: bool)
    -> ConfigSource {
    match given {
        Some(path) => ConfigSource::Given(path),
        None => if local_exists {
            ConfigSource::Local
        } else if home_exists {
            ConfigSource::Home
        } else {
            ConfigSource::Defaults
        },
    }
}

/// Picks the source of the configuration.
pub fn config_source(given: Option<String>, local_exists: bool, home_exists: bool) -> (source:
    ConfigSource)
    ensures
        source == chosen_source(given, local_exists, home_exists),
{
    match given {
        Some(path) => ConfigSource::Given(path),
        None => if local_exists {
            ConfigSource::Local
        } else if home_exists {
            ConfigSource::Home
        } else {
            ConfigSource::Defaults
        },
    }
}

/// The path of the configuration file in the working directory.
pub fn local_config_path() -> (path: &'static str)
    ensures
        path@ == "./barn.toml"@,
{
    "./barn.toml"
}

/// What is reported as the configuration's location where no file was read.
pub fn defaults_label() -> (label: &'static str)
    ensures
        label@ == "using defaults"@,
{
    "using defaults"
}

/// Why the executables' root cannot be used.
#[derive(Clone, Copy, Debug, PartialEq, Eq, Structural)]
pub enum RootError {
    NotADirectory,
    NoMetadata,
    NoExecutePermission,
}

impl RootError {
    /// The sentence that tells the operator what is wrong with `root`.
    pub open spec fn spec_message(self, root: Seq<char>) -> Seq<char> {
        match self {
            RootError::NotADirectory => "'"@ + root
                + "' either doesn't exist or isn't a directory"@,
            RootError::NoMetadata => "Unable to get metadata for root dir"@,
            RootError::NoExecutePermission => "No execute permission inside '"@ + root + "'"@,
        }
    }

    /// The sentence that tells the operator what is wrong with `root`.
    pub fn message(self, root: &str) -> (text: String)
        ensures
            text@ == self.spec_message(root@),
    {
        match self {
            RootError::NotADirectory => {
                let mut text = String::from_str("'");
                text.append(root);
                text.append("' either doesn't exist or isn't a directory");
                text
            },
            RootError::NoMetadata => String::from_str("Unable to get metadata for root dir"),
            RootError::NoExecutePermission => {
                let mut text = String::from_str("No execute permission inside '");
                text.append(root);
                text.append("'");
                text
            },
        }
    }
}

/// The permission bit that lets a file's owner execute it.
pub const OWNER_EXECUTE: u32 = 0o100;

/// Whether the root can be used, from what the file system says of it.
pub open spec fn root_verdict(present: bool, is_dir: bool, mode: Option<u32>) -> Result<
    (),
    RootError,
> {
    if !present || !is_dir {
        Err(RootError::NotADirectory)
    } else {
        match mode {
            None => Err(RootError::NoMetadata),
            Some(bits) => if bits & OWNER_EXECUTE == 0 {
                Err(RootError::NoExecutePermission)
            } else {
                Ok(())
            },
        }
    }
}

/// Checks that the executables' root exists, is a directory, and may be
/// entered by its owner. `mode` holds the permission bits of the root, or
/// nothing where its metadata could not be read.
pub fn check_executables_root(present: bool, is_dir: bool, mode: Option<u32>) -> (r: Result<
    (),
    RootError,
>)
    ensures
        r == root_verdict(present, is_dir, mode),
{
    if !present || !is_dir {
        return Err(RootError::NotADirectory);
    }
    match mode {
        None => Err(RootError::NoMetadata),
        Some(bits) => if bits & OWNER_EXECUTE == 0 {
            Err(RootError::NoExecutePermission)
        } else {
            Ok(())
        },
    }
}

/// Whether these permission bits let the owner execute the file.
pub fn owner_may_execute(mode: u32) -> (ok: bool)
    ensures
        ok == (mode & OWNER_EXECUTE != 0),
{
    mode & OWNER_EXECUTE != 0
}

} // verus!
