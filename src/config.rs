use vstd::prelude::*;
use vstd::string::*;
use crate::platform::{os_named, OsPlat};
use crate::text::same_text;

verus! {

/// Why the run's inputs were refused.
#[derive(Debug)]
pub enum ConfigError {
    /// The argument at this position (counted from one) is missing.
    MissingArg(u64),
    /// The requested version is empty.
    EmptyTag,
    /// The requested version is not a version range.
    BadConstraint(String),
    /// The operating system is not one of `windows`, `darwin`, `linux`.
    UnsupportedOs(String),
}

impl std::str::FromStr for OsPlat {
    type Err = ConfigError;

    fn from_str(s: &str) -> Result<OsPlat, ConfigError> {
        match OsPlat::from_name(s) {
            Some(p) => Ok(p),
            None => Err(ConfigError::UnsupportedOs(s.to_owned())),
        }
    }
}

/// What a run was asked to do.
#[derive(Debug)]
pub struct Config {
    /// The requested version, e.g. `v3.20.x`.
    pub tag: String,
    pub include_pre_releases: bool,
    /// A token for the release listing; empty for none.
    pub repo_token: String,
    pub os_arch: String,
    pub os_plat: OsPlat,
}

/// Whether a full argument list is acceptable: five arguments or more, a
/// non-empty requested version and a known platform name in fifth place.
pub open spec fn args_accepted(args: Seq<String>) -> bool {
    &&& args.len() >= 5
    &&& args[0]@.len() > 0
    &&& os_named(args[4]@) is Some
}

impl Config {
    /// Reads the arguments `tag include-pre-releases repo-token os-arch
    /// os-plat`, in that order; arguments past the fifth are ignored.
    pub fn from_args(args: &Vec<String>) -> (r: Result<Config, ConfigError>)
        ensures
            r is Ok <==> args_accepted(args@),
            r matches Ok(c) ==> {
                &&& c.tag@ == args@[0]@
                &&& c.include_pre_releases == (args@[1]@ == "true"@)
                &&& c.repo_token@ == args@[2]@
                &&& c.os_arch@ == args@[3]@
                &&& os_named(args@[4]@) == Some(c.os_plat)
            },
            (args.len() >= 1 && args@[0]@.len() == 0) <==> r matches Err(ConfigError::EmptyTag),
            (args.len() < 5 && (args.len() == 0 || args@[0]@.len() > 0)) <==> r matches Err(
                ConfigError::MissingArg(_),
            ),
            r matches Err(ConfigError::MissingArg(k)) ==> k == args.len() + 1,
            r matches Err(ConfigError::UnsupportedOs(s)) ==> s@ == args@[4]@,
    {
        let n = args.len();
        if n == 0 {
            return Err(ConfigError::MissingArg(1));
        }
        if args[0].as_str().is_empty() {
            return Err(ConfigError::EmptyTag);
        }
        if n < 5 {
            return Err(ConfigError::MissingArg(n as u64 + 1));
        }
        let os_plat = match OsPlat::from_name(args[4].as_str()) {
            Some(p) => p,
            None => {
                return Err(ConfigError::UnsupportedOs(args[4].clone()));
            },
        };
        Ok(Config {
            tag: args[0].clone(),
            include_pre_releases: same_text(args[1].as_str(), "true"),
            repo_token: args[2].clone(),
            os_arch: args[3].clone(),
            os_plat,
        })
    }
}

} // verus!
