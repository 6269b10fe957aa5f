//! Which directory trees are served, and how.
use crate::choices::SymlinkPolicy;
use crate::config::resolver::{first, flaw_of, Resolver};
use crate::error::ConfigError;
use crate::mode::FileMode;
use crate::parameter::holds;
use crate::parameters;
use crate::root::Root;
use crate::value::Value;
use vstd::prelude::*;

verus! {

/// Which directory trees are served, and how.
#[derive(Debug)]
pub struct FilesystemConfig {
    pub allowed_roots: Value<Vec<Root>>,
    pub read_only: Value<bool>,
    pub default_file_mode: Value<FileMode>,
    pub default_dir_mode: Value<FileMode>,
    pub umask: Value<Option<FileMode>>,
    pub symlink_policy: Value<SymlinkPolicy>,
    pub allow_mount_crossing: Value<bool>,
}

/// That a root is required.
#[verifier::allow_in_spec]
pub fn missing_roots() -> ConfigError
    returns
        (ConfigError::Roots {
            id: parameters::filesystem_allowed_roots().id,
            argument: parameters::filesystem_allowed_roots().argument,
            environment: parameters::filesystem_allowed_roots().environment,
        }),
{
    ConfigError::Roots {
        id: parameters::filesystem_allowed_roots().id,
        argument: parameters::filesystem_allowed_roots().argument,
        environment: parameters::filesystem_allowed_roots().environment,
    }
}

impl FilesystemConfig {
    /// Whether every knob has the value that the resolver sees.
    pub open spec fn faithful(self, resolver: Resolver) -> bool {
        &&& holds(
            self.allowed_roots,
            parameters::filesystem_allowed_roots(),
            resolver.sees(parameters::filesystem_allowed_roots()),
        )
        &&& holds(
            self.read_only,
            parameters::filesystem_read_only(),
            resolver.sees(parameters::filesystem_read_only()),
        )
        &&& holds(
            self.default_file_mode,
            parameters::filesystem_default_file_mode(),
            resolver.sees(parameters::filesystem_default_file_mode()),
        )
        &&& holds(
            self.default_dir_mode,
            parameters::filesystem_default_dir_mode(),
            resolver.sees(parameters::filesystem_default_dir_mode()),
        )
        &&& holds(
            self.umask,
            parameters::filesystem_umask(),
            resolver.sees(parameters::filesystem_umask()),
        )
        &&& holds(
            self.symlink_policy,
            parameters::filesystem_symlink_policy(),
            resolver.sees(parameters::filesystem_symlink_policy()),
        )
        &&& holds(
            self.allow_mount_crossing,
            parameters::filesystem_allow_mount_crossing(),
            resolver.sees(parameters::filesystem_allow_mount_crossing()),
        )
    }

    /// The first thing that is wrong: a knob, or a lack of roots.
    pub open spec fn flaw(resolver: Resolver) -> Option<ConfigError> {
        let roots = resolver.sees(parameters::filesystem_allowed_roots());
        first(
            flaw_of(roots),
            if roots->Ok_0.0.len() == 0 {
                Some(missing_roots())
            } else {
                FilesystemConfig::later_flaw(resolver)
            },
        )
    }

    /// The first knob after the roots with something wrong.
    pub open spec fn later_flaw(resolver: Resolver) -> Option<ConfigError> {
        first(
            flaw_of(resolver.sees(parameters::filesystem_read_only())),
            first(
                flaw_of(resolver.sees(parameters::filesystem_default_file_mode())),
                first(
                    flaw_of(resolver.sees(parameters::filesystem_default_dir_mode())),
                    first(
                        flaw_of(resolver.sees(parameters::filesystem_umask())),
                        first(
                            flaw_of(resolver.sees(parameters::filesystem_symlink_policy())),
                            flaw_of(resolver.sees(parameters::filesystem_allow_mount_crossing())),
                        ),
                    ),
                ),
            ),
        )
    }

    /// There is a root.
    pub open spec fn well_formed(self) -> bool {
        self.allowed_roots.value@.len() > 0
    }

    /// Finds the values of the knobs.
    pub fn resolve(resolver: Resolver<'_>) -> (outcome: Result<FilesystemConfig, ConfigError>)
        ensures
            match outcome {
                Ok(config) => FilesystemConfig::flaw(resolver) is None && config.faithful(resolver)
                    && config.well_formed(),
                Err(error) => FilesystemConfig::flaw(resolver) == Some(error),
            },
    {
        let allowed_roots: Value<Vec<Root>> = resolver.resolve(
            &parameters::filesystem_allowed_roots(),
        )?;
        if allowed_roots.value.is_empty() {
            return Err(missing_roots());
        }
        Ok(
            FilesystemConfig {
                allowed_roots,
                read_only: resolver.resolve(&parameters::filesystem_read_only())?,
                default_file_mode: resolver.resolve(&parameters::filesystem_default_file_mode())?,
                default_dir_mode: resolver.resolve(&parameters::filesystem_default_dir_mode())?,
                umask: resolver.resolve(&parameters::filesystem_umask())?,
                symlink_policy: resolver.resolve(&parameters::filesystem_symlink_policy())?,
                allow_mount_crossing: resolver.resolve(
                    &parameters::filesystem_allow_mount_crossing(),
                )?,
            },
        )
    }
}

} // verus!
