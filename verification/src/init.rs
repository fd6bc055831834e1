//! One-time initialization, admin rotation and the upgrade authorization
//! gate over the singleton configuration.

use vstd::prelude::*;

use crate::state::EarnQuestContract;
use crate::state::StateView;
use crate::types::ContractConfig;
use crate::types::Error;

verus! {

/// Current contract version.
pub const CONTRACT_VERSION: u32 = 1;

/// State and result of initializing with `admin`: creates the singleton
/// configuration exactly once.
pub open spec fn spec_initialize(s: StateView, admin: u64) -> (StateView, Result<(), Error>) {
    if s.config is Some {
        (s, Err(Error::AlreadyInitialized))
    } else {
        (
            StateView {
                config: Some(
                    ContractConfig { admin, version: CONTRACT_VERSION, initialized: true },
                ),
                ..s
            },
            Ok(()),
        )
    }
}

/// Result of reading the configuration.
pub open spec fn spec_get_config(s: StateView) -> Result<ContractConfig, Error> {
    match s.config {
        Some(c) => Ok(c),
        None => Err(Error::NotInitialized),
    }
}

/// State and result of a configuration update by `admin`, optionally
/// rotating the admin to `new_admin`.
pub open spec fn spec_update_config(s: StateView, admin: u64, new_admin: Option<u64>) -> (
    StateView,
    Result<(), Error>,
) {
    match s.config {
        None => (s, Err(Error::NotInitialized)),
        Some(c) => {
            if c.admin != admin {
                (s, Err(Error::Unauthorized))
            } else {
                let rotated = match new_admin {
                    Some(a) => a,
                    None => c.admin,
                };
                (
                    StateView { config: Some(ContractConfig { admin: rotated, ..c }), ..s },
                    Ok(()),
                )
            }
        },
    }
}

/// Result of an upgrade authorization request by `admin`: approval only, the
/// host performs the actual code replacement.
pub open spec fn spec_authorize_upgrade(s: StateView, admin: u64) -> Result<(), Error> {
    match s.config {
        None => Err(Error::NotInitialized),
        Some(c) => if c.admin != admin {
            Err(Error::UnauthorizedUpgrade)
        } else {
            Ok(())
        },
    }
}

impl EarnQuestContract {
    /// Initialize the contract with `admin` as the configuration admin.
    /// Succeeds exactly once; later calls fail with `AlreadyInitialized`.
    pub fn initialize(&mut self, admin: u64) -> (r: Result<(), Error>)
        requires
            old(self).inv(),
        ensures
            final(self).inv(),
            (final(self)@, r) == spec_initialize(old(self)@, admin),
    {
        if self.config.is_some() {
            return Err(Error::AlreadyInitialized);
        }
        self.config = Some(
            ContractConfig { admin, version: CONTRACT_VERSION, initialized: true },
        );
        proof {
            assert(self@ =~= spec_initialize(old(self)@, admin).0);
        }
        Ok(())
    }

    /// Current contract configuration; fails before initialization.
    pub fn get_config(&self) -> (r: Result<ContractConfig, Error>)
        ensures
            r == spec_get_config(self@),
    {
        match self.config {
            Some(c) => Ok(c),
            None => Err(Error::NotInitialized),
        }
    }

    /// Update the configuration: only the current admin may, and may hand
    /// the admin role to `new_admin`.
    pub fn update_config(&mut self, admin: u64, new_admin: Option<u64>) -> (r: Result<(), Error>)
        requires
            old(self).inv(),
        ensures
            final(self).inv(),
            (final(self)@, r) == spec_update_config(old(self)@, admin, new_admin),
    {
        let c = match self.config {
            Some(c) => c,
            None => {
                return Err(Error::NotInitialized);
            },
        };
        if c.admin != admin {
            return Err(Error::Unauthorized);
        }
        let rotated = match new_admin {
            Some(a) => a,
            None => c.admin,
        };
        self.config = Some(ContractConfig { admin: rotated, ..c });
        proof {
            assert(self@ =~= spec_update_config(old(self)@, admin, new_admin).0);
        }
        Ok(())
    }

    /// Authorize a contract upgrade: validation only, no state change.
    pub fn authorize_upgrade(&self, admin: u64) -> (r: Result<(), Error>)
        ensures
            r == spec_authorize_upgrade(self@, admin),
    {
        let c = match self.config {
            Some(c) => c,
            None => {
                return Err(Error::NotInitialized);
            },
        };
        if c.admin != admin {
            return Err(Error::UnauthorizedUpgrade);
        }
        Ok(())
    }

    /// Whether the contract has been initialized.
    pub fn is_initialized(&self) -> (r: bool)
        ensures
            r == (self@.config is Some),
    {
        self.config.is_some()
    }

    /// Current contract version; fails before initialization.
    pub fn get_version(&self) -> (r: Result<u32, Error>)
        ensures
            r == match spec_get_config(self@) {
                Ok(c) => Ok(c.version),
                Err(e) => Err(e),
            },
    {
        match self.config {
            Some(c) => Ok(c.version),
            None => Err(Error::NotInitialized),
        }
    }

    /// Current admin principal; fails before initialization.
    pub fn get_admin(&self) -> (r: Result<u64, Error>)
        ensures
            r == match spec_get_config(self@) {
                Ok(c) => Ok(c.admin),
                Err(e) => Err(e),
            },
    {
        match self.config {
            Some(c) => Ok(c.admin),
            None => Err(Error::NotInitialized),
        }
    }
}

} // verus!
