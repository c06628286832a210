//! The global configuration record.
//!
//! It is initialised once per deployment and afterwards changed only by its
//! admin. A valid configuration has a fee of at most [`MAX_FEE_BPS`] and a
//! module cap above zero.

use vstd::prelude::*;
use crate::constants::{CURRENT_SCHEMA_VERSION, MAX_FEE_BPS};
use crate::errors::Unit09Error;
use crate::ledger::{Clock, Pubkey};

verus! {

/// Protocol-wide parameters of one deployment.
#[derive(Clone, Copy, Debug, PartialEq, Eq)]
pub struct Config {
    /// The only key that may change the configuration.
    pub admin: Pubkey,
    /// Current fee in basis points, at most [`MAX_FEE_BPS`].
    pub fee_bps: u16,
    /// Most modules that one repository may hold; never zero.
    pub max_modules_per_repo: u32,
    /// Version of the record layout.
    pub schema_version: u8,
    /// Whether the deployment accepts instructions.
    pub is_active: bool,
    /// When the record was initialised, in Unix seconds.
    pub created_at: i64,
    /// When the record last changed, in Unix seconds.
    pub updated_at: i64,
    /// Opaque reference to an off-chain policy document.
    pub policy_ref: [u8; 32],
    /// Nonce of the record's derived address.
    pub bump: u8,
    /// Room for fields of later versions.
    pub reserved: [u8; 63],
}

impl Config {
    /// Bytes that precede every stored record.
    pub const DISCRIMINATOR_LEN: usize = 8;

    /// Stored size of the record in bytes.
    pub const LEN: usize = 160;

    /// The invariant of a configuration: fee within bounds, module cap set.
    pub open spec fn wf(&self) -> bool {
        self.fee_bps <= MAX_FEE_BPS && self.max_modules_per_repo > 0
    }

    /// The error, if any, with which a fee and a module cap are refused.
    /// The fee is looked at first.
    pub open spec fn rejection(fee_bps: Option<u16>, max_modules: Option<u32>) -> Option<
        Unit09Error,
    > {
        if fee_bps is Some && fee_bps->0 > MAX_FEE_BPS {
            Some(Unit09Error::InvalidFeeBps)
        } else if max_modules is Some && max_modules->0 == 0 {
            Some(Unit09Error::ValueOutOfRange)
        } else {
            None
        }
    }

    /// The configuration that a successful initialisation leaves behind.
    pub open spec fn initialized(
        admin: Pubkey,
        fee_bps: u16,
        max_modules_per_repo: u32,
        policy_ref: [u8; 32],
        bump: u8,
        now: i64,
    ) -> Config {
        Config {
            admin,
            fee_bps,
            max_modules_per_repo,
            schema_version: CURRENT_SCHEMA_VERSION,
            is_active: true,
            created_at: now,
            updated_at: now,
            policy_ref,
            bump,
            reserved: vstd::array::spec_array_fill_for_copy_type::<u8, 63>(0u8),
        }
    }

    /// Sets every field of the record from values given at deployment.
    pub fn init(
        &mut self,
        admin: Pubkey,
        fee_bps: u16,
        max_modules_per_repo: u32,
        policy_ref: [u8; 32],
        bump: u8,
        clock: &Clock,
    ) -> (r: Result<(), Unit09Error>)
        ensures
            match r {
                Ok(()) => Config::rejection(Some(fee_bps), Some(max_modules_per_repo)) is None
                    && *final(self) == Config::initialized(
                    admin,
                    fee_bps,
                    max_modules_per_repo,
                    policy_ref,
                    bump,
                    clock.unix_timestamp,
                ),
                Err(e) => Config::rejection(Some(fee_bps), Some(max_modules_per_repo)) == Some(e)
                    && *final(self) == *old(self),
            },
            fee_bps > MAX_FEE_BPS ==> r == Err::<(), Unit09Error>(Unit09Error::InvalidFeeBps),
            fee_bps <= MAX_FEE_BPS && max_modules_per_repo == 0 ==> r == Err::<(), Unit09Error>(
                Unit09Error::ValueOutOfRange,
            ),
            fee_bps <= MAX_FEE_BPS && max_modules_per_repo > 0 ==> r is Ok,
            r is Ok ==> final(self).wf(),
    {
        Self::validate_fee_bps(fee_bps)?;
        Self::validate_max_modules(max_modules_per_repo)?;

        self.admin = admin;
        self.fee_bps = fee_bps;
        self.max_modules_per_repo = max_modules_per_repo;
        self.schema_version = CURRENT_SCHEMA_VERSION;
        self.is_active = true;
        self.created_at = clock.unix_timestamp;
        self.updated_at = clock.unix_timestamp;
        self.policy_ref = policy_ref;
        self.bump = bump;
        self.reserved = [0u8; 63];

        Ok(())
    }

    /// The configuration after a sparse update: every value that is given
    /// replaces the stored one, the others stay, and `updated_at` becomes `now`.
    pub open spec fn updated(
        self,
        maybe_fee_bps: Option<u16>,
        maybe_max_modules_per_repo: Option<u32>,
        maybe_is_active: Option<bool>,
        maybe_policy_ref: Option<[u8; 32]>,
        now: i64,
    ) -> Config {
        Config {
            fee_bps: if maybe_fee_bps is Some {
                maybe_fee_bps->0
            } else {
                self.fee_bps
            },
            max_modules_per_repo: if maybe_max_modules_per_repo is Some {
                maybe_max_modules_per_repo->0
            } else {
                self.max_modules_per_repo
            },
            is_active: if maybe_is_active is Some {
                maybe_is_active->0
            } else {
                self.is_active
            },
            policy_ref: if maybe_policy_ref is Some {
                maybe_policy_ref->0
            } else {
                self.policy_ref
            },
            updated_at: now,
            ..self
        }
    }

    /// Applies a sparse update: only the values that are given change.
    ///
    /// Both numbers are validated before anything is written, so a refused
    /// update leaves the record as it was.
    pub fn apply_update(
        &mut self,
        maybe_fee_bps: Option<u16>,
        maybe_max_modules_per_repo: Option<u32>,
        maybe_is_active: Option<bool>,
        maybe_policy_ref: Option<[u8; 32]>,
        clock: &Clock,
    ) -> (r: Result<(), Unit09Error>)
        ensures
            match r {
                Ok(()) => Config::rejection(maybe_fee_bps, maybe_max_modules_per_repo) is None
                    && *final(self) == old(self).updated(
                    maybe_fee_bps,
                    maybe_max_modules_per_repo,
                    maybe_is_active,
                    maybe_policy_ref,
                    clock.unix_timestamp,
                ),
                Err(e) => Config::rejection(maybe_fee_bps, maybe_max_modules_per_repo) == Some(e)
                    && *final(self) == *old(self),
            },
            maybe_fee_bps is Some && maybe_fee_bps->0 > MAX_FEE_BPS ==> r == Err::<
                (),
                Unit09Error,
            >(Unit09Error::InvalidFeeBps),
            !(maybe_fee_bps is Some && maybe_fee_bps->0 > MAX_FEE_BPS)
                && maybe_max_modules_per_repo == Some(0u32) ==> r == Err::<(), Unit09Error>(
                Unit09Error::ValueOutOfRange,
            ),
            !(maybe_fee_bps is Some && maybe_fee_bps->0 > MAX_FEE_BPS)
                && maybe_max_modules_per_repo != Some(0u32) ==> r is Ok,
            maybe_fee_bps is None && maybe_max_modules_per_repo is None && maybe_is_active is None
                && maybe_policy_ref is None ==> r is Ok && *final(self) == (Config {
                updated_at: clock.unix_timestamp,
                ..*old(self)
            }),
            old(self).wf() ==> final(self).wf(),
    {
        if let Some(fee_bps) = maybe_fee_bps {
            Self::validate_fee_bps(fee_bps)?;
        }
        if let Some(max_modules) = maybe_max_modules_per_repo {
            Self::validate_max_modules(max_modules)?;
        }

        if let Some(fee_bps) = maybe_fee_bps {
            self.fee_bps = fee_bps;
        }
        if let Some(max_modules) = maybe_max_modules_per_repo {
            self.max_modules_per_repo = max_modules;
        }
        if let Some(is_active) = maybe_is_active {
            self.is_active = is_active;
        }
        if let Some(policy_ref) = maybe_policy_ref {
            self.policy_ref = policy_ref;
        }
        self.updated_at = clock.unix_timestamp;
        Ok(())
    }

    /// Accepts the signer only if it is the stored admin.
    pub fn assert_admin(&self, signer: &Pubkey) -> (r: Result<(), Unit09Error>)
        ensures
            *signer == self.admin ==> r == Ok::<(), Unit09Error>(()),
            *signer != self.admin ==> r == Err::<(), Unit09Error>(Unit09Error::InvalidAdmin),
    {
        if !signer.same_as(&self.admin) {
            return Err(Unit09Error::InvalidAdmin);
        }
        Ok(())
    }

    /// Accepts a configuration that is marked active.
    pub fn assert_active(&self) -> (r: Result<(), Unit09Error>)
        ensures
            self.is_active ==> r == Ok::<(), Unit09Error>(()),
            !self.is_active ==> r == Err::<(), Unit09Error>(Unit09Error::InvalidLifecycleState),
    {
        if !self.is_active {
            return Err(Unit09Error::InvalidLifecycleState);
        }
        Ok(())
    }

    /// Accepts a fee of at most [`MAX_FEE_BPS`].
    pub fn validate_fee_bps(fee_bps: u16) -> (r: Result<(), Unit09Error>)
        ensures
            fee_bps <= MAX_FEE_BPS ==> r == Ok::<(), Unit09Error>(()),
            fee_bps > MAX_FEE_BPS ==> r == Err::<(), Unit09Error>(Unit09Error::InvalidFeeBps),
    {
        if fee_bps > MAX_FEE_BPS {
            return Err(Unit09Error::InvalidFeeBps);
        }
        Ok(())
    }

    /// Accepts a module cap above zero.
    pub fn validate_max_modules(max_modules: u32) -> (r: Result<(), Unit09Error>)
        ensures
            max_modules > 0 ==> r == Ok::<(), Unit09Error>(()),
            max_modules == 0 ==> r == Err::<(), Unit09Error>(Unit09Error::ValueOutOfRange),
    {
        if max_modules == 0 {
            return Err(Unit09Error::ValueOutOfRange);
        }
        Ok(())
    }
}

} // verus!
