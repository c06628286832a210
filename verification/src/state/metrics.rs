//! The global aggregate counters.
//!
//! Two distinct operations change them. Recording an observation adds to the
//! counters and never lets one wrap. Reconciliation by the admin overwrites
//! the counters it names with the values given.

use vstd::prelude::*;
use crate::errors::Unit09Error;
use crate::ledger::Clock;

verus! {

/// Deployment-wide totals.
#[derive(Clone, Copy, Debug, PartialEq, Eq, Default)]
pub struct Metrics {
    /// Number of repositories registered.
    pub total_repos: u64,
    /// Number of modules registered.
    pub total_modules: u64,
    /// Number of forks created.
    pub total_forks: u64,
    /// Number of observation runs recorded.
    pub total_observations: u64,
    /// Lines of code over all observations.
    pub total_lines_of_code: u64,
    /// Files over all observations.
    pub total_files_processed: u64,
    /// When a counter last changed, in Unix seconds.
    pub updated_at: i64,
    /// Nonce of the record's derived address.
    pub bump: u8,
}

/// The counter after an optional overwrite.
pub open spec fn overwritten(current: u64, replacement: Option<u64>) -> u64 {
    if replacement is Some {
        replacement->0
    } else {
        current
    }
}

/// Whether a replacement is the reserved value that no counter may take.
pub open spec fn is_sentinel(replacement: Option<u64>) -> bool {
    replacement == Some(u64::MAX)
}

fn holds_sentinel(replacement: Option<u64>) -> (r: bool)
    ensures
        r == is_sentinel(replacement),
{
    match replacement {
        Some(v) => v == u64::MAX,
        None => false,
    }
}

fn overwrite(current: u64, replacement: Option<u64>) -> (r: u64)
    ensures
        r == overwritten(current, replacement),
{
    match replacement {
        Some(v) => v,
        None => current,
    }
}

impl Metrics {
    /// Whether one more observation of this size fits into the counters.
    pub open spec fn fits_observation(&self, lines_of_code: u64, files_processed: u32) -> bool {
        &&& self.total_observations + 1 <= u64::MAX
        &&& self.total_lines_of_code + lines_of_code <= u64::MAX
        &&& self.total_files_processed + files_processed <= u64::MAX
    }

    /// The counters after one more observation; meaningful where it fits.
    pub open spec fn with_observation(
        self,
        lines_of_code: u64,
        files_processed: u32,
        now: i64,
    ) -> Metrics {
        Metrics {
            total_observations: (self.total_observations + 1) as u64,
            total_lines_of_code: (self.total_lines_of_code + lines_of_code) as u64,
            total_files_processed: (self.total_files_processed + files_processed) as u64,
            updated_at: now,
            ..self
        }
    }

    /// Whether any of the six replacements is the reserved value.
    pub open spec fn any_sentinel(
        total_repos: Option<u64>,
        total_modules: Option<u64>,
        total_forks: Option<u64>,
        total_observations: Option<u64>,
        total_lines_of_code: Option<u64>,
        total_files_processed: Option<u64>,
    ) -> bool {
        is_sentinel(total_repos) || is_sentinel(total_modules) || is_sentinel(total_forks)
            || is_sentinel(total_observations) || is_sentinel(total_lines_of_code) || is_sentinel(
            total_files_processed,
        )
    }

    /// The counters after reconciliation: each given value replaces its
    /// counter, the others stay.
    pub open spec fn adjusted(
        self,
        total_repos: Option<u64>,
        total_modules: Option<u64>,
        total_forks: Option<u64>,
        total_observations: Option<u64>,
        total_lines_of_code: Option<u64>,
        total_files_processed: Option<u64>,
        now: i64,
    ) -> Metrics {
        Metrics {
            total_repos: overwritten(self.total_repos, total_repos),
            total_modules: overwritten(self.total_modules, total_modules),
            total_forks: overwritten(self.total_forks, total_forks),
            total_observations: overwritten(self.total_observations, total_observations),
            total_lines_of_code: overwritten(self.total_lines_of_code, total_lines_of_code),
            total_files_processed: overwritten(self.total_files_processed, total_files_processed),
            updated_at: now,
            ..self
        }
    }

    /// Starts all counters at zero.
    pub fn init(&mut self, bump: u8, clock: &Clock)
        ensures
            *final(self) == (Metrics {
                total_repos: 0,
                total_modules: 0,
                total_forks: 0,
                total_observations: 0,
                total_lines_of_code: 0,
                total_files_processed: 0,
                updated_at: clock.unix_timestamp,
                bump,
            }),
    {
        self.total_repos = 0;
        self.total_modules = 0;
        self.total_forks = 0;
        self.total_observations = 0;
        self.total_lines_of_code = 0;
        self.total_files_processed = 0;
        self.updated_at = clock.unix_timestamp;
        self.bump = bump;
    }

    /// Counts one more repository.
    ///
    /// Fails with `CounterOverflow`, changing nothing, if the counter is full.
    pub fn count_repo(&mut self, clock: &Clock) -> (r: Result<(), Unit09Error>)
        ensures
            old(self).total_repos < u64::MAX ==> r == Ok::<(), Unit09Error>(()) && *final(self)
                == (Metrics {
                total_repos: (old(self).total_repos + 1) as u64,
                updated_at: clock.unix_timestamp,
                ..*old(self)
            }),
            old(self).total_repos == u64::MAX ==> r == Err::<(), Unit09Error>(
                Unit09Error::CounterOverflow,
            ) && *final(self) == *old(self),
    {
        if self.total_repos == u64::MAX {
            return Err(Unit09Error::CounterOverflow);
        }
        self.total_repos = self.total_repos + 1;
        self.updated_at = clock.unix_timestamp;
        Ok(())
    }

    /// Counts one more module.
    ///
    /// Fails with `CounterOverflow`, changing nothing, if the counter is full.
    pub fn count_module(&mut self, clock: &Clock) -> (r: Result<(), Unit09Error>)
        ensures
            old(self).total_modules < u64::MAX ==> r == Ok::<(), Unit09Error>(()) && *final(self)
                == (Metrics {
                total_modules: (old(self).total_modules + 1) as u64,
                updated_at: clock.unix_timestamp,
                ..*old(self)
            }),
            old(self).total_modules == u64::MAX ==> r == Err::<(), Unit09Error>(
                Unit09Error::CounterOverflow,
            ) && *final(self) == *old(self),
    {
        if self.total_modules == u64::MAX {
            return Err(Unit09Error::CounterOverflow);
        }
        self.total_modules = self.total_modules + 1;
        self.updated_at = clock.unix_timestamp;
        Ok(())
    }

    /// Whether one more observation of this size would make a counter wrap.
    pub fn observation_overflows(&self, lines_of_code: u64, files_processed: u32) -> (r: bool)
        ensures
            r == !self.fits_observation(lines_of_code, files_processed),
    {
        self.total_observations == u64::MAX || lines_of_code > u64::MAX - self.total_lines_of_code
            || files_processed as u64 > u64::MAX - self.total_files_processed
    }

    /// Counts one observation run and adds its lines and files to the totals.
    ///
    /// Fails with `CounterOverflow`, changing nothing, if a counter would
    /// no longer fit.
    pub fn record_observation(
        &mut self,
        lines_of_code: u64,
        files_processed: u32,
        clock: &Clock,
    ) -> (r: Result<(), Unit09Error>)
        ensures
            match r {
                Ok(()) => old(self).fits_observation(lines_of_code, files_processed)
                    && *final(self) == old(self).with_observation(
                    lines_of_code,
                    files_processed,
                    clock.unix_timestamp,
                ),
                Err(e) => !old(self).fits_observation(lines_of_code, files_processed) && e
                    == Unit09Error::CounterOverflow && *final(self) == *old(self),
            },
            r is Ok ==> {
                &&& final(self).total_observations == old(self).total_observations + 1
                &&& final(self).total_lines_of_code == old(self).total_lines_of_code
                    + lines_of_code
                &&& final(self).total_files_processed == old(self).total_files_processed
                    + files_processed
                &&& final(self).total_repos == old(self).total_repos
                &&& final(self).total_modules == old(self).total_modules
                &&& final(self).total_forks == old(self).total_forks
            },
    {
        if self.observation_overflows(lines_of_code, files_processed) {
            return Err(Unit09Error::CounterOverflow);
        }
        self.total_observations = self.total_observations + 1;
        self.total_lines_of_code = self.total_lines_of_code + lines_of_code;
        self.total_files_processed = self.total_files_processed + files_processed as u64;
        self.updated_at = clock.unix_timestamp;
        Ok(())
    }

    /// Overwrites each counter for which a value is given.
    ///
    /// The value `u64::MAX` is reserved: if any of the six is that value the
    /// call fails with `ValueOutOfRange` and no counter changes.
    pub fn adjust_aggregate(
        &mut self,
        total_repos: Option<u64>,
        total_modules: Option<u64>,
        total_forks: Option<u64>,
        total_observations: Option<u64>,
        total_lines_of_code: Option<u64>,
        total_files_processed: Option<u64>,
        clock: &Clock,
    ) -> (r: Result<(), Unit09Error>)
        ensures
            Metrics::any_sentinel(
                total_repos,
                total_modules,
                total_forks,
                total_observations,
                total_lines_of_code,
                total_files_processed,
            ) ==> r == Err::<(), Unit09Error>(Unit09Error::ValueOutOfRange) && *final(self)
                == *old(self),
            !Metrics::any_sentinel(
                total_repos,
                total_modules,
                total_forks,
                total_observations,
                total_lines_of_code,
                total_files_processed,
            ) ==> r == Ok::<(), Unit09Error>(()) && *final(self) == old(self).adjusted(
                total_repos,
                total_modules,
                total_forks,
                total_observations,
                total_lines_of_code,
                total_files_processed,
                clock.unix_timestamp,
            ),
    {
        if holds_sentinel(total_repos) || holds_sentinel(total_modules) || holds_sentinel(
            total_forks,
        ) || holds_sentinel(total_observations) || holds_sentinel(total_lines_of_code)
            || holds_sentinel(total_files_processed) {
            return Err(Unit09Error::ValueOutOfRange);
        }
        self.total_repos = overwrite(self.total_repos, total_repos);
        self.total_modules = overwrite(self.total_modules, total_modules);
        self.total_forks = overwrite(self.total_forks, total_forks);
        self.total_observations = overwrite(self.total_observations, total_observations);
        self.total_lines_of_code = overwrite(self.total_lines_of_code, total_lines_of_code);
        self.total_files_processed = overwrite(self.total_files_processed, total_files_processed);
        self.updated_at = clock.unix_timestamp;
        Ok(())
    }
}

/// Reconciliation overwrites and does not add: applying the same values a
/// second time, at the same moment, gives the same counters again.
pub proof fn lemma_adjust_is_idempotent(
    metrics: Metrics,
    total_repos: Option<u64>,
    total_modules: Option<u64>,
    total_forks: Option<u64>,
    total_observations: Option<u64>,
    total_lines_of_code: Option<u64>,
    total_files_processed: Option<u64>,
    now: i64,
)
    ensures
        metrics.adjusted(
            total_repos,
            total_modules,
            total_forks,
            total_observations,
            total_lines_of_code,
            total_files_processed,
            now,
        ).adjusted(
            total_repos,
            total_modules,
            total_forks,
            total_observations,
            total_lines_of_code,
            total_files_processed,
            now,
        ) == metrics.adjusted(
            total_repos,
            total_modules,
            total_forks,
            total_observations,
            total_lines_of_code,
            total_files_processed,
            now,
        ),
{
}

/// A counter for which a value is given ends at that value, whatever it held.
pub proof fn lemma_adjust_forgets_named_counters(
    first: Metrics,
    second: Metrics,
    total_repos: u64,
    total_modules: u64,
    total_forks: u64,
    total_observations: u64,
    total_lines_of_code: u64,
    total_files_processed: u64,
    now: i64,
)
    requires
        first.bump == second.bump,
    ensures
        first.adjusted(
            Some(total_repos),
            Some(total_modules),
            Some(total_forks),
            Some(total_observations),
            Some(total_lines_of_code),
            Some(total_files_processed),
            now,
        ) == second.adjusted(
            Some(total_repos),
            Some(total_modules),
            Some(total_forks),
            Some(total_observations),
            Some(total_lines_of_code),
            Some(total_files_processed),
            now,
        ),
{
}

} // verus!
