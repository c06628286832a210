//! A tracked repository and the bookkeeping of its observations.

use vstd::prelude::*;
use crate::constants::{
    byte_len, text_len, MAX_NAME_LEN, MAX_OBSERVATION_NOTE_LEN, MAX_REPO_TAGS_LEN,
    MAX_REVISION_LEN, MAX_URL_LEN, SOFT_MAX_OBSERVATIONS_PER_REPO,
};
use crate::errors::Unit09Error;
use crate::ledger::{Clock, Pubkey};
use crate::utils::text::{
    check_optional_text, check_optional_update, check_required_text, check_required_update,
    first_of, optional_text_rejection, optional_update_rejection, replaced,
    required_text_rejection, required_update_rejection,
};

verus! {

/// One repository of the registry.
#[derive(Clone, Debug, PartialEq, Eq, Default)]
pub struct Repo {
    /// The key from which the record's address is derived.
    pub repo_key: Pubkey,
    /// The key that may change the record.
    pub authority: Pubkey,
    /// Human-readable name.
    pub name: String,
    /// Where the repository lives.
    pub url: String,
    /// Comma-separated tags.
    pub tags: String,
    /// Whether the repository takes part in the registry.
    pub is_active: bool,
    /// Whether observations of the repository may be recorded.
    pub allow_observation: bool,
    /// Number of modules linked to the repository.
    pub module_count: u32,
    /// Number of observations recorded.
    pub observation_count: u64,
    /// Number of observations after which no further one is taken.
    pub observation_limit: u64,
    /// Lines of code over all observations.
    pub total_lines_of_code: u64,
    /// Files over all observations.
    pub total_files_processed: u64,
    /// Modules touched over all observations.
    pub total_modules_touched: u64,
    /// Revision identifier of the latest observation.
    pub last_revision: String,
    /// Note of the latest observation.
    pub last_note: String,
    /// Who recorded the latest observation.
    pub last_observer: Pubkey,
    /// When the latest observation was recorded, in Unix seconds.
    pub last_observed_at: i64,
    /// When the record was created, in Unix seconds.
    pub created_at: i64,
    /// When the record last changed, in Unix seconds.
    pub updated_at: i64,
    /// Nonce of the record's derived address.
    pub bump: u8,
}

impl Repo {
    /// Longest name, in bytes.
    pub const MAX_NAME_LEN: usize = MAX_NAME_LEN;

    /// Longest URL, in bytes.
    pub const MAX_URL_LEN: usize = MAX_URL_LEN;

    /// Longest tag list, in bytes.
    pub const MAX_TAGS_LEN: usize = MAX_REPO_TAGS_LEN;

    /// Longest revision identifier, in bytes.
    pub const MAX_REVISION_LEN: usize = MAX_REVISION_LEN;

    /// Longest observation note, in bytes.
    pub const MAX_OBSERVATION_NOTE_LEN: usize = MAX_OBSERVATION_NOTE_LEN;

    /// Whether the counters have room for one more observation of this size.
    pub open spec fn fits_observation(
        &self,
        lines_of_code: u64,
        files_processed: u32,
        modules_touched: u32,
    ) -> bool {
        &&& self.observation_count + 1 <= u64::MAX
        &&& self.total_lines_of_code + lines_of_code <= u64::MAX
        &&& self.total_files_processed + files_processed <= u64::MAX
        &&& self.total_modules_touched + modules_touched <= u64::MAX
    }

    /// The error, if any, with which an observation is refused. The texts
    /// are looked at first, then the cap, then the counters.
    pub open spec fn observation_rejection(
        &self,
        lines_of_code: u64,
        files_processed: u32,
        modules_touched: u32,
        revision: Seq<char>,
        note: Seq<char>,
    ) -> Option<Unit09Error> {
        if byte_len(revision) > MAX_REVISION_LEN {
            Some(Unit09Error::StringTooLong)
        } else if byte_len(note) > MAX_OBSERVATION_NOTE_LEN {
            Some(Unit09Error::StringTooLong)
        } else if self.observation_count >= self.observation_limit {
            Some(Unit09Error::RepoObservationLimitReached)
        } else if !self.fits_observation(lines_of_code, files_processed, modules_touched) {
            Some(Unit09Error::CounterOverflow)
        } else {
            None
        }
    }

    /// The record after one more observation; meaningful where it is accepted.
    pub open spec fn with_observation(
        self,
        lines_of_code: u64,
        files_processed: u32,
        modules_touched: u32,
        revision: String,
        note: String,
        observer: Pubkey,
        now: i64,
    ) -> Repo {
        Repo {
            observation_count: (self.observation_count + 1) as u64,
            total_lines_of_code: (self.total_lines_of_code + lines_of_code) as u64,
            total_files_processed: (self.total_files_processed + files_processed) as u64,
            total_modules_touched: (self.total_modules_touched + modules_touched) as u64,
            last_revision: revision,
            last_note: note,
            last_observer: observer,
            last_observed_at: now,
            updated_at: now,
            ..self
        }
    }

    /// The error, if any, with which the texts of a repository are refused:
    /// first the name, then the URL, then the tags.
    pub open spec fn text_rejection(name: Seq<char>, url: Seq<char>, tags: Seq<char>) -> Option<
        Unit09Error,
    > {
        first_of(
            required_text_rejection(name, MAX_NAME_LEN),
            first_of(
                required_text_rejection(url, MAX_URL_LEN),
                optional_text_rejection(tags, MAX_REPO_TAGS_LEN),
            ),
        )
    }

    /// The error, if any, with which the texts of an update are refused.
    /// Only the texts that are given are looked at, in the same order.
    pub open spec fn update_rejection(
        name: Option<String>,
        url: Option<String>,
        tags: Option<String>,
    ) -> Option<Unit09Error> {
        first_of(
            required_update_rejection(name, MAX_NAME_LEN),
            first_of(
                required_update_rejection(url, MAX_URL_LEN),
                optional_update_rejection(tags, MAX_REPO_TAGS_LEN),
            ),
        )
    }

    /// Whether this is the record that a successful registration leaves
    /// behind: active, open to observation, every counter at zero, the
    /// default cap, and no observation yet.
    pub open spec fn is_fresh(
        &self,
        repo_key: Pubkey,
        authority: Pubkey,
        name: String,
        url: String,
        tags: String,
        bump: u8,
        now: i64,
    ) -> bool {
        &&& self.repo_key == repo_key
        &&& self.authority == authority
        &&& self.name == name
        &&& self.url == url
        &&& self.tags == tags
        &&& self.is_active
        &&& self.allow_observation
        &&& self.module_count == 0
        &&& self.observation_count == 0
        &&& self.observation_limit == SOFT_MAX_OBSERVATIONS_PER_REPO
        &&& self.total_lines_of_code == 0
        &&& self.total_files_processed == 0
        &&& self.total_modules_touched == 0
        &&& self.last_revision@ == Seq::<char>::empty()
        &&& self.last_note@ == Seq::<char>::empty()
        &&& self.last_observer == Pubkey::zero()
        &&& self.last_observed_at == 0
        &&& self.created_at == now
        &&& self.updated_at == now
        &&& self.bump == bump
    }

    /// The record after a sparse update: every value that is given replaces
    /// the stored one, the others stay, and `updated_at` becomes `now`.
    pub open spec fn updated(
        self,
        name: Option<String>,
        url: Option<String>,
        tags: Option<String>,
        is_active: Option<bool>,
        allow_observation: Option<bool>,
        observation_limit: Option<u64>,
        now: i64,
    ) -> Repo {
        Repo {
            name: replaced(self.name, name),
            url: replaced(self.url, url),
            tags: replaced(self.tags, tags),
            is_active: if is_active is Some {
                is_active->0
            } else {
                self.is_active
            },
            allow_observation: if allow_observation is Some {
                allow_observation->0
            } else {
                self.allow_observation
            },
            observation_limit: if observation_limit is Some {
                observation_limit->0
            } else {
                self.observation_limit
            },
            updated_at: now,
            ..self
        }
    }

    /// Checks the three texts of a repository in the order name, URL, tags.
    pub fn check_texts(name: &str, url: &str, tags: &str) -> (r: Result<(), Unit09Error>)
        ensures
            match r {
                Ok(()) => Repo::text_rejection(name@, url@, tags@) is None,
                Err(e) => Repo::text_rejection(name@, url@, tags@) == Some(e),
            },
    {
        check_required_text(name, MAX_NAME_LEN)?;
        check_required_text(url, MAX_URL_LEN)?;
        check_optional_text(tags, MAX_REPO_TAGS_LEN)
    }

    /// Checks the texts of an update; a text that is not given passes.
    pub fn check_update(name: &Option<String>, url: &Option<String>, tags: &Option<String>) -> (r:
        Result<(), Unit09Error>)
        ensures
            match r {
                Ok(()) => Repo::update_rejection(*name, *url, *tags) is None,
                Err(e) => Repo::update_rejection(*name, *url, *tags) == Some(e),
            },
    {
        check_required_update(name, MAX_NAME_LEN)?;
        check_required_update(url, MAX_URL_LEN)?;
        check_optional_update(tags, MAX_REPO_TAGS_LEN)
    }

    /// Sets every field of a new repository.
    ///
    /// A refused initialisation leaves the record as it was.
    pub fn init(
        &mut self,
        repo_key: Pubkey,
        authority: Pubkey,
        name: String,
        url: String,
        tags: String,
        bump: u8,
        clock: &Clock,
    ) -> (r: Result<(), Unit09Error>)
        ensures
            match r {
                Ok(()) => Repo::text_rejection(name@, url@, tags@) is None && final(self).is_fresh(repo_key, authority, name, url, tags, bump, clock.unix_timestamp),
                Err(e) => Repo::text_rejection(name@, url@, tags@) == Some(e) && *final(self)
                    == *old(self),
            },
    {
        Self::check_texts(name.as_str(), url.as_str(), tags.as_str())?;
        self.repo_key = repo_key;
        self.authority = authority;
        self.name = name;
        self.url = url;
        self.tags = tags;
        self.is_active = true;
        self.allow_observation = true;
        self.module_count = 0;
        self.observation_count = 0;
        self.observation_limit = SOFT_MAX_OBSERVATIONS_PER_REPO;
        self.total_lines_of_code = 0;
        self.total_files_processed = 0;
        self.total_modules_touched = 0;
        self.last_revision = String::new();
        self.last_note = String::new();
        self.last_observer = Pubkey::default();
        self.last_observed_at = 0;
        self.created_at = clock.unix_timestamp;
        self.updated_at = clock.unix_timestamp;
        self.bump = bump;
        Ok(())
    }

    /// Applies a sparse update to name, URL, tags, the two flags and the
    /// observation cap. Key, authority and counters never change.
    ///
    /// A refused update leaves the record as it was.
    pub fn apply_update(
        &mut self,
        name: Option<String>,
        url: Option<String>,
        tags: Option<String>,
        is_active: Option<bool>,
        allow_observation: Option<bool>,
        observation_limit: Option<u64>,
        clock: &Clock,
    ) -> (r: Result<(), Unit09Error>)
        ensures
            match r {
                Ok(()) => Repo::update_rejection(name, url, tags) is None && *final(self) == old(self).updated(
                    name,
                    url,
                    tags,
                    is_active,
                    allow_observation,
                    observation_limit,
                    clock.unix_timestamp,
                ),
                Err(e) => Repo::update_rejection(name, url, tags) == Some(e) && *final(self)
                    == *old(self),
            },
    {
        Self::check_update(&name, &url, &tags)?;
        if let Some(text) = name {
            self.name = text;
        }
        if let Some(text) = url {
            self.url = text;
        }
        if let Some(text) = tags {
            self.tags = text;
        }
        if let Some(flag) = is_active {
            self.is_active = flag;
        }
        if let Some(flag) = allow_observation {
            self.allow_observation = flag;
        }
        if let Some(limit) = observation_limit {
            self.observation_limit = limit;
        }
        self.updated_at = clock.unix_timestamp;
        Ok(())
    }

    /// Accepts the signer only if it is the authority of the repository.
    pub fn assert_authority(&self, signer: &Pubkey) -> (r: Result<(), Unit09Error>)
        ensures
            *signer == self.authority ==> r == Ok::<(), Unit09Error>(()),
            *signer != self.authority ==> r == Err::<(), Unit09Error>(
                Unit09Error::InvalidAuthority,
            ),
    {
        if !signer.same_as(&self.authority) {
            return Err(Unit09Error::InvalidAuthority);
        }
        Ok(())
    }

    /// Whether the repository has room for one more module under `cap`.
    pub open spec fn has_module_room(&self, cap: u32) -> bool {
        self.module_count < cap
    }

    /// Accepts a repository that holds fewer than `cap` modules.
    pub fn assert_module_room(&self, cap: u32) -> (r: Result<(), Unit09Error>)
        ensures
            self.has_module_room(cap) ==> r == Ok::<(), Unit09Error>(()),
            !self.has_module_room(cap) ==> r == Err::<(), Unit09Error>(
                Unit09Error::RepoModuleLimitReached,
            ),
    {
        if self.module_count >= cap {
            return Err(Unit09Error::RepoModuleLimitReached);
        }
        Ok(())
    }

    /// Counts one more module linked to the repository.
    pub fn count_module(&mut self, cap: u32, clock: &Clock) -> (r: Result<(), Unit09Error>)
        ensures
            old(self).has_module_room(cap) ==> r == Ok::<(), Unit09Error>(()) && *final(self)
                == (Repo {
                module_count: (old(self).module_count + 1) as u32,
                updated_at: clock.unix_timestamp,
                ..*old(self)
            }),
            !old(self).has_module_room(cap) ==> r == Err::<(), Unit09Error>(
                Unit09Error::RepoModuleLimitReached,
            ) && *final(self) == *old(self),
    {
        self.assert_module_room(cap)?;
        self.module_count = self.module_count + 1;
        self.updated_at = clock.unix_timestamp;
        Ok(())
    }

    /// Accepts a repository that is marked active.
    pub fn assert_active(&self) -> (r: Result<(), Unit09Error>)
        ensures
            self.is_active ==> r == Ok::<(), Unit09Error>(()),
            !self.is_active ==> r == Err::<(), Unit09Error>(Unit09Error::RepoInactive),
    {
        if !self.is_active {
            return Err(Unit09Error::RepoInactive);
        }
        Ok(())
    }

    /// Accepts a repository whose observations may be recorded.
    pub fn assert_observable(&self) -> (r: Result<(), Unit09Error>)
        ensures
            self.allow_observation ==> r == Ok::<(), Unit09Error>(()),
            !self.allow_observation ==> r == Err::<(), Unit09Error>(
                Unit09Error::ObservationNotAllowed,
            ),
    {
        if !self.allow_observation {
            return Err(Unit09Error::ObservationNotAllowed);
        }
        Ok(())
    }

    /// Says whether an observation would be accepted, without recording it.
    pub fn check_observation(
        &self,
        lines_of_code: u64,
        files_processed: u32,
        modules_touched: u32,
        revision: &str,
        note: &str,
    ) -> (r: Result<(), Unit09Error>)
        ensures
            match r {
                Ok(()) => self.observation_rejection(
                    lines_of_code,
                    files_processed,
                    modules_touched,
                    revision@,
                    note@,
                ) is None,
                Err(e) => self.observation_rejection(
                    lines_of_code,
                    files_processed,
                    modules_touched,
                    revision@,
                    note@,
                ) == Some(e),
            },
    {
        if text_len(revision) > MAX_REVISION_LEN {
            return Err(Unit09Error::StringTooLong);
        }
        if text_len(note) > MAX_OBSERVATION_NOTE_LEN {
            return Err(Unit09Error::StringTooLong);
        }
        if self.observation_count >= self.observation_limit {
            return Err(Unit09Error::RepoObservationLimitReached);
        }
        if self.observation_count == u64::MAX || lines_of_code > u64::MAX
            - self.total_lines_of_code || files_processed as u64 > u64::MAX
            - self.total_files_processed || modules_touched as u64 > u64::MAX
            - self.total_modules_touched {
            return Err(Unit09Error::CounterOverflow);
        }
        Ok(())
    }

    /// Records one observation: adds to the counters, keeps revision, note
    /// and observer, and stamps the time.
    ///
    /// A refused observation leaves the record as it was.
    pub fn record_observation(
        &mut self,
        lines_of_code: u64,
        files_processed: u32,
        modules_touched: u32,
        revision: String,
        note: String,
        observer: Pubkey,
        clock: &Clock,
    ) -> (r: Result<(), Unit09Error>)
        ensures
            match r {
                Ok(()) => old(self).observation_rejection(
                    lines_of_code,
                    files_processed,
                    modules_touched,
                    revision@,
                    note@,
                ) is None && *final(self) == old(self).with_observation(
                    lines_of_code,
                    files_processed,
                    modules_touched,
                    revision,
                    note,
                    observer,
                    clock.unix_timestamp,
                ),
                Err(e) => old(self).observation_rejection(
                    lines_of_code,
                    files_processed,
                    modules_touched,
                    revision@,
                    note@,
                ) == Some(e) && *final(self) == *old(self),
            },
            r is Ok ==> {
                &&& final(self).observation_count == old(self).observation_count + 1
                &&& final(self).total_lines_of_code == old(self).total_lines_of_code
                    + lines_of_code
                &&& final(self).total_files_processed == old(self).total_files_processed
                    + files_processed
                &&& final(self).total_modules_touched == old(self).total_modules_touched
                    + modules_touched
                &&& final(self).last_observed_at == clock.unix_timestamp
            },
    {
        self.check_observation(
            lines_of_code,
            files_processed,
            modules_touched,
            revision.as_str(),
            note.as_str(),
        )?;
        self.observation_count = self.observation_count + 1;
        self.total_lines_of_code = self.total_lines_of_code + lines_of_code;
        self.total_files_processed = self.total_files_processed + files_processed as u64;
        self.total_modules_touched = self.total_modules_touched + modules_touched as u64;
        self.last_revision = revision;
        self.last_note = note;
        self.last_observer = observer;
        self.last_observed_at = clock.unix_timestamp;
        self.updated_at = clock.unix_timestamp;
        Ok(())
    }
}

} // verus!
