//! A module: a unit of code that belongs to a repository.

use vstd::prelude::*;
use crate::constants::{
    MAX_METADATA_URI_LEN, MAX_MODULE_CATEGORY_LEN, MAX_NAME_LEN, MAX_TAGS_LEN,
};
use crate::errors::Unit09Error;
use crate::ledger::{Clock, Pubkey};
use crate::utils::text::{
    check_optional_text, check_optional_update, check_required_text, check_required_update,
    first_of, optional_text_rejection, optional_update_rejection, replaced,
    required_text_rejection, required_update_rejection,
};

verus! {

/// A semantic version.
#[derive(Clone, Copy, Debug, PartialEq, Eq, Default)]
pub struct Version {
    /// Incremented on incompatible changes.
    pub major: u16,
    /// Incremented on compatible additions.
    pub minor: u16,
    /// Incremented on fixes.
    pub patch: u16,
}

/// One module of the registry.
#[derive(Clone, Debug, PartialEq, Eq, Default)]
pub struct Module {
    /// The key from which the record's address is derived.
    pub module_key: Pubkey,
    /// Key of the repository that the module is linked to.
    pub repo: Pubkey,
    /// The key that may change the record.
    pub authority: Pubkey,
    /// Human-readable name.
    pub name: String,
    /// Where the module's metadata lives.
    pub metadata_uri: String,
    /// Category of the module.
    pub category: String,
    /// Comma-separated tags.
    pub tags: String,
    /// Current version of the module.
    pub version: Version,
    /// Whether the module may be used.
    pub is_active: bool,
    /// Whether the module is kept only for existing users.
    pub is_deprecated: bool,
    /// When the record was created, in Unix seconds.
    pub created_at: i64,
    /// When the record last changed, in Unix seconds.
    pub updated_at: i64,
    /// Nonce of the record's derived address.
    pub bump: u8,
}

impl Module {
    /// Longest name, in bytes.
    pub const MAX_NAME_LEN: usize = MAX_NAME_LEN;

    /// Longest metadata URI, in bytes.
    pub const MAX_METADATA_URI_LEN: usize = MAX_METADATA_URI_LEN;

    /// Longest category, in bytes.
    pub const MAX_CATEGORY_LEN: usize = MAX_MODULE_CATEGORY_LEN;

    /// Longest tag list, in bytes.
    pub const MAX_TAGS_LEN: usize = MAX_TAGS_LEN;

    /// The error, if any, with which the texts of a module are refused:
    /// first the name, then the metadata URI, the category, the tags.
    pub open spec fn text_rejection(
        name: Seq<char>,
        metadata_uri: Seq<char>,
        category: Seq<char>,
        tags: Seq<char>,
    ) -> Option<Unit09Error> {
        first_of(
            required_text_rejection(name, MAX_NAME_LEN),
            first_of(
                required_text_rejection(metadata_uri, MAX_METADATA_URI_LEN),
                first_of(
                    optional_text_rejection(category, MAX_MODULE_CATEGORY_LEN),
                    optional_text_rejection(tags, MAX_TAGS_LEN),
                ),
            ),
        )
    }

    /// The error, if any, with which the texts of an update are refused.
    /// Only the texts that are given are looked at, in the same order.
    pub open spec fn update_rejection(
        name: Option<String>,
        metadata_uri: Option<String>,
        category: Option<String>,
        tags: Option<String>,
    ) -> Option<Unit09Error> {
        first_of(
            required_update_rejection(name, MAX_NAME_LEN),
            first_of(
                required_update_rejection(metadata_uri, MAX_METADATA_URI_LEN),
                first_of(
                    optional_update_rejection(category, MAX_MODULE_CATEGORY_LEN),
                    optional_update_rejection(tags, MAX_TAGS_LEN),
                ),
            ),
        )
    }

    /// The record that a successful registration leaves behind: active and
    /// not deprecated.
    pub open spec fn initialized(
        module_key: Pubkey,
        repo: Pubkey,
        authority: Pubkey,
        name: String,
        metadata_uri: String,
        category: String,
        tags: String,
        version: Version,
        bump: u8,
        now: i64,
    ) -> Module {
        Module {
            module_key,
            repo,
            authority,
            name,
            metadata_uri,
            category,
            tags,
            version,
            is_active: true,
            is_deprecated: false,
            created_at: now,
            updated_at: now,
            bump,
        }
    }

    /// The record after a sparse update: every value that is given replaces
    /// the stored one, the others stay, and `updated_at` becomes `now`.
    pub open spec fn updated(
        self,
        name: Option<String>,
        metadata_uri: Option<String>,
        category: Option<String>,
        tags: Option<String>,
        version: Option<Version>,
        is_active: Option<bool>,
        is_deprecated: Option<bool>,
        now: i64,
    ) -> Module {
        Module {
            name: replaced(self.name, name),
            metadata_uri: replaced(self.metadata_uri, metadata_uri),
            category: replaced(self.category, category),
            tags: replaced(self.tags, tags),
            version: if version is Some {
                version->0
            } else {
                self.version
            },
            is_active: if is_active is Some {
                is_active->0
            } else {
                self.is_active
            },
            is_deprecated: if is_deprecated is Some {
                is_deprecated->0
            } else {
                self.is_deprecated
            },
            updated_at: now,
            ..self
        }
    }

    /// Checks the four texts of a module in the order name, metadata URI,
    /// category, tags.
    pub fn check_texts(name: &str, metadata_uri: &str, category: &str, tags: &str) -> (r: Result<
        (),
        Unit09Error,
    >)
        ensures
            match r {
                Ok(()) => Module::text_rejection(name@, metadata_uri@, category@, tags@) is None,
                Err(e) => Module::text_rejection(name@, metadata_uri@, category@, tags@) == Some(
                    e,
                ),
            },
    {
        check_required_text(name, MAX_NAME_LEN)?;
        check_required_text(metadata_uri, MAX_METADATA_URI_LEN)?;
        check_optional_text(category, MAX_MODULE_CATEGORY_LEN)?;
        check_optional_text(tags, MAX_TAGS_LEN)
    }

    /// Checks the texts of an update; a text that is not given passes.
    pub fn check_update(
        name: &Option<String>,
        metadata_uri: &Option<String>,
        category: &Option<String>,
        tags: &Option<String>,
    ) -> (r: Result<(), Unit09Error>)
        ensures
            match r {
                Ok(()) => Module::update_rejection(*name, *metadata_uri, *category, *tags) is None,
                Err(e) => Module::update_rejection(*name, *metadata_uri, *category, *tags) == Some(
                    e,
                ),
            },
    {
        check_required_update(name, MAX_NAME_LEN)?;
        check_required_update(metadata_uri, MAX_METADATA_URI_LEN)?;
        check_optional_update(category, MAX_MODULE_CATEGORY_LEN)?;
        check_optional_update(tags, MAX_TAGS_LEN)
    }

    /// Sets every field of a new module and links it to a repository.
    ///
    /// A refused initialisation leaves the record as it was.
    pub fn init(
        &mut self,
        module_key: Pubkey,
        repo: Pubkey,
        authority: Pubkey,
        name: String,
        metadata_uri: String,
        category: String,
        tags: String,
        version: Version,
        bump: u8,
        clock: &Clock,
    ) -> (r: Result<(), Unit09Error>)
        ensures
            match r {
                Ok(()) => Module::text_rejection(name@, metadata_uri@, category@, tags@) is None
                    && *final(self) == Module::initialized(
                    module_key,
                    repo,
                    authority,
                    name,
                    metadata_uri,
                    category,
                    tags,
                    version,
                    bump,
                    clock.unix_timestamp,
                ),
                Err(e) => Module::text_rejection(name@, metadata_uri@, category@, tags@) == Some(e)
                    && *final(self) == *old(self),
            },
    {
        Self::check_texts(name.as_str(), metadata_uri.as_str(), category.as_str(), tags.as_str())?;
        self.module_key = module_key;
        self.repo = repo;
        self.authority = authority;
        self.name = name;
        self.metadata_uri = metadata_uri;
        self.category = category;
        self.tags = tags;
        self.version = version;
        self.is_active = true;
        self.is_deprecated = false;
        self.created_at = clock.unix_timestamp;
        self.updated_at = clock.unix_timestamp;
        self.bump = bump;
        Ok(())
    }

    /// Applies a sparse update to the texts, the version and the two flags.
    /// Key, repository and authority never change here.
    ///
    /// A refused update leaves the record as it was.
    pub fn apply_update(
        &mut self,
        name: Option<String>,
        metadata_uri: Option<String>,
        category: Option<String>,
        tags: Option<String>,
        version: Option<Version>,
        is_active: Option<bool>,
        is_deprecated: Option<bool>,
        clock: &Clock,
    ) -> (r: Result<(), Unit09Error>)
        ensures
            match r {
                Ok(()) => Module::update_rejection(name, metadata_uri, category, tags) is None
                    && *final(self) == old(self).updated(
                    name,
                    metadata_uri,
                    category,
                    tags,
                    version,
                    is_active,
                    is_deprecated,
                    clock.unix_timestamp,
                ),
                Err(e) => Module::update_rejection(name, metadata_uri, category, tags) == Some(e)
                    && *final(self) == *old(self),
            },
    {
        Self::check_update(&name, &metadata_uri, &category, &tags)?;
        if let Some(text) = name {
            self.name = text;
        }
        if let Some(text) = metadata_uri {
            self.metadata_uri = text;
        }
        if let Some(text) = category {
            self.category = text;
        }
        if let Some(text) = tags {
            self.tags = text;
        }
        if let Some(given) = version {
            self.version = given;
        }
        if let Some(flag) = is_active {
            self.is_active = flag;
        }
        if let Some(flag) = is_deprecated {
            self.is_deprecated = flag;
        }
        self.updated_at = clock.unix_timestamp;
        Ok(())
    }

    /// Links the module to the repository with key `repo`.
    pub fn link_to(&mut self, repo: Pubkey, clock: &Clock)
        ensures
            *final(self) == (Module { repo, updated_at: clock.unix_timestamp, ..*old(self) }),
    {
        self.repo = repo;
        self.updated_at = clock.unix_timestamp;
    }

    /// Accepts the signer only if it is the authority of the module.
    pub fn assert_authority(&self, signer: &Pubkey) -> (r: Result<(), Unit09Error>)
        ensures
            *signer == self.authority ==> r == Ok::<(), Unit09Error>(()),
            *signer != self.authority ==> r == Err::<(), Unit09Error>(
                Unit09Error::InvalidAuthority,
            ),
    {
        if !signer.same_as(&self.authority) {
            return Err(Unit09Error::InvalidAuthority);
        }
        Ok(())
    }

    /// Accepts a module that is marked active.
    pub fn assert_active(&self) -> (r: Result<(), Unit09Error>)
        ensures
            self.is_active ==> r == Ok::<(), Unit09Error>(()),
            !self.is_active ==> r == Err::<(), Unit09Error>(Unit09Error::ModuleInactive),
    {
        if !self.is_active {
            return Err(Unit09Error::ModuleInactive);
        }
        Ok(())
    }
}

} // verus!
