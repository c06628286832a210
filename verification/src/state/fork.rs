//! A fork: a variant of the protocol with its own metadata and lineage.
//!
//! The tree of forks is advisory. A fork names its parent and its depth, and
//! neither is held against the parent's record: a caller may claim any depth.

use vstd::prelude::*;
use crate::constants::{MAX_METADATA_URI_LEN, MAX_NAME_LEN, MAX_TAGS_LEN};
use crate::errors::Unit09Error;
use crate::ledger::{Clock, Pubkey};
use crate::utils::text::{
    check_optional_text, check_optional_update, check_required_text, check_required_update,
    first_of, optional_text_rejection, optional_update_rejection, replaced,
    required_text_rejection, required_update_rejection,
};

verus! {

/// One fork of the registry.
#[derive(Clone, Debug, PartialEq, Eq, Default)]
pub struct Fork {
    /// The key from which the record's address is derived.
    pub fork_key: Pubkey,
    /// The fork this one descends from; the default key where there is none.
    pub parent: Pubkey,
    /// The key that may change the record. It never changes.
    pub owner: Pubkey,
    /// Human-readable label.
    pub label: String,
    /// Where the fork's metadata lives.
    pub metadata_uri: String,
    /// Comma-separated tags.
    pub tags: String,
    /// Whether the fork is a root of the tree.
    pub is_root: bool,
    /// Whether the fork may be used.
    pub is_active: bool,
    /// Claimed distance from the root.
    pub depth: u16,
    /// When the record was created, in Unix seconds.
    pub created_at: i64,
    /// When the record last changed, in Unix seconds.
    pub updated_at: i64,
    /// Nonce of the record's derived address.
    pub bump: u8,
}

impl Fork {
    /// Longest label, in bytes.
    pub const MAX_LABEL_LEN: usize = MAX_NAME_LEN;

    /// Longest metadata URI, in bytes.
    pub const MAX_METADATA_URI_LEN: usize = MAX_METADATA_URI_LEN;

    /// Longest tag list, in bytes.
    pub const MAX_TAGS_LEN: usize = MAX_TAGS_LEN;

    /// The error, if any, with which the texts of a fork are refused: first
    /// the label, then the metadata URI, then the tags.
    pub open spec fn text_rejection(
        label: Seq<char>,
        metadata_uri: Seq<char>,
        tags: Seq<char>,
    ) -> Option<Unit09Error> {
        first_of(
            required_text_rejection(label, MAX_NAME_LEN),
            first_of(
                required_text_rejection(metadata_uri, MAX_METADATA_URI_LEN),
                optional_text_rejection(tags, MAX_TAGS_LEN),
            ),
        )
    }

    /// The depth that a fork is stored with: the explicit one where given,
    /// else 0 for a root and 1 for any other fork.
    pub open spec fn resolved_depth(is_root: bool, depth: Option<u16>) -> u16 {
        if depth is Some {
            depth->0
        } else if is_root {
            0
        } else {
            1
        }
    }

    /// The record that a successful initialisation leaves behind.
    pub open spec fn initialized(
        fork_key: Pubkey,
        parent: Pubkey,
        owner: Pubkey,
        label: String,
        metadata_uri: String,
        tags: String,
        is_root: bool,
        depth: u16,
        bump: u8,
        now: i64,
    ) -> Fork {
        Fork {
            fork_key,
            parent,
            owner,
            label,
            metadata_uri,
            tags,
            is_root,
            is_active: true,
            depth,
            created_at: now,
            updated_at: now,
            bump,
        }
    }

    /// Checks the three texts of a fork in the order label, metadata URI, tags.
    pub fn check_texts(label: &str, metadata_uri: &str, tags: &str) -> (r: Result<
        (),
        Unit09Error,
    >)
        ensures
            match r {
                Ok(()) => Fork::text_rejection(label@, metadata_uri@, tags@) is None,
                Err(e) => Fork::text_rejection(label@, metadata_uri@, tags@) == Some(e),
            },
    {
        check_required_text(label, MAX_NAME_LEN)?;
        check_required_text(metadata_uri, MAX_METADATA_URI_LEN)?;
        check_optional_text(tags, MAX_TAGS_LEN)
    }

    /// Picks the depth to store: an explicit depth always wins; without one
    /// a root gets 0 and any other fork 1.
    pub fn resolve_depth(is_root: bool, depth: Option<u16>) -> (r: u16)
        ensures
            r == Fork::resolved_depth(is_root, depth),
            depth is Some ==> r == depth->0,
            depth is None && is_root ==> r == 0,
            depth is None && !is_root ==> r == 1,
    {
        match depth {
            Some(d) => d,
            None => if is_root {
                0
            } else {
                1
            },
        }
    }

    /// Sets every field of a new fork and marks it active.
    ///
    /// A refused initialisation leaves the record as it was.
    pub fn init(
        &mut self,
        fork_key: Pubkey,
        parent: Pubkey,
        owner: Pubkey,
        label: String,
        metadata_uri: String,
        tags: String,
        is_root: bool,
        depth: u16,
        bump: u8,
        clock: &Clock,
    ) -> (r: Result<(), Unit09Error>)
        ensures
            match r {
                Ok(()) => Fork::text_rejection(label@, metadata_uri@, tags@) is None && *final(self)
                    == Fork::initialized(
                    fork_key,
                    parent,
                    owner,
                    label,
                    metadata_uri,
                    tags,
                    is_root,
                    depth,
                    bump,
                    clock.unix_timestamp,
                ),
                Err(e) => Fork::text_rejection(label@, metadata_uri@, tags@) == Some(e) && *final(self) == *old(self),
            },
    {
        Self::check_texts(label.as_str(), metadata_uri.as_str(), tags.as_str())?;
        self.fork_key = fork_key;
        self.parent = parent;
        self.owner = owner;
        self.label = label;
        self.metadata_uri = metadata_uri;
        self.tags = tags;
        self.is_root = is_root;
        self.is_active = true;
        self.depth = depth;
        self.created_at = clock.unix_timestamp;
        self.updated_at = clock.unix_timestamp;
        self.bump = bump;
        Ok(())
    }

    /// The error, if any, with which the texts of an update are refused.
    /// Only the texts that are given are looked at: first the label, then
    /// the metadata URI, then the tags.
    pub open spec fn update_rejection(
        label: Option<String>,
        metadata_uri: Option<String>,
        tags: Option<String>,
    ) -> Option<Unit09Error> {
        first_of(
            required_update_rejection(label, MAX_NAME_LEN),
            first_of(
                required_update_rejection(metadata_uri, MAX_METADATA_URI_LEN),
                optional_update_rejection(tags, MAX_TAGS_LEN),
            ),
        )
    }

    /// The record after a sparse update: every value that is given replaces
    /// the stored one, the others stay, and `updated_at` becomes `now`.
    pub open spec fn updated(
        self,
        label: Option<String>,
        metadata_uri: Option<String>,
        tags: Option<String>,
        is_active: Option<bool>,
        now: i64,
    ) -> Fork {
        Fork {
            label: replaced(self.label, label),
            metadata_uri: replaced(self.metadata_uri, metadata_uri),
            tags: replaced(self.tags, tags),
            is_active: if is_active is Some {
                is_active->0
            } else {
                self.is_active
            },
            updated_at: now,
            ..self
        }
    }

    /// Checks the texts of an update; a text that is not given passes.
    pub fn check_update(
        label: &Option<String>,
        metadata_uri: &Option<String>,
        tags: &Option<String>,
    ) -> (r: Result<(), Unit09Error>)
        ensures
            match r {
                Ok(()) => Fork::update_rejection(*label, *metadata_uri, *tags) is None,
                Err(e) => Fork::update_rejection(*label, *metadata_uri, *tags) == Some(e),
            },
    {
        check_required_update(label, MAX_NAME_LEN)?;
        check_required_update(metadata_uri, MAX_METADATA_URI_LEN)?;
        check_optional_update(tags, MAX_TAGS_LEN)
    }

    /// Applies a sparse update to label, metadata URI, tags and the active
    /// flag. Owner, parent, depth and the time of creation never change.
    ///
    /// A refused update leaves the record as it was.
    pub fn apply_update(
        &mut self,
        label: Option<String>,
        metadata_uri: Option<String>,
        tags: Option<String>,
        is_active: Option<bool>,
        clock: &Clock,
    ) -> (r: Result<(), Unit09Error>)
        ensures
            match r {
                Ok(()) => Fork::update_rejection(label, metadata_uri, tags) is None && *final(self)
                    == old(self).updated(label, metadata_uri, tags, is_active, clock.unix_timestamp),
                Err(e) => Fork::update_rejection(label, metadata_uri, tags) == Some(e) && *final(self) == *old(self),
            },
            final(self).owner == old(self).owner,
    {
        Self::check_update(&label, &metadata_uri, &tags)?;
        if let Some(text) = label {
            self.label = text;
        }
        if let Some(text) = metadata_uri {
            self.metadata_uri = text;
        }
        if let Some(text) = tags {
            self.tags = text;
        }
        if let Some(flag) = is_active {
            self.is_active = flag;
        }
        self.updated_at = clock.unix_timestamp;
        Ok(())
    }

    /// Accepts the signer only if it owns the fork.
    pub fn assert_owner(&self, signer: &Pubkey) -> (r: Result<(), Unit09Error>)
        ensures
            *signer == self.owner ==> r == Ok::<(), Unit09Error>(()),
            *signer != self.owner ==> r == Err::<(), Unit09Error>(Unit09Error::InvalidForkOwner),
    {
        if !signer.same_as(&self.owner) {
            return Err(Unit09Error::InvalidForkOwner);
        }
        Ok(())
    }
}

} // verus!
