//! The global metadata of a deployment: what it tells the outside about
//! itself.

use vstd::prelude::*;
use crate::constants::{byte_len, text_len, MAX_DESCRIPTION_LEN, MAX_METADATA_URI_LEN, MAX_TAGS_LEN};
use crate::errors::Unit09Error;
use crate::ledger::Clock;
use crate::utils::text::{first_of, replaced};

verus! {

/// Free-text description of a deployment and where to read more.
#[derive(Clone, Debug, PartialEq, Eq, Default)]
pub struct GlobalMetadata {
    /// What the deployment is.
    pub description: String,
    /// Comma-separated tags.
    pub tags: String,
    /// Where the documentation lives.
    pub docs_uri: String,
    /// Where a dashboard lives.
    pub dashboard_uri: String,
    /// When the record last changed, in Unix seconds.
    pub updated_at: i64,
    /// Nonce of the record's derived address.
    pub bump: u8,
}

/// The error, if any, with which a metadata text of an update is refused:
/// a text that is given may be empty, but not longer than `max_len` bytes.
pub open spec fn metadata_rejection(text: Option<String>, max_len: usize) -> Option<Unit09Error> {
    if text is Some && byte_len(text->0@) > max_len {
        Some(Unit09Error::MetadataTooLong)
    } else {
        None
    }
}

/// Checks a metadata text of an update, if one is given.
pub fn check_metadata_text(text: &Option<String>, max_len: usize) -> (r: Result<(), Unit09Error>)
    ensures
        match r {
            Ok(()) => metadata_rejection(*text, max_len) is None,
            Err(e) => metadata_rejection(*text, max_len) == Some(e),
        },
{
    match text {
        Some(given) => {
            if text_len(given.as_str()) > max_len {
                return Err(Unit09Error::MetadataTooLong);
            }
            Ok(())
        },
        None => Ok(()),
    }
}

impl GlobalMetadata {
    /// Longest description, in bytes.
    pub const MAX_DESCRIPTION_LEN: usize = MAX_DESCRIPTION_LEN;

    /// Longest tag list, in bytes.
    pub const MAX_TAGS_LEN: usize = MAX_TAGS_LEN;

    /// Longest URI, in bytes.
    pub const MAX_URI_LEN: usize = MAX_METADATA_URI_LEN;

    /// The error, if any, with which the texts of an update are refused:
    /// first the description, then the tags, then the two URIs.
    pub open spec fn update_rejection(
        description: Option<String>,
        tags: Option<String>,
        docs_uri: Option<String>,
        dashboard_uri: Option<String>,
    ) -> Option<Unit09Error> {
        first_of(
            metadata_rejection(description, MAX_DESCRIPTION_LEN),
            first_of(
                metadata_rejection(tags, MAX_TAGS_LEN),
                first_of(
                    metadata_rejection(docs_uri, MAX_METADATA_URI_LEN),
                    metadata_rejection(dashboard_uri, MAX_METADATA_URI_LEN),
                ),
            ),
        )
    }

    /// The record after a sparse update: every text that is given replaces
    /// the stored one, the others stay, and `updated_at` becomes `now`.
    pub open spec fn updated(
        self,
        description: Option<String>,
        tags: Option<String>,
        docs_uri: Option<String>,
        dashboard_uri: Option<String>,
        now: i64,
    ) -> GlobalMetadata {
        GlobalMetadata {
            description: replaced(self.description, description),
            tags: replaced(self.tags, tags),
            docs_uri: replaced(self.docs_uri, docs_uri),
            dashboard_uri: replaced(self.dashboard_uri, dashboard_uri),
            updated_at: now,
            ..self
        }
    }

    /// Whether this is the record that initialisation leaves behind: every
    /// text empty.
    pub open spec fn is_blank(&self, bump: u8, now: i64) -> bool {
        &&& self.description@ == Seq::<char>::empty()
        &&& self.tags@ == Seq::<char>::empty()
        &&& self.docs_uri@ == Seq::<char>::empty()
        &&& self.dashboard_uri@ == Seq::<char>::empty()
        &&& self.updated_at == now
        &&& self.bump == bump
    }

    /// Starts the record with every text empty.
    pub fn init(&mut self, bump: u8, clock: &Clock)
        ensures
            final(self).is_blank(bump, clock.unix_timestamp),
    {
        self.description = String::new();
        self.tags = String::new();
        self.docs_uri = String::new();
        self.dashboard_uri = String::new();
        self.updated_at = clock.unix_timestamp;
        self.bump = bump;
    }

    /// Applies a sparse update to the four texts.
    ///
    /// A refused update leaves the record as it was.
    pub fn apply_update(
        &mut self,
        description: Option<String>,
        tags: Option<String>,
        docs_uri: Option<String>,
        dashboard_uri: Option<String>,
        clock: &Clock,
    ) -> (r: Result<(), Unit09Error>)
        ensures
            match r {
                Ok(()) => GlobalMetadata::update_rejection(
                    description,
                    tags,
                    docs_uri,
                    dashboard_uri,
                ) is None && *final(self) == old(self).updated(
                    description,
                    tags,
                    docs_uri,
                    dashboard_uri,
                    clock.unix_timestamp,
                ),
                Err(e) => GlobalMetadata::update_rejection(
                    description,
                    tags,
                    docs_uri,
                    dashboard_uri,
                ) == Some(e) && *final(self) == *old(self),
            },
    {
        check_metadata_text(&description, MAX_DESCRIPTION_LEN)?;
        check_metadata_text(&tags, MAX_TAGS_LEN)?;
        check_metadata_text(&docs_uri, MAX_METADATA_URI_LEN)?;
        check_metadata_text(&dashboard_uri, MAX_METADATA_URI_LEN)?;
        if let Some(text) = description {
            self.description = text;
        }
        if let Some(text) = tags {
            self.tags = text;
        }
        if let Some(text) = docs_uri {
            self.docs_uri = text;
        }
        if let Some(text) = dashboard_uri {
            self.dashboard_uri = text;
        }
        self.updated_at = clock.unix_timestamp;
        Ok(())
    }
}

} // verus!
