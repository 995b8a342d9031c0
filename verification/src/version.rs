//! The versions of the credential format, and their detection from a
//! `@context` list.

use crate::error::DTGCredentialError;
use crate::text::holds_text;
use vstd::prelude::*;

verus! {

/// The versions of the credential format.
#[derive(Debug, Clone, Copy, PartialEq, Eq, Structural)]
pub enum FormatVersion {
    /// The legacy format, with `issuanceDate` and `expirationDate`.
    V1,
    /// The current format, with `validFrom` and `validUntil`.
    V2,
}

impl FormatVersion {
    /// The context link that names this version.
    pub open spec fn context(self) -> Seq<char> {
        match self {
            FormatVersion::V1 => "https://www.w3.org/2018/credentials/v1"@,
            FormatVersion::V2 => "https://www.w3.org/ns/credentials/v2"@,
        }
    }

    /// The version that a `@context` list names: the legacy version where its
    /// link is in the list, else the current one where its link is.
    pub open spec fn detected(context: Seq<Seq<char>>) -> Option<FormatVersion> {
        if context.contains(FormatVersion::V1.context()) {
            Some(FormatVersion::V1)
        } else if context.contains(FormatVersion::V2.context()) {
            Some(FormatVersion::V2)
        } else {
            None
        }
    }

    /// The name under which a document of this version gives the beginning of
    /// the validity window.
    pub open spec fn valid_from_name(self) -> Seq<char> {
        match self {
            FormatVersion::V1 => "issuanceDate"@,
            FormatVersion::V2 => "validFrom"@,
        }
    }

    /// The name under which a document of this version gives the end of the
    /// validity window.
    pub open spec fn valid_until_name(self) -> Seq<char> {
        match self {
            FormatVersion::V1 => "expirationDate"@,
            FormatVersion::V2 => "validUntil"@,
        }
    }

    /// The context link that names this version.
    pub fn context_str(&self) -> (link: &'static str)
        ensures
            link@ == self.context(),
    {
        match self {
            FormatVersion::V1 => "https://www.w3.org/2018/credentials/v1",
            FormatVersion::V2 => "https://www.w3.org/ns/credentials/v2",
        }
    }

    /// The member name of the beginning of the validity window.
    pub fn valid_from_str(&self) -> (name: &'static str)
        ensures
            name@ == self.valid_from_name(),
    {
        match self {
            FormatVersion::V1 => "issuanceDate",
            FormatVersion::V2 => "validFrom",
        }
    }

    /// The member name of the end of the validity window.
    pub fn valid_until_str(&self) -> (name: &'static str)
        ensures
            name@ == self.valid_until_name(),
    {
        match self {
            FormatVersion::V1 => "expirationDate",
            FormatVersion::V2 => "validUntil",
        }
    }

    /// Detects the version of the format from a `@context` list.
    pub fn detect(context: &[String]) -> (found: Result<FormatVersion, DTGCredentialError>)
        ensures
            found == match Self::detected(context.deep_view()) {
                Some(version) => Ok::<FormatVersion, DTGCredentialError>(version),
                None => Err(DTGCredentialError::UnknownFormatVersion),
            },
    {
        if holds_text(context, FormatVersion::V1.context_str()) {
            Ok(FormatVersion::V1)
        } else if holds_text(context, FormatVersion::V2.context_str()) {
            Ok(FormatVersion::V2)
        } else {
            Err(DTGCredentialError::UnknownFormatVersion)
        }
    }
}

} // verus!
