//! Why a provisioning attempt ended without a runnable binary.
use vstd::prelude::*;
use crate::text::{join_text, debug_quote, debug_quoted};

verus! {

/// Why the release feed produced no release.
#[derive(Clone, Debug, PartialEq, Eq)]
pub enum ResolveFailure {
    /// The feed answered, and holds no eligible release.
    NotFound(String),
    /// The feed could not be reached, or its answer could not be read.
    Network(String),
}

pub enum ResolveFailureView {
    NotFound(Seq<char>),
    Network(Seq<char>),
}

impl View for ResolveFailure {
    type V = ResolveFailureView;

    open spec fn view(&self) -> ResolveFailureView {
        match self {
            ResolveFailure::NotFound(m) => ResolveFailureView::NotFound(m@),
            ResolveFailure::Network(m) => ResolveFailureView::Network(m@),
        }
    }
}

/// A terminal failure of one provisioning attempt. None is retried.
#[derive(Clone, Debug, PartialEq, Eq)]
pub enum ProvisionError {
    /// The feed was unreachable or answered with something unreadable.
    Network(String),
    /// The feed holds no eligible release.
    NotFound(String),
    /// No asset of the release carries the expected name, which is given.
    AssetNotFound(String),
    /// The archive could not be transferred or unpacked.
    Download(String),
    /// The file system refused an operation during installation.
    Filesystem(String),
}

pub enum ProvisionErrorView {
    Network(Seq<char>),
    NotFound(Seq<char>),
    AssetNotFound(Seq<char>),
    Download(Seq<char>),
    Filesystem(Seq<char>),
}

impl View for ProvisionError {
    type V = ProvisionErrorView;

    open spec fn view(&self) -> ProvisionErrorView {
        match self {
            ProvisionError::Network(m) => ProvisionErrorView::Network(m@),
            ProvisionError::NotFound(m) => ProvisionErrorView::NotFound(m@),
            ProvisionError::AssetNotFound(n) => ProvisionErrorView::AssetNotFound(n@),
            ProvisionError::Download(m) => ProvisionErrorView::Download(m@),
            ProvisionError::Filesystem(m) => ProvisionErrorView::Filesystem(m@),
        }
    }
}

/// The error a failed resolution surfaces: the feed's failure, unchanged.
pub open spec fn resolve_error(f: ResolveFailureView) -> ProvisionErrorView {
    match f {
        ResolveFailureView::NotFound(m) => ProvisionErrorView::NotFound(m),
        ResolveFailureView::Network(m) => ProvisionErrorView::Network(m),
    }
}

/// The sentence that reports a missing asset, given the asset's name already
/// quoted.
pub open spec fn missing_asset_text(quoted: Seq<char>) -> Seq<char> {
    "no asset found matching "@ + quoted
}

/// The sentence that reports a failed download.
pub open spec fn download_failure_text(cause: Seq<char>) -> Seq<char> {
    "failed to download file: "@ + cause
}

/// The sentence that reports that the working directory could not be listed.
pub open spec fn listing_failure_text(cause: Seq<char>) -> Seq<char> {
    "failed to list working directory "@ + cause
}

/// The sentence that reports that one directory entry could not be read.
pub open spec fn entry_failure_text(cause: Seq<char>) -> Seq<char> {
    "failed to load directory entry "@ + cause
}

/// The text shown to the user for an error.
pub open spec fn error_text(e: ProvisionErrorView) -> Seq<char> {
    match e {
        ProvisionErrorView::Network(m) => m,
        ProvisionErrorView::NotFound(m) => m,
        ProvisionErrorView::AssetNotFound(n) => missing_asset_text(debug_quoted(n)),
        ProvisionErrorView::Download(m) => download_failure_text(m),
        ProvisionErrorView::Filesystem(m) => m,
    }
}

/// The sentence that reports a missing asset, given the asset's name already
/// quoted.
pub fn missing_asset_message(quoted: &str) -> (r: String)
    ensures
        r@ == missing_asset_text(quoted@),
{
    join_text("no asset found matching ", quoted)
}

impl ResolveFailure {
    /// The error this failure surfaces as.
    pub fn into_error(self) -> (r: ProvisionError)
        ensures
            r@ == resolve_error(self@),
    {
        match self {
            ResolveFailure::NotFound(m) => ProvisionError::NotFound(m),
            ResolveFailure::Network(m) => ProvisionError::Network(m),
        }
    }
}

impl ProvisionError {
    /// The text shown to the user for this error.
    pub fn message(&self) -> (r: String)
        ensures
            r@ == error_text(self@),
    {
        match self {
            ProvisionError::Network(m) => m.clone(),
            ProvisionError::NotFound(m) => m.clone(),
            ProvisionError::AssetNotFound(n) => {
                let quoted = debug_quote(n.as_str());
                missing_asset_message(quoted.as_str())
            },
            ProvisionError::Download(m) => join_text("failed to download file: ", m.as_str()),
            ProvisionError::Filesystem(m) => m.clone(),
        }
    }
}

} // verus!
