//! The failures of each stage, and the one type that carries any of them.

use vstd::prelude::*;

verus! {

/// Why the files of a directory do not give one catalog and one collector.
#[derive(Debug, Clone, PartialEq, Eq)]
pub enum DiscoveryError {
    /// Neither a catalog archive nor a collector was among the files.
    NoFilesFound,
    /// More than one catalog archive, or more than one collector, was among the
    /// files; `names` lists the conflicting paths, separated by `", "`.
    MultipleFilesFound { names: String },
}

/// A `DiscoveryError` with its text as a sequence of characters.
pub enum DiscoveryErrorView {
    NoFilesFound,
    MultipleFilesFound { names: Seq<char> },
}

impl View for DiscoveryError {
    type V = DiscoveryErrorView;

    open spec fn view(&self) -> DiscoveryErrorView {
        match *self {
            DiscoveryError::NoFilesFound => DiscoveryErrorView::NoFilesFound,
            DiscoveryError::MultipleFilesFound { names } => DiscoveryErrorView::MultipleFilesFound {
                names: names@,
            },
        }
    }
}

/// Why the expansion tool did not produce the manifest.
#[derive(Debug, Clone, PartialEq, Eq)]
pub enum ExpansionError {
    /// The tool could not be started.
    ProcessLaunchFailed { command: String },
    /// The tool ended with an exit code other than zero.
    NonZeroExit { command: String, code: i32 },
    /// The tool did not end within the time allowed.
    Timeout { command: String },
}

/// An `ExpansionError` with its text as a sequence of characters.
pub enum ExpansionErrorView {
    ProcessLaunchFailed { command: Seq<char> },
    NonZeroExit { command: Seq<char>, code: i32 },
    Timeout { command: Seq<char> },
}

impl View for ExpansionError {
    type V = ExpansionErrorView;

    open spec fn view(&self) -> ExpansionErrorView {
        match *self {
            ExpansionError::ProcessLaunchFailed { command } => ExpansionErrorView::ProcessLaunchFailed {
                command: command@,
            },
            ExpansionError::NonZeroExit { command, code } => ExpansionErrorView::NonZeroExit {
                command: command@,
                code,
            },
            ExpansionError::Timeout { command } => ExpansionErrorView::Timeout { command: command@ },
        }
    }
}

/// Why a manifest could not be rewritten.
#[derive(Debug, Clone, Copy, PartialEq, Eq, Structural)]
pub enum RewriteError {
    /// The manifest could not be read, or the rewritten manifest not stored.
    Io,
    /// The manifest is not a well-formed document; nothing was produced.
    MalformedInput,
}

/// Why the digest record did not reach the configuration store.
#[derive(Debug, Clone, Copy, PartialEq, Eq, Structural)]
pub enum PublishError {
    /// The service key could not be opened.
    KeyUnavailable,
    /// The record could not be written under the service key.
    WriteFailed,
}

/// Any failure of a run.
#[derive(Debug, Clone, PartialEq, Eq)]
pub enum CatalogError {
    /// The selected catalog is not a catalog archive.
    SelectedCabFileError,
    /// The selected collector is not a collector executable.
    SelectedIcFileError,
    Discovery(DiscoveryError),
    Expansion(ExpansionError),
    Rewrite(RewriteError),
    Publish(PublishError),
    /// The run was told of something that it had not asked for.
    Unexpected,
}

/// A `CatalogError` with its texts as sequences of characters.
pub enum CatalogErrorView {
    SelectedCabFileError,
    SelectedIcFileError,
    Discovery(DiscoveryErrorView),
    Expansion(ExpansionErrorView),
    Rewrite(RewriteError),
    Publish(PublishError),
    Unexpected,
}

impl View for CatalogError {
    type V = CatalogErrorView;

    open spec fn view(&self) -> CatalogErrorView {
        match *self {
            CatalogError::SelectedCabFileError => CatalogErrorView::SelectedCabFileError,
            CatalogError::SelectedIcFileError => CatalogErrorView::SelectedIcFileError,
            CatalogError::Discovery(e) => CatalogErrorView::Discovery(e@),
            CatalogError::Expansion(e) => CatalogErrorView::Expansion(e@),
            CatalogError::Rewrite(e) => CatalogErrorView::Rewrite(e),
            CatalogError::Publish(e) => CatalogErrorView::Publish(e),
            CatalogError::Unexpected => CatalogErrorView::Unexpected,
        }
    }
}

impl From<DiscoveryError> for CatalogError {
    fn from(error: DiscoveryError) -> (r: Self) {
        CatalogError::Discovery(error)
    }
}

impl vstd::std_specs::convert::FromSpecImpl<DiscoveryError> for CatalogError {
    open spec fn obeys_from_spec() -> bool {
        true
    }

    open spec fn from_spec(error: DiscoveryError) -> Self {
        CatalogError::Discovery(error)
    }
}

impl From<ExpansionError> for CatalogError {
    fn from(error: ExpansionError) -> (r: Self) {
        CatalogError::Expansion(error)
    }
}

impl vstd::std_specs::convert::FromSpecImpl<ExpansionError> for CatalogError {
    open spec fn obeys_from_spec() -> bool {
        true
    }

    open spec fn from_spec(error: ExpansionError) -> Self {
        CatalogError::Expansion(error)
    }
}

impl From<RewriteError> for CatalogError {
    fn from(error: RewriteError) -> (r: Self) {
        CatalogError::Rewrite(error)
    }
}

impl vstd::std_specs::convert::FromSpecImpl<RewriteError> for CatalogError {
    open spec fn obeys_from_spec() -> bool {
        true
    }

    open spec fn from_spec(error: RewriteError) -> Self {
        CatalogError::Rewrite(error)
    }
}

impl From<PublishError> for CatalogError {
    fn from(error: PublishError) -> (r: Self) {
        CatalogError::Publish(error)
    }
}

impl vstd::std_specs::convert::FromSpecImpl<PublishError> for CatalogError {
    open spec fn obeys_from_spec() -> bool {
        true
    }

    open spec fn from_spec(error: PublishError) -> Self {
        CatalogError::Publish(error)
    }
}

} // verus!
