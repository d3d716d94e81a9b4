use vstd::prelude::*;

verus! {

/// Why preparing the overlays or the privileges failed. An `i32` is the
/// system's error number.
#[derive(Debug, PartialEq, Eq)]
pub enum Error {
    NamespaceUnshareFailed(i32),
    PropagationChangeFailed(i32),
    StagingCreateFailed(i32),
    StagingMountFailed(i32),
    /// The staging area has minted a name for every value of its counter.
    StagingExhausted,
    /// The provider name does not reduce to a usable file name.
    InvalidSourceName(String),
    /// No directory of the search path holds the provider.
    ProviderNotFound(String),
    /// A template of the provider is not a regular file: provider, template.
    TemplateNotFound(String, String),
    /// The provider exited with a status other than zero.
    ProviderFailed(String, i32),
    /// The provider was ended by a signal.
    ProviderTerminated(String),
    PermissionCopyFailed(i32),
    OwnershipCopyFailed(i32),
    BindFailed(i32),
    UserNotFound(String),
    /// No user has this number.
    UidNotFound(u32),
    GroupNotFound(String),
    OsError(i32),
    /// The answer handed back does not belong to the step that was asked for.
    UnexpectedEvent,
}

/// An [`Error`] with its text as character sequences.
pub enum ErrorView {
    NamespaceUnshareFailed(i32),
    PropagationChangeFailed(i32),
    StagingCreateFailed(i32),
    StagingMountFailed(i32),
    StagingExhausted,
    InvalidSourceName(Seq<char>),
    ProviderNotFound(Seq<char>),
    TemplateNotFound(Seq<char>, Seq<char>),
    ProviderFailed(Seq<char>, i32),
    ProviderTerminated(Seq<char>),
    PermissionCopyFailed(i32),
    OwnershipCopyFailed(i32),
    BindFailed(i32),
    UserNotFound(Seq<char>),
    UidNotFound(u32),
    GroupNotFound(Seq<char>),
    OsError(i32),
    UnexpectedEvent,
}

impl View for Error {
    type V = ErrorView;

    open spec fn view(&self) -> ErrorView {
        match self {
            Error::NamespaceUnshareFailed(c) => ErrorView::NamespaceUnshareFailed(*c),
            Error::PropagationChangeFailed(c) => ErrorView::PropagationChangeFailed(*c),
            Error::StagingCreateFailed(c) => ErrorView::StagingCreateFailed(*c),
            Error::StagingMountFailed(c) => ErrorView::StagingMountFailed(*c),
            Error::StagingExhausted => ErrorView::StagingExhausted,
            Error::InvalidSourceName(n) => ErrorView::InvalidSourceName(n@),
            Error::ProviderNotFound(n) => ErrorView::ProviderNotFound(n@),
            Error::TemplateNotFound(n, t) => ErrorView::TemplateNotFound(n@, t@),
            Error::ProviderFailed(p, c) => ErrorView::ProviderFailed(p@, *c),
            Error::ProviderTerminated(p) => ErrorView::ProviderTerminated(p@),
            Error::PermissionCopyFailed(c) => ErrorView::PermissionCopyFailed(*c),
            Error::OwnershipCopyFailed(c) => ErrorView::OwnershipCopyFailed(*c),
            Error::BindFailed(c) => ErrorView::BindFailed(*c),
            Error::UserNotFound(n) => ErrorView::UserNotFound(n@),
            Error::UidNotFound(n) => ErrorView::UidNotFound(*n),
            Error::GroupNotFound(n) => ErrorView::GroupNotFound(n@),
            Error::OsError(c) => ErrorView::OsError(*c),
            Error::UnexpectedEvent => ErrorView::UnexpectedEvent,
        }
    }
}

} // verus!
