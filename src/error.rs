use vstd::prelude::*;
use vstd::string::*;

verus! {

/// Name of the npm package that ships the server.
pub const PACKAGE_NAME: &'static str = "@nomicfoundation/solidity-language-server";

/// Entry point of the server, relative to the extension's working directory.
pub const SERVER_PATH: &'static str = "node_modules/@nomicfoundation/solidity-language-server/out/index.js";

/// Why a resolution or a launch failed.
#[derive(Debug, Clone)]
pub enum ResolveError {
    /// The registry could not give the latest version; holds its message.
    RegistryUnavailable(String),
    /// The installer failed and the entry point is still absent; holds the
    /// installer's message.
    InstallFailed(String),
    /// The installer reported success but the entry point is absent.
    PackageMissingExpectedEntryPoint,
    /// The host could not locate its runtime executable; holds its message.
    RuntimeUnavailable(String),
}

/// The mathematical model of a [`ResolveError`].
pub enum ResolveErrorView {
    RegistryUnavailable(Seq<char>),
    InstallFailed(Seq<char>),
    PackageMissingExpectedEntryPoint,
    RuntimeUnavailable(Seq<char>),
}

impl View for ResolveError {
    type V = ResolveErrorView;

    open spec fn view(&self) -> ResolveErrorView {
        match self {
            ResolveError::RegistryUnavailable(c) => ResolveErrorView::RegistryUnavailable(c@),
            ResolveError::InstallFailed(c) => ResolveErrorView::InstallFailed(c@),
            ResolveError::PackageMissingExpectedEntryPoint => ResolveErrorView::PackageMissingExpectedEntryPoint,
            ResolveError::RuntimeUnavailable(c) => ResolveErrorView::RuntimeUnavailable(c@),
        }
    }
}

pub open spec fn package_name() -> Seq<char> {
    PACKAGE_NAME@
}

pub open spec fn server_path() -> Seq<char> {
    SERVER_PATH@
}

/// The text shown when an install left no entry point: it names the package
/// and the path that was expected.
pub open spec fn missing_entry_point_message() -> Seq<char> {
    "installed package '"@ + package_name() + "' did not contain expected path '"@
        + server_path() + "'"@
}

impl ResolveErrorView {
    /// The human-readable text of an error: the collaborator's own message,
    /// passed through unchanged, or the fixed text for a missing entry point.
    pub open spec fn message(self) -> Seq<char> {
        match self {
            ResolveErrorView::RegistryUnavailable(c) => c,
            ResolveErrorView::InstallFailed(c) => c,
            ResolveErrorView::PackageMissingExpectedEntryPoint => missing_entry_point_message(),
            ResolveErrorView::RuntimeUnavailable(c) => c,
        }
    }
}

impl ResolveError {
    /// The message that the host shows for this error.
    pub fn message(&self) -> (r: String)
        ensures
            r@ == self@.message(),
    {
        match self {
            ResolveError::RegistryUnavailable(c) => c.clone(),
            ResolveError::InstallFailed(c) => c.clone(),
            ResolveError::PackageMissingExpectedEntryPoint => {
                let mut m = String::from_str("installed package '");
                m.append(PACKAGE_NAME);
                m.append("' did not contain expected path '");
                m.append(SERVER_PATH);
                m.append("'");
                m
            },
            ResolveError::RuntimeUnavailable(c) => c.clone(),
        }
    }
}

/// The message for a missing entry point holds the package name and the
/// expected path.
pub proof fn lemma_missing_entry_point_message_names_package_and_path()
    ensures
        exists|i: int|
            0 <= i && i + package_name().len() <= missing_entry_point_message().len()
                && #[trigger] missing_entry_point_message().subrange(i, i + package_name().len())
                == package_name(),
        exists|j: int|
            0 <= j && j + server_path().len() <= missing_entry_point_message().len()
                && #[trigger] missing_entry_point_message().subrange(j, j + server_path().len())
                == server_path(),
{
    let m = missing_entry_point_message();
    let p = "installed package '"@;
    let q = "' did not contain expected path '"@;
    let i = p.len() as int;
    let j = (p + package_name() + q).len() as int;
    assert(m.subrange(i, i + package_name().len()) =~= package_name());
    assert(m.subrange(j, j + server_path().len()) =~= server_path());
}

} // verus!
