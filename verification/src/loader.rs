//! The steps of loading a function from a native library, as the registry
//! sees them: what the host found out, and what the registry asks for next.
use vstd::prelude::*;
use vstd::string::StringExecFns;
use crate::error::loading::{LoadingError, LoadingErrorView};
use crate::func::FunctionInstance;

verus! {

#[verifier::external_type_specification]
#[verifier::external_body]
pub struct ExLibrary(libloading::Library);

/// The name of the constructor that a loadable library exports.
pub const CONSTRUCTOR_SYMBOL: &'static str = "_plugin_create";

/// What the host found out about a library's path.
#[derive(Debug)]
pub enum PathProbe {
    /// The path is not absolute. Such a path is never looked up.
    Relative,
    /// Nothing exists at the path.
    Missing,
    /// Whether anything exists could not be found out; the text says why.
    Unreadable(String),
    /// Something exists at the path.
    Present,
}

/// What a path probe is, as a mathematical value.
pub enum PathProbeView {
    Relative,
    Missing,
    Unreadable(Seq<char>),
    Present,
}

impl View for PathProbe {
    type V = PathProbeView;

    open spec fn view(&self) -> PathProbeView {
        match self {
            Self::Relative => PathProbeView::Relative,
            Self::Missing => PathProbeView::Missing,
            Self::Unreadable(why) => PathProbeView::Unreadable(why@),
            Self::Present => PathProbeView::Present,
        }
    }
}

/// The error that ends a load at its path, if the probe gives one.
pub open spec fn path_verdict(path: Seq<char>, probe: PathProbeView) -> Option<LoadingErrorView> {
    match probe {
        PathProbeView::Relative => Some(
            LoadingErrorView::BadPath("Path `"@ + path + "` is not absolute."@),
        ),
        PathProbeView::Missing => Some(
            LoadingErrorView::PathNotFound("Path `"@ + path + "` does not exist."@),
        ),
        PathProbeView::Unreadable(why) => Some(
            LoadingErrorView::BadPath(
                "Could not verify the existence of `"@ + path
                    + "`, either due to errors or lack of permissions. Os error: "@ + why,
            ),
        ),
        PathProbeView::Present => None,
    }
}

/// Decides whether a load may go on after its path was probed.
pub fn check_library_path(library_path: &str, probe: &PathProbe) -> (verdict: Result<
    (),
    LoadingError,
>)
    ensures
        match path_verdict(library_path@, probe@) {
            None => verdict is Ok,
            Some(error) => verdict is Err && verdict->Err_0@ == error,
        },
{
    match probe {
        PathProbe::Relative => {
            let msg = String::from_str("Path `").concat(library_path).concat("` is not absolute.");
            Err(LoadingError::bad_path(msg.as_str()))
        },
        PathProbe::Missing => {
            let msg = String::from_str("Path `").concat(library_path).concat("` does not exist.");
            Err(LoadingError::path_not_found(msg.as_str()))
        },
        PathProbe::Unreadable(why) => {
            let msg = String::from_str("Could not verify the existence of `").concat(
                library_path,
            ).concat("`, either due to errors or lack of permissions. Os error: ").concat(
                why.as_str(),
            );
            Err(LoadingError::bad_path(msg.as_str()))
        },
        PathProbe::Present => Ok(()),
    }
}

/// What came of resolving and calling a library's constructor.
pub enum ConstructorOutcome {
    /// The library exports no constructor; the text says why.
    SymbolMissing(String),
    /// The constructor gave no instance.
    NullHandle,
    /// The constructor gave this instance.
    Instance(FunctionInstance),
}

/// What the host reports to the registry during one load.
pub enum LoadEvent {
    /// The path was probed.
    PathProbed(PathProbe),
    /// The library was opened, or could not be; the text says why.
    LibraryOpened(Result<libloading::Library, String>),
    /// The constructor of the library opened last was resolved and called.
    Constructed(ConstructorOutcome),
}

/// What the registry asks of the host next.
pub enum LoadAction {
    /// Open the library at the path and report `LibraryOpened`.
    OpenLibrary,
    /// Resolve and call the constructor of the library that the registry
    /// took in last, and report `Constructed`.
    Construct,
    /// The load has ended, with this result.
    Finish(Result<(), LoadingError>),
}

/// What a load action is, as a mathematical value.
pub enum LoadActionView {
    OpenLibrary,
    Construct,
    Finish(Result<(), LoadingErrorView>),
}

impl View for LoadAction {
    type V = LoadActionView;

    open spec fn view(&self) -> LoadActionView {
        match self {
            Self::OpenLibrary => LoadActionView::OpenLibrary,
            Self::Construct => LoadActionView::Construct,
            Self::Finish(Ok(())) => LoadActionView::Finish(Ok(())),
            Self::Finish(Err(error)) => LoadActionView::Finish(Err(error@)),
        }
    }
}

} // verus!
