use vstd::prelude::*;

verus! {

/// The kinds of failure that callers tell apart.
#[derive(Debug, Clone, Copy, PartialEq, Eq, Structural)]
pub enum ErrorKind {
    NotFound,
    PermissionDenied,
    AlreadyExists,
    InvalidInput,
    Unsupported,
    Other,
}

/// An error reported by the operating system: its kind and, where the
/// system gave one, its raw error code.
#[derive(Debug, Clone, Copy, PartialEq, Eq, Structural)]
pub struct OsError {
    pub kind: ErrorKind,
    pub code: Option<i32>,
}

impl OsError {
    /// An error of the given kind that carries no raw code.
    pub fn of_kind(kind: ErrorKind) -> (r: OsError)
        ensures
            r.kind == kind,
            r.code is None,
    {
        OsError { kind, code: None }
    }
}

/// The errors of this library.
#[derive(Debug, Clone, Copy, PartialEq, Eq, Structural)]
pub enum Error {
    /// An error of the system, passed on as it came.
    Os(OsError),
    /// The source path is not an existing regular file; holds the error
    /// that the system gave for the attempt.
    SourceNotRegular(OsError),
    /// The operation has no implementation on this platform.
    NotImplemented,
}

impl Error {
    pub open spec fn spec_kind(self) -> ErrorKind {
        match self {
            Error::Os(e) => e.kind,
            Error::SourceNotRegular(_) => ErrorKind::InvalidInput,
            Error::NotImplemented => ErrorKind::Other,
        }
    }

    /// The kind of this error: a source that is not a regular file is
    /// invalid input, whatever the system said.
    pub fn kind(&self) -> (r: ErrorKind)
        ensures
            r == self.spec_kind(),
    {
        match self {
            Error::Os(e) => e.kind,
            Error::SourceNotRegular(_) => ErrorKind::InvalidInput,
            Error::NotImplemented => ErrorKind::Other,
        }
    }

    /// The error of the system underneath, if there is one.
    pub fn os_error(&self) -> (r: Option<OsError>)
        ensures
            r == match *self {
                Error::Os(e) => Some(e),
                Error::SourceNotRegular(e) => Some(e),
                Error::NotImplemented => None::<OsError>,
            },
    {
        match self {
            Error::Os(e) => Some(*e),
            Error::SourceNotRegular(e) => Some(*e),
            Error::NotImplemented => None,
        }
    }
}

/// The platforms whose clone primitives differ in what they accept.
#[derive(Debug, Clone, Copy, PartialEq, Eq, Structural)]
pub enum Platform {
    /// Linux and Android: the clone ioctl on an open destination.
    Linux,
    /// macOS, iOS, tvOS and watchOS: the clone call by path.
    Apple,
    /// Windows: the duplicate-extents ioctl.
    Windows,
    /// A platform without a clone primitive.
    Other,
}

impl Platform {
    /// Whether the platform's clone call takes directories and symbolic
    /// links as its source, as well as regular files.
    pub open spec fn clones_any_source(self) -> bool {
        self is Apple
    }
}

/// What a failed whole-file clone reports: where the platform only clones
/// regular files and the source is not one, the error says so; otherwise
/// the system's error passes unchanged.
pub open spec fn clone_failure(platform: Platform, err: OsError, source_is_regular: bool) -> Error {
    if !platform.clones_any_source() && !source_is_regular {
        Error::SourceNotRegular(err)
    } else {
        Error::Os(err)
    }
}

/// Turns the system's error for a failed whole-file clone into the error
/// reported to the caller. `source_is_regular` tells whether the source
/// path itself, not following symbolic links, is a regular file.
pub fn describe_clone_failure(platform: Platform, err: OsError, source_is_regular: bool) -> (r:
    Error)
    ensures
        r == clone_failure(platform, err, source_is_regular),
{
    let any_source = match platform {
        Platform::Apple => true,
        _ => false,
    };
    if !any_source && !source_is_regular {
        Error::SourceNotRegular(err)
    } else {
        Error::Os(err)
    }
}

/// The kinds of clone failure that a plain copy cannot mend: the fallback
/// would only hide them.
pub open spec fn blocks_fallback(kind: ErrorKind) -> bool {
    ||| kind == ErrorKind::NotFound
    ||| kind == ErrorKind::PermissionDenied
    ||| kind == ErrorKind::AlreadyExists
}

/// Whether a clone that failed with an error of this kind may be replaced
/// by a plain copy.
pub fn falls_back(kind: ErrorKind) -> (r: bool)
    ensures
        r == !blocks_fallback(kind),
{
    match kind {
        ErrorKind::NotFound | ErrorKind::PermissionDenied | ErrorKind::AlreadyExists => false,
        _ => true,
    }
}

} // verus!
