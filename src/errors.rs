//! Failures of the lifecycle operations and the messages shown for them.
use vstd::prelude::*;
use crate::registry::OfficeApp;
use crate::text::{decimal, push_decimal};

verus! {

/// Guidance appended to permission failures: the host OS may require an
/// explicit grant before the side-load directory can be written.
pub const PERMISSION_HINT: &'static str = ". On macOS 14+, try: right-click the app → Open, or grant Full Disk Access in System Settings → Privacy & Security.";

/// Shown for a status code that has no standard reason phrase.
pub const UNKNOWN_REASON: &'static str = "<unknown status code>";

/// A failed filesystem operation, as reported by the caller that ran it.
#[derive(Debug)]
pub struct FsFailure {
    /// The operating system refused for lack of permission.
    pub permission_denied: bool,
    /// The operating system's description of the failure.
    pub detail: String,
}

/// Why a lifecycle operation failed.
#[derive(Debug)]
pub enum LifecycleError {
    /// The manifest endpoint could not be reached.
    Network { detail: String },
    /// The endpoint answered with a status outside 200..=299.
    HttpStatus { code: u16, reason: Option<String> },
    /// The response body could not be read as text.
    Read { detail: String },
    /// The body lacks the manifest's root element.
    Validation,
    /// The current user's home directory is unknown.
    HomeDirectoryUnresolved,
    /// Permission was refused while creating the directory `path`
    /// (`writing` false) or writing the file `path` (`writing` true).
    PermissionDenied { path: String, writing: bool },
    /// Creating the side-load directory failed for another reason.
    DirectoryCreate { dir: String, detail: String },
    /// Writing the manifest failed for another reason.
    Write { detail: String },
    /// Removing the manifest failed.
    Delete { detail: String },
    /// The application bundle is not on disk.
    ApplicationNotInstalled { app: OfficeApp },
    /// The application could not be launched.
    Launch { app: OfficeApp, detail: String },
}

/// A `LifecycleError` with its text as character sequences.
pub ghost enum ErrorView {
    Network { detail: Seq<char> },
    HttpStatus { code: u16, reason: Option<Seq<char>> },
    Read { detail: Seq<char> },
    Validation,
    HomeDirectoryUnresolved,
    PermissionDenied { path: Seq<char>, writing: bool },
    DirectoryCreate { dir: Seq<char>, detail: Seq<char> },
    Write { detail: Seq<char> },
    Delete { detail: Seq<char> },
    ApplicationNotInstalled { app: OfficeApp },
    Launch { app: OfficeApp, detail: Seq<char> },
}

impl View for LifecycleError {
    type V = ErrorView;

    open spec fn view(&self) -> ErrorView {
        match self {
            LifecycleError::Network { detail } => ErrorView::Network { detail: detail@ },
            LifecycleError::HttpStatus { code, reason } => ErrorView::HttpStatus {
                code: *code,
                reason: match reason {
                    Some(s) => Some(s@),
                    None => None,
                },
            },
            LifecycleError::Read { detail } => ErrorView::Read { detail: detail@ },
            LifecycleError::Validation => ErrorView::Validation,
            LifecycleError::HomeDirectoryUnresolved => ErrorView::HomeDirectoryUnresolved,
            LifecycleError::PermissionDenied { path, writing } => ErrorView::PermissionDenied {
                path: path@,
                writing: *writing,
            },
            LifecycleError::DirectoryCreate { dir, detail } => ErrorView::DirectoryCreate {
                dir: dir@,
                detail: detail@,
            },
            LifecycleError::Write { detail } => ErrorView::Write { detail: detail@ },
            LifecycleError::Delete { detail } => ErrorView::Delete { detail: detail@ },
            LifecycleError::ApplicationNotInstalled { app } => ErrorView::ApplicationNotInstalled {
                app: *app,
            },
            LifecycleError::Launch { app, detail } => ErrorView::Launch {
                app: *app,
                detail: detail@,
            },
        }
    }
}

impl ErrorView {
    /// The message shown to the user for this failure.
    pub open spec fn message(self) -> Seq<char> {
        match self {
            ErrorView::Network { detail } => "Failed to download manifest: "@ + detail,
            ErrorView::HttpStatus { code, reason } => "Server returned status "@ + decimal(
                code as nat,
            ) + " "@ + match reason {
                Some(r) => r,
                None => UNKNOWN_REASON@,
            },
            ErrorView::Read { detail } => "Failed to read manifest: "@ + detail,
            ErrorView::Validation => "Downloaded file is not a valid Office manifest"@,
            ErrorView::HomeDirectoryUnresolved => "Could not determine home directory"@,
            ErrorView::PermissionDenied { path, writing } => if writing {
                "Permission denied writing to "@ + path + PERMISSION_HINT@
            } else {
                "Permission denied creating "@ + path + PERMISSION_HINT@
            },
            ErrorView::DirectoryCreate { dir, detail } => "Failed to create directory "@ + dir
                + ": "@ + detail,
            ErrorView::Write { detail } => "Failed to write manifest: "@ + detail,
            ErrorView::Delete { detail } => "Failed to remove manifest: "@ + detail,
            ErrorView::ApplicationNotInstalled { app } => app.display_name_spec()
                + " is not installed"@,
            ErrorView::Launch { app, detail } => "Failed to open "@ + app.display_name_spec()
                + ": "@ + detail,
        }
    }
}

/// The error for a failed directory creation at `dir`.
pub fn dir_failure(dir: String, failure: FsFailure) -> (r: LifecycleError)
    ensures
        failure.permission_denied ==> r@ == (ErrorView::PermissionDenied {
            path: dir@,
            writing: false,
        }),
        !failure.permission_denied ==> r@ == (ErrorView::DirectoryCreate {
            dir: dir@,
            detail: failure.detail@,
        }),
{
    if failure.permission_denied {
        LifecycleError::PermissionDenied { path: dir, writing: false }
    } else {
        LifecycleError::DirectoryCreate { dir, detail: failure.detail }
    }
}

/// The error for a failed write of the manifest at `path`.
pub fn write_failure(path: String, failure: FsFailure) -> (r: LifecycleError)
    ensures
        failure.permission_denied ==> r@ == (ErrorView::PermissionDenied {
            path: path@,
            writing: true,
        }),
        !failure.permission_denied ==> r@ == (ErrorView::Write { detail: failure.detail@ }),
{
    if failure.permission_denied {
        LifecycleError::PermissionDenied { path, writing: true }
    } else {
        LifecycleError::Write { detail: failure.detail }
    }
}

fn text_then(prefix: &str, rest: &str) -> (r: String)
    ensures
        r@ == prefix@ + rest@,
{
    let mut s = String::from_str(prefix);
    s.append(rest);
    s
}

impl LifecycleError {
    /// The message shown to the user for this failure.
    pub fn message(&self) -> (r: String)
        ensures
            r@ == self@.message(),
    {
        match self {
            LifecycleError::Network { detail } => text_then(
                "Failed to download manifest: ",
                detail.as_str(),
            ),
            LifecycleError::HttpStatus { code, reason } => {
                let mut s = String::from_str("Server returned status ");
                push_decimal(&mut s, *code);
                s.append(" ");
                match reason {
                    Some(r) => s.append(r.as_str()),
                    None => s.append(UNKNOWN_REASON),
                }
                s
            },
            LifecycleError::Read { detail } => text_then(
                "Failed to read manifest: ",
                detail.as_str(),
            ),
            LifecycleError::Validation => String::from_str(
                "Downloaded file is not a valid Office manifest",
            ),
            LifecycleError::HomeDirectoryUnresolved => String::from_str(
                "Could not determine home directory",
            ),
            LifecycleError::PermissionDenied { path, writing } => {
                let mut s = if *writing {
                    String::from_str("Permission denied writing to ")
                } else {
                    String::from_str("Permission denied creating ")
                };
                s.append(path.as_str());
                s.append(PERMISSION_HINT);
                s
            },
            LifecycleError::DirectoryCreate { dir, detail } => {
                let mut s = text_then("Failed to create directory ", dir.as_str());
                s.append(": ");
                s.append(detail.as_str());
                s
            },
            LifecycleError::Write { detail } => text_then(
                "Failed to write manifest: ",
                detail.as_str(),
            ),
            LifecycleError::Delete { detail } => text_then(
                "Failed to remove manifest: ",
                detail.as_str(),
            ),
            LifecycleError::ApplicationNotInstalled { app } => text_then(
                app.display_name(),
                " is not installed",
            ),
            LifecycleError::Launch { app, detail } => {
                let mut s = text_then("Failed to open ", app.display_name());
                s.append(": ");
                s.append(detail.as_str());
                s
            },
        }
    }
}

} // verus!
