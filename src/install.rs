//! The install operation as a step machine: it decides, the caller performs
//! the fetch and the filesystem work it asks for and reports what happened.
use vstd::prelude::*;
use crate::errors::{dir_failure, write_failure, ErrorView, FsFailure, LifecycleError};
use crate::registry::{OfficeApp, MANIFEST_FILENAME, MANIFEST_URL};
use crate::text::{contains, contains_spec, join, join_spec};

verus! {

/// The opening of the manifest's root element; a body without it is refused.
pub const MANIFEST_MARKER: &'static str = "<OfficeApp";

/// Whether `status` is a success status (200 to 299).
pub open spec fn is_success_spec(status: u16) -> bool {
    200 <= status && status < 300
}

/// Whether `status` is a success status (200 to 299).
pub fn is_success(status: u16) -> (r: bool)
    ensures
        r == is_success_spec(status),
{
    200 <= status && status < 300
}

/// Whether `body` looks like an add-in manifest.
pub open spec fn is_manifest_spec(body: Seq<char>) -> bool {
    contains_spec(body, MANIFEST_MARKER@)
}

/// Checks that a downloaded body holds the manifest's root element.
pub fn validate_manifest(body: &str) -> (r: Result<(), LifecycleError>)
    ensures
        r is Ok <==> is_manifest_spec(body@),
        r matches Err(e) ==> e@ == ErrorView::Validation,
{
    if contains(body, MANIFEST_MARKER) {
        Ok(())
    } else {
        Err(LifecycleError::Validation)
    }
}

/// The confirmation shown after a successful install.
pub open spec fn installed_message_spec(app: OfficeApp) -> Seq<char> {
    "Optivise add-in installed for "@ + app.display_name_spec() + ". Restart "@
        + app.display_name_spec() + " to activate."@
}

/// The confirmation shown after a successful install.
pub fn installed_message(app: OfficeApp) -> (r: String)
    ensures
        r@ == installed_message_spec(app),
{
    let mut s = String::from_str("Optivise add-in installed for ");
    s.append(app.display_name());
    s.append(". Restart ");
    s.append(app.display_name());
    s.append(" to activate.");
    s
}

/// What the caller reports back after performing an `InstallAction`.
#[derive(Debug)]
pub enum InstallEvent {
    /// The request could not be sent or answered.
    FetchFailed { detail: String },
    /// A response arrived with this status code and its reason phrase.
    Responded { status: u16, reason: Option<String> },
    /// The body could not be read as text.
    ReadFailed { detail: String },
    /// The body, read as text.
    BodyRead { text: String },
    /// The directory exists now.
    DirCreated,
    /// The directory could not be created.
    DirFailed { failure: FsFailure },
    /// The file was written.
    Written,
    /// The file could not be written.
    WriteFailed { failure: FsFailure },
}

pub ghost enum InstallEventView {
    FetchFailed { detail: Seq<char> },
    Responded { status: u16, reason: Option<Seq<char>> },
    ReadFailed { detail: Seq<char> },
    BodyRead { text: Seq<char> },
    DirCreated,
    DirFailed { permission_denied: bool, detail: Seq<char> },
    Written,
    WriteFailed { permission_denied: bool, detail: Seq<char> },
}

impl View for InstallEvent {
    type V = InstallEventView;

    open spec fn view(&self) -> InstallEventView {
        match self {
            InstallEvent::FetchFailed { detail } => InstallEventView::FetchFailed {
                detail: detail@,
            },
            InstallEvent::Responded { status, reason } => InstallEventView::Responded {
                status: *status,
                reason: reason.deep_view(),
            },
            InstallEvent::ReadFailed { detail } => InstallEventView::ReadFailed { detail: detail@ },
            InstallEvent::BodyRead { text } => InstallEventView::BodyRead { text: text@ },
            InstallEvent::DirCreated => InstallEventView::DirCreated,
            InstallEvent::DirFailed { failure } => InstallEventView::DirFailed {
                permission_denied: failure.permission_denied,
                detail: failure.detail@,
            },
            InstallEvent::Written => InstallEventView::Written,
            InstallEvent::WriteFailed { failure } => InstallEventView::WriteFailed {
                permission_denied: failure.permission_denied,
                detail: failure.detail@,
            },
        }
    }
}

/// What the machine asks the caller to do next.
#[derive(Debug)]
pub enum InstallAction {
    /// Send a GET request to `url`.
    Fetch { url: String },
    /// Read the response body as text.
    ReadBody,
    /// Create `dir` and its missing parents.
    CreateDir { dir: String },
    /// Write `content` to `path`, replacing what is there.
    WriteFile { path: String, content: String },
    /// The operation is over, with this outcome.
    Finish { outcome: Result<String, LifecycleError> },
}

pub ghost enum InstallActionView {
    Fetch { url: Seq<char> },
    ReadBody,
    CreateDir { dir: Seq<char> },
    WriteFile { path: Seq<char>, content: Seq<char> },
    Finish { outcome: Result<Seq<char>, ErrorView> },
}

impl View for InstallAction {
    type V = InstallActionView;

    open spec fn view(&self) -> InstallActionView {
        match self {
            InstallAction::Fetch { url } => InstallActionView::Fetch { url: url@ },
            InstallAction::ReadBody => InstallActionView::ReadBody,
            InstallAction::CreateDir { dir } => InstallActionView::CreateDir { dir: dir@ },
            InstallAction::WriteFile { path, content } => InstallActionView::WriteFile {
                path: path@,
                content: content@,
            },
            InstallAction::Finish { outcome } => InstallActionView::Finish {
                outcome: match outcome {
                    Ok(m) => Ok(m@),
                    Err(e) => Err(e@),
                },
            },
        }
    }
}

/// Where an install stands.
#[derive(Debug)]
pub enum InstallStage {
    /// Waiting for the response to the request.
    Fetching,
    /// Waiting for the body.
    Reading,
    /// Waiting for `dir` to be created; `content` is the validated manifest.
    CreatingDir { dir: String, content: String },
    /// Waiting for the manifest to be written to `path`.
    Writing { path: String },
    /// Nothing more to do.
    Finished,
}

pub ghost enum InstallStageView {
    Fetching,
    Reading,
    CreatingDir { dir: Seq<char>, content: Seq<char> },
    Writing { path: Seq<char> },
    Finished,
}

impl View for InstallStage {
    type V = InstallStageView;

    open spec fn view(&self) -> InstallStageView {
        match self {
            InstallStage::Fetching => InstallStageView::Fetching,
            InstallStage::Reading => InstallStageView::Reading,
            InstallStage::CreatingDir { dir, content } => InstallStageView::CreatingDir {
                dir: dir@,
                content: content@,
            },
            InstallStage::Writing { path } => InstallStageView::Writing { path: path@ },
            InstallStage::Finished => InstallStageView::Finished,
        }
    }
}

/// Whether `e` is an event that can follow the action issued in `stage`.
pub open spec fn install_accepts(stage: InstallStageView, e: InstallEventView) -> bool {
    match stage {
        InstallStageView::Fetching => e is FetchFailed || e is Responded,
        InstallStageView::Reading => e is ReadFailed || e is BodyRead,
        InstallStageView::CreatingDir { .. } => e is DirCreated || e is DirFailed,
        InstallStageView::Writing { .. } => e is Written || e is WriteFailed,
        InstallStageView::Finished => false,
    }
}

/// The operation ends with `outcome`.
pub open spec fn finished_with(outcome: Result<Seq<char>, ErrorView>) -> (
    InstallStageView,
    InstallActionView,
) {
    (InstallStageView::Finished, InstallActionView::Finish { outcome })
}

/// The install decisions: from the stage and the event reported for the last
/// action, the next stage and the next action. `home` is the user's home
/// directory, if it could be resolved.
pub open spec fn install_next(
    app: OfficeApp,
    home: Option<Seq<char>>,
    stage: InstallStageView,
    e: InstallEventView,
) -> (InstallStageView, InstallActionView) {
    match (stage, e) {
        (InstallStageView::Fetching, InstallEventView::FetchFailed { detail }) => finished_with(
            Err(ErrorView::Network { detail }),
        ),
        (InstallStageView::Fetching, InstallEventView::Responded { status, reason }) => {
            if is_success_spec(status) {
                (InstallStageView::Reading, InstallActionView::ReadBody)
            } else {
                finished_with(Err(ErrorView::HttpStatus { code: status, reason }))
            }
        },
        (InstallStageView::Reading, InstallEventView::ReadFailed { detail }) => finished_with(
            Err(ErrorView::Read { detail }),
        ),
        (InstallStageView::Reading, InstallEventView::BodyRead { text }) => {
            if !is_manifest_spec(text) {
                finished_with(Err(ErrorView::Validation))
            } else {
                match home {
                    None => finished_with(Err(ErrorView::HomeDirectoryUnresolved)),
                    Some(h) => (
                        InstallStageView::CreatingDir { dir: app.wef_dir_spec(h), content: text },
                        InstallActionView::CreateDir { dir: app.wef_dir_spec(h) },
                    ),
                }
            }
        },
        (InstallStageView::CreatingDir { dir, content }, InstallEventView::DirCreated) => {
            let path = join_spec(dir, MANIFEST_FILENAME@);
            (InstallStageView::Writing { path }, InstallActionView::WriteFile { path, content })
        },
        (
            InstallStageView::CreatingDir { dir, .. },
            InstallEventView::DirFailed { permission_denied, detail },
        ) => finished_with(
            Err(
                if permission_denied {
                    ErrorView::PermissionDenied { path: dir, writing: false }
                } else {
                    ErrorView::DirectoryCreate { dir, detail }
                },
            ),
        ),
        (InstallStageView::Writing { .. }, InstallEventView::Written) => finished_with(
            Ok(installed_message_spec(app)),
        ),
        (
            InstallStageView::Writing { path },
            InstallEventView::WriteFailed { permission_denied, detail },
        ) => finished_with(
            Err(
                if permission_denied {
                    ErrorView::PermissionDenied { path, writing: true }
                } else {
                    ErrorView::Write { detail }
                },
            ),
        ),
        // Events that `install_accepts` refuses are never passed in.
        _ => (stage, InstallActionView::Finish { outcome: Err(ErrorView::Validation) }),
    }
}

/// One install of the manifest for one host application.
#[derive(Debug)]
pub struct Installer {
    pub app: OfficeApp,
    pub home: Option<String>,
    pub stage: InstallStage,
}

impl Installer {
    /// Starts an install for `app`, with the user's home directory `home`
    /// if it could be resolved. The first action is always the download.
    pub fn begin(app: OfficeApp, home: Option<String>) -> (r: (Installer, InstallAction))
        ensures
            r.0.app == app,
            r.0.home == home,
            r.0.stage@ == InstallStageView::Fetching,
            r.1@ == (InstallActionView::Fetch { url: MANIFEST_URL@ }),
    {
        (
            Installer { app, home, stage: InstallStage::Fetching },
            InstallAction::Fetch { url: String::from_str(MANIFEST_URL) },
        )
    }

    /// Whether `e` can be reported now.
    pub fn accepts(&self, e: &InstallEvent) -> (r: bool)
        ensures
            r == install_accepts(self.stage@, e@),
    {
        match (&self.stage, e) {
            (InstallStage::Fetching, InstallEvent::FetchFailed { .. }) => true,
            (InstallStage::Fetching, InstallEvent::Responded { .. }) => true,
            (InstallStage::Reading, InstallEvent::ReadFailed { .. }) => true,
            (InstallStage::Reading, InstallEvent::BodyRead { .. }) => true,
            (InstallStage::CreatingDir { .. }, InstallEvent::DirCreated) => true,
            (InstallStage::CreatingDir { .. }, InstallEvent::DirFailed { .. }) => true,
            (InstallStage::Writing { .. }, InstallEvent::Written) => true,
            (InstallStage::Writing { .. }, InstallEvent::WriteFailed { .. }) => true,
            _ => false,
        }
    }

    /// Takes the event reported for the last action and returns the next one.
    pub fn step(&mut self, e: InstallEvent) -> (r: InstallAction)
        requires
            install_accepts(old(self).stage@, e@),
        ensures
            final(self).app == old(self).app,
            final(self).home == old(self).home,
            (final(self).stage@, r@) == install_next(
                old(self).app,
                old(self).home.deep_view(),
                old(self).stage@,
                e@,
            ),
    {
        let mut stage = InstallStage::Finished;
        std::mem::swap(&mut stage, &mut self.stage);
        match (stage, e) {
            (InstallStage::Fetching, InstallEvent::FetchFailed { detail }) => {
                InstallAction::Finish { outcome: Err(LifecycleError::Network { detail }) }
            },
            (InstallStage::Fetching, InstallEvent::Responded { status, reason }) => {
                if is_success(status) {
                    self.stage = InstallStage::Reading;
                    InstallAction::ReadBody
                } else {
                    InstallAction::Finish {
                        outcome: Err(LifecycleError::HttpStatus { code: status, reason }),
                    }
                }
            },
            (InstallStage::Reading, InstallEvent::ReadFailed { detail }) => {
                InstallAction::Finish { outcome: Err(LifecycleError::Read { detail }) }
            },
            (InstallStage::Reading, InstallEvent::BodyRead { text }) => {
                match validate_manifest(text.as_str()) {
                    Err(err) => InstallAction::Finish { outcome: Err(err) },
                    Ok(()) => match &self.home {
                        None => InstallAction::Finish {
                            outcome: Err(LifecycleError::HomeDirectoryUnresolved),
                        },
                        Some(h) => {
                            let dir = self.app.wef_dir_under(h.as_str());
                            let asked = dir.clone();
                            self.stage = InstallStage::CreatingDir { dir, content: text };
                            InstallAction::CreateDir { dir: asked }
                        },
                    },
                }
            },
            (InstallStage::CreatingDir { dir, content }, InstallEvent::DirCreated) => {
                let path = join(dir.as_str(), MANIFEST_FILENAME);
                self.stage = InstallStage::Writing { path: path.clone() };
                InstallAction::WriteFile { path, content }
            },
            (InstallStage::CreatingDir { dir, .. }, InstallEvent::DirFailed { failure }) => {
                InstallAction::Finish { outcome: Err(dir_failure(dir, failure)) }
            },
            (InstallStage::Writing { .. }, InstallEvent::Written) => {
                InstallAction::Finish { outcome: Ok(installed_message(self.app)) }
            },
            (InstallStage::Writing { path }, InstallEvent::WriteFailed { failure }) => {
                InstallAction::Finish { outcome: Err(write_failure(path, failure)) }
            },
            (other, _) => {
                self.stage = other;
                InstallAction::Finish { outcome: Err(LifecycleError::Validation) }
            },
        }
    }
}

} // verus!
