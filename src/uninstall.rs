//! The uninstall operation as a step machine, driven like the install one.
use vstd::prelude::*;
use crate::errors::{ErrorView, LifecycleError};
use crate::registry::OfficeApp;

verus! {

/// The answer when there is nothing to remove.
pub const NOT_INSTALLED_MESSAGE: &'static str = "Add-in is not installed";

/// The confirmation shown after the manifest was removed.
pub open spec fn removed_message_spec(app: OfficeApp) -> Seq<char> {
    "Optivise add-in removed from "@ + app.display_name_spec() + ". Restart "@
        + app.display_name_spec() + " to complete."@
}

/// The confirmation shown after the manifest was removed.
pub fn removed_message(app: OfficeApp) -> (r: String)
    ensures
        r@ == removed_message_spec(app),
{
    let mut s = String::from_str("Optivise add-in removed from ");
    s.append(app.display_name());
    s.append(". Restart ");
    s.append(app.display_name());
    s.append(" to complete.");
    s
}

/// What the caller reports back after performing an `UninstallAction`.
#[derive(Debug)]
pub enum UninstallEvent {
    /// Whether the file exists.
    Checked { exists: bool },
    /// The file was removed.
    Removed,
    /// The file could not be removed.
    RemoveFailed { detail: String },
}

pub ghost enum UninstallEventView {
    Checked { exists: bool },
    Removed,
    RemoveFailed { detail: Seq<char> },
}

impl View for UninstallEvent {
    type V = UninstallEventView;

    open spec fn view(&self) -> UninstallEventView {
        match self {
            UninstallEvent::Checked { exists } => UninstallEventView::Checked { exists: *exists },
            UninstallEvent::Removed => UninstallEventView::Removed,
            UninstallEvent::RemoveFailed { detail } => UninstallEventView::RemoveFailed {
                detail: detail@,
            },
        }
    }
}

/// What the machine asks the caller to do next.
#[derive(Debug)]
pub enum UninstallAction {
    /// Report whether a file exists at `path`.
    CheckExists { path: String },
    /// Remove the file at `path`.
    RemoveFile { path: String },
    /// The operation is over, with this outcome.
    Finish { outcome: Result<String, LifecycleError> },
}

pub ghost enum UninstallActionView {
    CheckExists { path: Seq<char> },
    RemoveFile { path: Seq<char> },
    Finish { outcome: Result<Seq<char>, ErrorView> },
}

impl View for UninstallAction {
    type V = UninstallActionView;

    open spec fn view(&self) -> UninstallActionView {
        match self {
            UninstallAction::CheckExists { path } => UninstallActionView::CheckExists {
                path: path@,
            },
            UninstallAction::RemoveFile { path } => UninstallActionView::RemoveFile {
                path: path@,
            },
            UninstallAction::Finish { outcome } => UninstallActionView::Finish {
                outcome: match outcome {
                    Ok(m) => Ok(m@),
                    Err(e) => Err(e@),
                },
            },
        }
    }
}

/// Where an uninstall stands.
#[derive(Debug)]
pub enum UninstallStage {
    /// Waiting to learn whether the manifest exists at `path`.
    Checking { path: String },
    /// Waiting for the removal.
    Removing,
    /// Nothing more to do.
    Finished,
}

pub ghost enum UninstallStageView {
    Checking { path: Seq<char> },
    Removing,
    Finished,
}

impl View for UninstallStage {
    type V = UninstallStageView;

    open spec fn view(&self) -> UninstallStageView {
        match self {
            UninstallStage::Checking { path } => UninstallStageView::Checking { path: path@ },
            UninstallStage::Removing => UninstallStageView::Removing,
            UninstallStage::Finished => UninstallStageView::Finished,
        }
    }
}

/// The first stage and action of an uninstall of `app`.
pub open spec fn uninstall_begin(app: OfficeApp, home: Option<Seq<char>>) -> (
    UninstallStageView,
    UninstallActionView,
) {
    match home {
        None => (
            UninstallStageView::Finished,
            UninstallActionView::Finish { outcome: Err(ErrorView::HomeDirectoryUnresolved) },
        ),
        Some(h) => (
            UninstallStageView::Checking { path: app.manifest_path_spec(h) },
            UninstallActionView::CheckExists { path: app.manifest_path_spec(h) },
        ),
    }
}

/// Whether `e` is an event that can follow the action issued in `stage`.
pub open spec fn uninstall_accepts(stage: UninstallStageView, e: UninstallEventView) -> bool {
    match stage {
        UninstallStageView::Checking { .. } => e is Checked,
        UninstallStageView::Removing => e is Removed || e is RemoveFailed,
        UninstallStageView::Finished => false,
    }
}

/// The uninstall decisions: from the stage and the event reported for the
/// last action, the next stage and the next action.
pub open spec fn uninstall_next(
    app: OfficeApp,
    stage: UninstallStageView,
    e: UninstallEventView,
) -> (UninstallStageView, UninstallActionView) {
    match (stage, e) {
        (UninstallStageView::Checking { path }, UninstallEventView::Checked { exists }) => {
            if exists {
                (UninstallStageView::Removing, UninstallActionView::RemoveFile { path })
            } else {
                (
                    UninstallStageView::Finished,
                    UninstallActionView::Finish { outcome: Ok(NOT_INSTALLED_MESSAGE@) },
                )
            }
        },
        (UninstallStageView::Removing, UninstallEventView::Removed) => (
            UninstallStageView::Finished,
            UninstallActionView::Finish { outcome: Ok(removed_message_spec(app)) },
        ),
        (UninstallStageView::Removing, UninstallEventView::RemoveFailed { detail }) => (
            UninstallStageView::Finished,
            UninstallActionView::Finish { outcome: Err(ErrorView::Delete { detail }) },
        ),
        // Events that `uninstall_accepts` refuses are never passed in.
        _ => (stage, UninstallActionView::Finish { outcome: Ok(NOT_INSTALLED_MESSAGE@) }),
    }
}

/// One removal of the manifest of one host application.
#[derive(Debug)]
pub struct Uninstaller {
    pub app: OfficeApp,
    pub stage: UninstallStage,
}

impl Uninstaller {
    /// Starts an uninstall for `app`, with the user's home directory `home`
    /// if it could be resolved.
    pub fn begin(app: OfficeApp, home: Option<&str>) -> (r: (Uninstaller, UninstallAction))
        ensures
            r.0.app == app,
            (r.0.stage@, r.1@) == uninstall_begin(
                app,
                match home {
                    Some(h) => Some(h@),
                    None => None,
                },
            ),
    {
        match home {
            None => (
                Uninstaller { app, stage: UninstallStage::Finished },
                UninstallAction::Finish { outcome: Err(LifecycleError::HomeDirectoryUnresolved) },
            ),
            Some(h) => {
                let path = app.manifest_path_under(h);
                (
                    Uninstaller { app, stage: UninstallStage::Checking { path: path.clone() } },
                    UninstallAction::CheckExists { path },
                )
            },
        }
    }

    /// Whether `e` can be reported now.
    pub fn accepts(&self, e: &UninstallEvent) -> (r: bool)
        ensures
            r == uninstall_accepts(self.stage@, e@),
    {
        match (&self.stage, e) {
            (UninstallStage::Checking { .. }, UninstallEvent::Checked { .. }) => true,
            (UninstallStage::Removing, UninstallEvent::Removed) => true,
            (UninstallStage::Removing, UninstallEvent::RemoveFailed { .. }) => true,
            _ => false,
        }
    }

    /// Takes the event reported for the last action and returns the next one.
    pub fn step(&mut self, e: UninstallEvent) -> (r: UninstallAction)
        requires
            uninstall_accepts(old(self).stage@, e@),
        ensures
            final(self).app == old(self).app,
            (final(self).stage@, r@) == uninstall_next(old(self).app, old(self).stage@, e@),
    {
        let mut stage = UninstallStage::Finished;
        std::mem::swap(&mut stage, &mut self.stage);
        match (stage, e) {
            (UninstallStage::Checking { path }, UninstallEvent::Checked { exists }) => {
                if exists {
                    self.stage = UninstallStage::Removing;
                    UninstallAction::RemoveFile { path }
                } else {
                    UninstallAction::Finish {
                        outcome: Ok(String::from_str(NOT_INSTALLED_MESSAGE)),
                    }
                }
            },
            (UninstallStage::Removing, UninstallEvent::Removed) => {
                UninstallAction::Finish { outcome: Ok(removed_message(self.app)) }
            },
            (UninstallStage::Removing, UninstallEvent::RemoveFailed { detail }) => {
                UninstallAction::Finish { outcome: Err(LifecycleError::Delete { detail }) }
            },
            (other, _) => {
                self.stage = other;
                UninstallAction::Finish { outcome: Ok(String::from_str(NOT_INSTALLED_MESSAGE)) }
            },
        }
    }
}

} // verus!
