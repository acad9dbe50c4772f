//! Properties of the lifecycle operations, proved over a model of the
//! filesystem as a map from path to file content.
use vstd::prelude::*;
use crate::errors::{ErrorView, PERMISSION_HINT};
use crate::install::{
    install_next, is_manifest_spec, is_success_spec, InstallActionView, InstallEventView,
    InstallStageView,
};
use crate::registry::{all_apps_spec, OfficeApp};
use crate::status::{
    lists_all_apps, manifest_answer_reported, manifest_reported, reports_answers, AllStatus,
    PathAnswer,
};
use crate::text::{contains_spec, decimal, occurs_at};
use crate::uninstall::{
    uninstall_begin, uninstall_next, UninstallActionView, UninstallEventView, NOT_INSTALLED_MESSAGE,
};

verus! {

/// Files on disk: path to content.
pub type Files = Map<Seq<char>, Seq<char>>;

/// The outcome of an install action, if it ends the operation.
pub open spec fn install_outcome(a: InstallActionView) -> Option<Result<Seq<char>, ErrorView>> {
    match a {
        InstallActionView::Finish { outcome } => Some(outcome),
        _ => None,
    }
}

/// The outcome of an uninstall action, if it ends the operation.
pub open spec fn uninstall_outcome(a: UninstallActionView) -> Option<
    Result<Seq<char>, ErrorView>,
> {
    match a {
        UninstallActionView::Finish { outcome } => Some(outcome),
        _ => None,
    }
}

/// An install run against `files`: the server answers `status` with `body`,
/// and every directory creation and write succeeds. Gives the files after
/// the run and its outcome.
pub open spec fn install_in(
    app: OfficeApp,
    home: Option<Seq<char>>,
    status: u16,
    body: Seq<char>,
    files: Files,
) -> (Files, Option<Result<Seq<char>, ErrorView>>) {
    let (s1, a1) = install_next(
        app,
        home,
        InstallStageView::Fetching,
        InstallEventView::Responded { status, reason: None },
    );
    if !(a1 is ReadBody) {
        (files, install_outcome(a1))
    } else {
        let (s2, a2) = install_next(app, home, s1, InstallEventView::BodyRead { text: body });
        if !(a2 is CreateDir) {
            (files, install_outcome(a2))
        } else {
            let (s3, a3) = install_next(app, home, s2, InstallEventView::DirCreated);
            match a3 {
                InstallActionView::WriteFile { path, content } => (
                    files.insert(path, content),
                    install_outcome(install_next(app, home, s3, InstallEventView::Written).1),
                ),
                _ => (files, install_outcome(a3)),
            }
        }
    }
}

/// An uninstall run against `files` in which every removal succeeds. Gives
/// the files after the run and its outcome.
pub open spec fn uninstall_in(app: OfficeApp, home: Option<Seq<char>>, files: Files) -> (
    Files,
    Option<Result<Seq<char>, ErrorView>>,
) {
    let (s0, a0) = uninstall_begin(app, home);
    match a0 {
        UninstallActionView::CheckExists { path } => {
            let (s1, a1) = uninstall_next(
                app,
                s0,
                UninstallEventView::Checked { exists: files.contains_key(path) },
            );
            match a1 {
                UninstallActionView::RemoveFile { path: p } => (
                    files.remove(p),
                    uninstall_outcome(uninstall_next(app, s1, UninstallEventView::Removed).1),
                ),
                _ => (files, uninstall_outcome(a1)),
            }
        },
        _ => (files, uninstall_outcome(a0)),
    }
}

/// What the manifest status query reports when the caller answers from
/// `files` about the path that `manifest_probe` names (no path, and so no
/// answer, while the home directory is unknown).
pub open spec fn manifest_query_in(files: Files, app: OfficeApp, home: Option<Seq<char>>) -> bool {
    match home {
        Some(h) => manifest_reported(
            app,
            home,
            app.manifest_path_spec(h),
            files.contains_key(app.manifest_path_spec(h)),
        ),
        None => manifest_answer_reported(app, home, None),
    }
}

/// Installing twice with the same download leaves the same files as
/// installing once, with the same outcome: the write replaces the manifest.
/// A successful install leaves exactly the downloaded body in the manifest
/// file, and the manifest status query then reports it installed.
pub proof fn lemma_install_twice(
    app: OfficeApp,
    home: Option<Seq<char>>,
    status: u16,
    body: Seq<char>,
    files: Files,
)
    ensures
        ({
            let (f1, o1) = install_in(app, home, status, body, files);
            let (f2, o2) = install_in(app, home, status, body, f1);
            &&& f2 == f1
            &&& o2 == o1
            &&& o1 matches Some(Ok(_)) ==> {
                &&& home is Some
                &&& f1 == files.insert(app.manifest_path_spec(home->0), body)
                &&& manifest_query_in(f1, app, home)
            }
        }),
{
    let (f1, o1) = install_in(app, home, status, body, files);
    if o1 matches Some(Ok(_)) {
        let p = app.manifest_path_spec(home->0);
        assert(f1 == files.insert(p, body));
        assert(f1.insert(p, body) =~= f1);
    }
}

/// Uninstalling twice: the second run finds nothing and answers "not
/// installed" without error, and leaves the files as the first run did.
/// After either run the manifest status query reports it absent.
pub proof fn lemma_uninstall_twice(app: OfficeApp, home: Option<Seq<char>>, files: Files)
    ensures
        ({
            let (f1, o1) = uninstall_in(app, home, files);
            let (f2, o2) = uninstall_in(app, home, f1);
            &&& f2 == f1
            &&& !manifest_query_in(f1, app, home)
            &&& home is Some ==> o2 == Some(Ok::<Seq<char>, ErrorView>(NOT_INSTALLED_MESSAGE@))
            &&& home is None ==> o2 == Some(
                Err::<Seq<char>, ErrorView>(ErrorView::HomeDirectoryUnresolved),
            )
        }),
{
}

/// An install that does not succeed changes no file, so where the manifest
/// status query reported the manifest absent before, it still does.
pub proof fn lemma_failed_install_leaves_files(
    app: OfficeApp,
    home: Option<Seq<char>>,
    status: u16,
    body: Seq<char>,
    files: Files,
)
    ensures
        ({
            let (f1, o1) = install_in(app, home, status, body, files);
            !(o1 matches Some(Ok(_))) ==> {
                &&& f1 == files
                &&& !manifest_query_in(files, app, home) ==> !manifest_query_in(f1, app, home)
            }
        }),
{
}

/// After a successful install for the `i`-th application, a status table
/// built from answers taken from the files the install left reports that
/// application's manifest installed; with its bundle found, it reports the
/// application installed as well.
pub proof fn lemma_status_after_install(
    i: int,
    h: Seq<char>,
    status: u16,
    body: Seq<char>,
    files: Files,
    s: AllStatus,
    hosts: Seq<PathAnswer>,
    manifests: Seq<Option<PathAnswer>>,
)
    requires
        0 <= i < all_apps_spec().len(),
        lists_all_apps(s),
        reports_answers(s, Some(h), hosts, manifests),
        install_in(all_apps_spec()[i], Some(h), status, body, files).1 matches Some(Ok(_)),
        manifests[i] matches Some(a) && a.path@ == all_apps_spec()[i].manifest_path_spec(h)
            && a.exists == install_in(all_apps_spec()[i], Some(h), status, body, files).0.contains_key(
            a.path@,
        ),
    ensures
        s.apps@[i].manifest_installed,
        hosts[i].path@ == all_apps_spec()[i].app_path_spec() && hosts[i].exists
            ==> s.apps@[i].office_installed,
{
    lemma_install_twice(all_apps_spec()[i], Some(h), status, body, files);
    assert(s.apps@[i].manifest_installed);
}

/// A success response whose body lacks the manifest's root element fails
/// with a validation error, and nothing is written.
pub proof fn lemma_invalid_body_rejected(
    app: OfficeApp,
    home: Option<Seq<char>>,
    status: u16,
    body: Seq<char>,
    files: Files,
)
    requires
        is_success_spec(status),
        !is_manifest_spec(body),
    ensures
        install_in(app, home, status, body, files) == (
            files,
            Some(Err::<Seq<char>, ErrorView>(ErrorView::Validation)),
        ),
{
}

/// A response with a status outside 200..=299 fails with that status code,
/// whose decimal digits the message shows, and nothing is read or written.
pub proof fn lemma_error_status_stops(
    app: OfficeApp,
    home: Option<Seq<char>>,
    status: u16,
    reason: Option<Seq<char>>,
    body: Seq<char>,
    files: Files,
)
    requires
        !is_success_spec(status),
    ensures
        install_next(
            app,
            home,
            InstallStageView::Fetching,
            InstallEventView::Responded { status, reason },
        ).1 == (InstallActionView::Finish {
            outcome: Err(ErrorView::HttpStatus { code: status, reason }),
        }),
        contains_spec(
            (ErrorView::HttpStatus { code: status, reason }).message(),
            decimal(status as nat),
        ),
        install_in(app, home, status, body, files).0 == files,
{
    let m = (ErrorView::HttpStatus { code: status, reason }).message();
    let prefix = "Server returned status "@;
    let k = prefix.len() as int;
    let d = decimal(status as nat);
    assert(m.subrange(k, k + d.len()) =~= d);
    assert(occurs_at(m, d, k));
}

/// When creating the side-load directory is refused for lack of
/// permission, the install fails with an error that names the directory and
/// carries the remediation hint, and no write is asked for.
pub proof fn lemma_permission_denied_dir(app: OfficeApp, home: Seq<char>, body: Seq<char>, detail: Seq<char>)
    requires
        is_manifest_spec(body),
    ensures
        ({
            let (s, a) = install_next(
                app,
                Some(home),
                InstallStageView::Reading,
                InstallEventView::BodyRead { text: body },
            );
            let dir = app.wef_dir_spec(home);
            let (s2, a2) = install_next(
                app,
                Some(home),
                s,
                InstallEventView::DirFailed { permission_denied: true, detail },
            );
            &&& a == (InstallActionView::CreateDir { dir })
            &&& s2 is Finished
            &&& a2 == (InstallActionView::Finish {
                outcome: Err(ErrorView::PermissionDenied { path: dir, writing: false }),
            })
            &&& contains_spec(
                (ErrorView::PermissionDenied { path: dir, writing: false }).message(),
                dir,
            )
            &&& contains_spec(
                (ErrorView::PermissionDenied { path: dir, writing: false }).message(),
                PERMISSION_HINT@,
            )
        }),
{
    let dir = app.wef_dir_spec(home);
    let m = (ErrorView::PermissionDenied { path: dir, writing: false }).message();
    let prefix = "Permission denied creating "@;
    let k = prefix.len() as int;
    assert(m.subrange(k, k + dir.len()) =~= dir);
    assert(occurs_at(m, dir, k));
    assert(m.subrange(k + dir.len(), m.len() as int) =~= PERMISSION_HINT@);
    assert(occurs_at(m, PERMISSION_HINT@, k + dir.len()));
}

} // verus!
