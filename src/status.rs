//! Status queries. The library names the paths to look for; the caller
//! looks (any failure reads as "not there") and hands back what it found.
//! Status answers are for display and never fail.
use vstd::prelude::*;
use crate::errors::{ErrorView, LifecycleError};
use crate::registry::{all_apps, all_apps_spec, home_view, OfficeApp};
use crate::text::same_text;

verus! {

/// What the caller found when it looked for `path` on disk.
#[derive(Debug)]
pub struct PathAnswer {
    pub path: String,
    pub exists: bool,
}

/// Whether finding `exists` at `path` means the bundle of `app` is installed.
pub open spec fn office_reported(app: OfficeApp, path: Seq<char>, exists: bool) -> bool {
    path == app.app_path_spec() && exists
}

/// Whether finding `exists` at `path` means the manifest of `app` is
/// installed, with the home directory `home`: never while it is unknown.
pub open spec fn manifest_reported(
    app: OfficeApp,
    home: Option<Seq<char>>,
    path: Seq<char>,
    exists: bool,
) -> bool {
    match home {
        Some(h) => path == app.manifest_path_spec(h) && exists,
        None => false,
    }
}

/// `manifest_reported` for an answer that may be missing.
pub open spec fn manifest_answer_reported(
    app: OfficeApp,
    home: Option<Seq<char>>,
    answer: Option<PathAnswer>,
) -> bool {
    match answer {
        Some(a) => manifest_reported(app, home, a.path@, a.exists),
        None => false,
    }
}

/// Whether the application bundle of `app` is installed, given what was
/// found at the bundle path (`app.app_path()`). An answer about another
/// path counts as "not installed".
pub fn is_office_installed(app: OfficeApp, answer: &PathAnswer) -> (r: bool)
    ensures
        r == office_reported(app, answer.path@, answer.exists),
{
    answer.exists && same_text(answer.path.as_str(), app.app_path())
}

/// Whether the manifest of `app` is installed, given what was found at the
/// path `app.manifest_probe(home)` names; `false` when the home directory is
/// unknown or there is no answer.
pub fn is_manifest_installed(app: OfficeApp, home: Option<&str>, answer: &Option<PathAnswer>) -> (r: bool)
    ensures
        r == manifest_answer_reported(app, home_view(home), *answer),
{
    match (home, answer) {
        (Some(h), Some(a)) => {
            if a.exists {
                let expected = app.manifest_path_under(h);
                same_text(a.path.as_str(), expected.as_str())
            } else {
                false
            }
        },
        _ => false,
    }
}

/// What is known of one host application.
#[derive(Debug)]
pub struct AppStatus {
    /// Display name of the application.
    pub app: String,
    pub office_installed: bool,
    pub manifest_installed: bool,
    /// Whether installing is offered for it.
    pub supported: bool,
}

/// The status of every host application, in display order.
#[derive(Debug)]
pub struct AllStatus {
    pub apps: Vec<AppStatus>,
}

/// `s` holds one entry per application, in display order, each with the
/// application's name and support flag.
pub open spec fn lists_all_apps(s: AllStatus) -> bool {
    &&& s.apps@.len() == all_apps_spec().len()
    &&& forall|i: int|
        0 <= i < s.apps@.len() ==> {
            &&& (#[trigger] s.apps@[i]).app@ == all_apps_spec()[i].display_name_spec()
            &&& s.apps@[i].supported == all_apps_spec()[i].supported_spec()
        }
}

/// `s` reports, for each application in display order, the bundle answer in
/// `hosts` and the manifest answer in `manifests` at the same position.
pub open spec fn reports_answers(
    s: AllStatus,
    home: Option<Seq<char>>,
    hosts: Seq<PathAnswer>,
    manifests: Seq<Option<PathAnswer>>,
) -> bool {
    forall|i: int|
        0 <= i < s.apps@.len() ==> {
            &&& (#[trigger] s.apps@[i]).office_installed == office_reported(
                all_apps_spec()[i],
                hosts[i].path@,
                hosts[i].exists,
            )
            &&& s.apps@[i].manifest_installed == manifest_answer_reported(
                all_apps_spec()[i],
                home,
                manifests[i],
            )
        }
}

/// The status of every host application, from what was found at each
/// application's bundle path (`hosts`) and manifest path (`manifests`), both
/// in display order, with the home directory `home`.
pub fn get_all_status(
    home: Option<&str>,
    hosts: &Vec<PathAnswer>,
    manifests: &Vec<Option<PathAnswer>>,
) -> (r: AllStatus)
    requires
        hosts@.len() == all_apps_spec().len(),
        manifests@.len() == all_apps_spec().len(),
    ensures
        lists_all_apps(r),
        reports_answers(r, home_view(home), hosts@, manifests@),
{
    let apps = all_apps();
    let mut out: Vec<AppStatus> = Vec::new();
    let mut i: usize = 0;
    while i < apps.len()
        invariant
            apps@ == all_apps_spec(),
            hosts@.len() == apps@.len(),
            manifests@.len() == apps@.len(),
            i <= apps@.len(),
            out@.len() == i,
            forall|k: int|
                0 <= k < i ==> {
                    &&& (#[trigger] out@[k]).app@ == all_apps_spec()[k].display_name_spec()
                    &&& out@[k].supported == all_apps_spec()[k].supported_spec()
                    &&& out@[k].office_installed == office_reported(
                        all_apps_spec()[k],
                        hosts@[k].path@,
                        hosts@[k].exists,
                    )
                    &&& out@[k].manifest_installed == manifest_answer_reported(
                        all_apps_spec()[k],
                        home_view(home),
                        manifests@[k],
                    )
                },
        decreases apps.len() - i,
    {
        let app = apps[i];
        out.push(
            AppStatus {
                app: String::from_str(app.display_name()),
                office_installed: is_office_installed(app, &hosts[i]),
                manifest_installed: is_manifest_installed(app, home, &manifests[i]),
                supported: app.supported(),
            },
        );
        i = i + 1;
    }
    AllStatus { apps: out }
}

/// The bundle path to open for `app`, given what was found there, or the
/// error when the bundle is missing.
pub fn launch_target(app: OfficeApp, bundle: &PathAnswer) -> (r: Result<&'static str, LifecycleError>)
    ensures
        office_reported(app, bundle.path@, bundle.exists) ==> (r matches Ok(p)
            && p@ == app.app_path_spec()),
        !office_reported(app, bundle.path@, bundle.exists) ==> (r matches Err(e)
            && e@ == (ErrorView::ApplicationNotInstalled { app })),
{
    if is_office_installed(app, bundle) {
        Ok(app.app_path())
    } else {
        Err(LifecycleError::ApplicationNotInstalled { app })
    }
}

/// The error for a launch that the system refused.
pub fn launch_failure(app: OfficeApp, detail: String) -> (r: LifecycleError)
    ensures
        r@ == (ErrorView::Launch { app, detail: detail@ }),
{
    LifecycleError::Launch { app, detail }
}

} // verus!
