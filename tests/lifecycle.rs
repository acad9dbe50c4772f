use std::collections::HashMap;

use optivise::errors::{dir_failure, write_failure, FsFailure, LifecycleError};
use optivise::install::{
    installed_message, is_success, validate_manifest, InstallAction, InstallEvent, Installer,
};
use optivise::registry::{all_apps, OfficeApp, MANIFEST_URL};
use optivise::status::{
    get_all_status, is_manifest_installed, is_office_installed, launch_failure, launch_target,
    PathAnswer,
};
use optivise::text::{contains, join, push_decimal};
use optivise::uninstall::{removed_message, UninstallAction, UninstallEvent, Uninstaller};

const VALID: &str = "<?xml version=\"1.0\"?><OfficeApp xmlns=\"x\"></OfficeApp>";

/// Runs an install against `files`; `dir_error` makes the directory creation fail.
fn run_install(
    app: OfficeApp,
    home: Option<&str>,
    status: u16,
    body: &str,
    files: &mut HashMap<String, String>,
    dir_error: Option<FsFailure>,
) -> (Result<String, LifecycleError>, Vec<String>) {
    let mut dir_error = dir_error;
    let mut asked: Vec<String> = Vec::new();
    let (mut m, mut action) = Installer::begin(app, home.map(String::from));
    loop {
        let event = match action {
            InstallAction::Fetch { url } => {
                asked.push(format!("fetch {}", url));
                InstallEvent::Responded { status, reason: None }
            }
            InstallAction::ReadBody => {
                asked.push("read".to_string());
                InstallEvent::BodyRead { text: body.to_string() }
            }
            InstallAction::CreateDir { dir } => {
                asked.push(format!("mkdir {}", dir));
                match dir_error.take() {
                    Some(failure) => InstallEvent::DirFailed { failure },
                    None => InstallEvent::DirCreated,
                }
            }
            InstallAction::WriteFile { path, content } => {
                asked.push(format!("write {}", path));
                files.insert(path, content);
                InstallEvent::Written
            }
            InstallAction::Finish { outcome } => return (outcome, asked),
        };
        assert!(m.accepts(&event));
        action = m.step(event);
    }
}

fn run_uninstall(
    app: OfficeApp,
    home: Option<&str>,
    files: &mut HashMap<String, String>,
) -> Result<String, LifecycleError> {
    let (mut m, mut action) = Uninstaller::begin(app, home);
    loop {
        let event = match action {
            UninstallAction::CheckExists { path } => {
                UninstallEvent::Checked { exists: files.contains_key(&path) }
            }
            UninstallAction::RemoveFile { path } => {
                files.remove(&path);
                UninstallEvent::Removed
            }
            UninstallAction::Finish { outcome } => return outcome,
        };
        assert!(m.accepts(&event));
        action = m.step(event);
    }
}

fn manifest_present(app: OfficeApp, home: &str, files: &HashMap<String, String>) -> bool {
    files.contains_key(&app.manifest_path_under(home))
}

fn answer(path: &str, exists: bool) -> PathAnswer {
    PathAnswer { path: path.to_string(), exists }
}

/// The status table, answering each check from `bundles` and `files`.
fn status_in(
    home: Option<&str>,
    bundles: &[&str],
    files: &HashMap<String, String>,
) -> optivise::status::AllStatus {
    let apps = all_apps();
    let hosts: Vec<PathAnswer> =
        apps.iter().map(|a| answer(a.app_path(), bundles.contains(&a.app_path()))).collect();
    let manifests: Vec<Option<PathAnswer>> = apps
        .iter()
        .map(|a| {
            a.manifest_probe(home).map(|p| {
                let exists = files.contains_key(&p);
                PathAnswer { path: p, exists }
            })
        })
        .collect();
    get_all_status(home, &hosts, &manifests)
}

#[test]
fn registry_facts() {
    assert_eq!(OfficeApp::Excel.container_id(), "com.microsoft.Excel");
    assert_eq!(OfficeApp::Word.container_id(), "com.microsoft.Word");
    assert_eq!(OfficeApp::PowerPoint.container_id(), "com.microsoft.Powerpoint");
    assert_eq!(OfficeApp::Excel.app_path(), "/Applications/Microsoft Excel.app");
    assert_eq!(OfficeApp::Word.app_path(), "/Applications/Microsoft Word.app");
    assert_eq!(OfficeApp::PowerPoint.app_path(), "/Applications/Microsoft PowerPoint.app");
    assert_eq!(OfficeApp::Excel.display_name(), "Excel");
    assert_eq!(OfficeApp::Word.display_name(), "Word");
    assert_eq!(OfficeApp::PowerPoint.display_name(), "PowerPoint");
    assert!(OfficeApp::Excel.supported());
    assert!(!OfficeApp::Word.supported());
    assert!(!OfficeApp::PowerPoint.supported());
}

#[test]
fn side_load_paths() {
    assert_eq!(
        OfficeApp::Excel.wef_dir_under("/Users/ana"),
        "/Users/ana/Library/Containers/com.microsoft.Excel/Data/Documents/wef"
    );
    assert_eq!(
        OfficeApp::Word.wef_dir_under("/Users/ana/"),
        "/Users/ana/Library/Containers/com.microsoft.Word/Data/Documents/wef"
    );
    assert_eq!(
        OfficeApp::PowerPoint.manifest_path_under("/h"),
        "/h/Library/Containers/com.microsoft.Powerpoint/Data/Documents/wef/optivise.xml"
    );
}

#[test]
fn current_user_paths_are_under_the_container() {
    if let Some(p) = OfficeApp::Excel.manifest_path() {
        assert!(p.ends_with("/Library/Containers/com.microsoft.Excel/Data/Documents/wef/optivise.xml"));
    }
    if let Some(d) = OfficeApp::Word.wef_dir() {
        assert!(d.ends_with("Library/Containers/com.microsoft.Word/Data/Documents/wef"));
    }
}

#[test]
fn text_helpers() {
    let mut s = String::from("n=");
    push_decimal(&mut s, 503);
    assert_eq!(s, "n=503");
    let mut z = String::new();
    push_decimal(&mut z, 0);
    assert_eq!(z, "0");
    let mut big = String::new();
    push_decimal(&mut big, 65535);
    assert_eq!(big, "65535");
    assert_eq!(join("", "a"), "a");
    assert_eq!(join("/", "a"), "/a");
    assert_eq!(join("/x", "a/b"), "/x/a/b");
    assert!(contains("abc<OfficeApp>", "<OfficeApp"));
    assert!(contains("héllo", "llo"));
    assert!(contains("abc", ""));
    assert!(!contains("<Office", "<OfficeApp"));
    assert!(!contains("", "a"));
}

#[test]
fn status_lists_every_app_in_order() {
    let all = status_in(Some("/h"), &[], &HashMap::new());
    assert_eq!(all.apps.len(), 3);
    let names: Vec<&str> = all.apps.iter().map(|a| a.app.as_str()).collect();
    assert_eq!(names, vec!["Excel", "Word", "PowerPoint"]);
    let supported: Vec<bool> = all.apps.iter().map(|a| a.supported).collect();
    assert_eq!(supported, vec![true, false, false]);
    assert!(all.apps.iter().all(|a| !a.manifest_installed && !a.office_installed));
    assert_eq!(all_apps(), vec![OfficeApp::Excel, OfficeApp::Word, OfficeApp::PowerPoint]);
}

#[test]
fn status_without_home_reports_no_manifest() {
    let mut files = HashMap::new();
    files.insert(OfficeApp::Excel.manifest_path_under("/h"), VALID.to_string());
    let all = status_in(None, &["/Applications/Microsoft Word.app"], &files);
    assert_eq!(all.apps.len(), 3);
    assert!(all.apps.iter().all(|a| !a.manifest_installed));
    assert!(all.apps[1].office_installed);
    assert!(OfficeApp::Excel.manifest_probe(None).is_none());
    let stray = Some(answer(&OfficeApp::Excel.manifest_path_under("/h"), true));
    assert!(!is_manifest_installed(OfficeApp::Excel, None, &stray));
    assert!(!is_manifest_installed(OfficeApp::Word, None, &None));
}

#[test]
fn status_queries_check_the_named_paths() {
    assert!(is_office_installed(OfficeApp::Excel, &answer("/Applications/Microsoft Excel.app", true)));
    assert!(!is_office_installed(OfficeApp::Excel, &answer("/Applications/Microsoft Excel.app", false)));
    assert!(!is_office_installed(OfficeApp::Excel, &answer("/Applications/Microsoft Word.app", true)));
    let p = OfficeApp::Word.manifest_probe(Some("/h")).unwrap();
    assert_eq!(p, "/h/Library/Containers/com.microsoft.Word/Data/Documents/wef/optivise.xml");
    assert!(is_manifest_installed(OfficeApp::Word, Some("/h"), &Some(answer(&p, true))));
    assert!(!is_manifest_installed(OfficeApp::Word, Some("/h"), &Some(answer(&p, false))));
    assert!(!is_manifest_installed(OfficeApp::Excel, Some("/h"), &Some(answer(&p, true))));
    assert!(!is_manifest_installed(OfficeApp::Word, Some("/h"), &None));
}

#[test]
fn status_scenario_before_and_after_install() {
    let mut files = HashMap::new();
    let bundles = ["/Applications/Microsoft Excel.app"];
    let before = status_in(Some("/Users/ana"), &bundles, &files);
    assert_eq!(before.apps[0].app, "Excel");
    assert!(before.apps[0].office_installed);
    assert!(!before.apps[0].manifest_installed);
    assert!(before.apps[0].supported);
    let (outcome, _) =
        run_install(OfficeApp::Excel, Some("/Users/ana"), 200, VALID, &mut files, None);
    assert!(outcome.is_ok());
    let after = status_in(Some("/Users/ana"), &bundles, &files);
    assert!(after.apps[0].office_installed);
    assert!(after.apps[0].manifest_installed);
    assert!(after.apps[0].supported);
    assert!(!after.apps[1].manifest_installed);
    let removed = run_uninstall(OfficeApp::Excel, Some("/Users/ana"), &mut files);
    assert!(removed.is_ok());
    assert!(!status_in(Some("/Users/ana"), &bundles, &files).apps[0].manifest_installed);
}

#[test]
fn success_statuses() {
    assert!(is_success(200));
    assert!(is_success(299));
    assert!(!is_success(199));
    assert!(!is_success(300));
    assert!(!is_success(503));
}

#[test]
fn html_body_is_not_a_manifest() {
    assert!(matches!(validate_manifest("<html>error</html>"), Err(LifecycleError::Validation)));
    assert!(validate_manifest(VALID).is_ok());
    let mut files = HashMap::new();
    let (outcome, asked) =
        run_install(OfficeApp::Excel, Some("/h"), 200, "<html>error</html>", &mut files, None);
    assert!(matches!(outcome, Err(LifecycleError::Validation)));
    assert_eq!(
        outcome.unwrap_err().message(),
        "Downloaded file is not a valid Office manifest"
    );
    assert!(files.is_empty());
    assert!(asked.iter().all(|a| !a.starts_with("write") && !a.starts_with("mkdir")));
}

#[test]
fn error_status_stops_before_any_write() {
    let mut files = HashMap::new();
    let (outcome, asked) = run_install(OfficeApp::Excel, Some("/h"), 503, VALID, &mut files, None);
    let err = outcome.unwrap_err();
    assert!(matches!(err, LifecycleError::HttpStatus { code: 503, .. }));
    assert!(err.message().contains("503"));
    assert_eq!(err.message(), "Server returned status 503 <unknown status code>");
    assert!(files.is_empty());
    assert_eq!(asked, vec![format!("fetch {}", MANIFEST_URL)]);
    let named = LifecycleError::HttpStatus {
        code: 503,
        reason: Some("Service Unavailable".to_string()),
    };
    assert_eq!(named.message(), "Server returned status 503 Service Unavailable");
}

#[test]
fn install_then_status_sees_manifest() {
    let mut files = HashMap::new();
    assert!(!manifest_present(OfficeApp::Excel, "/Users/ana", &files));
    let (outcome, asked) =
        run_install(OfficeApp::Excel, Some("/Users/ana"), 200, VALID, &mut files, None);
    assert_eq!(
        outcome.unwrap(),
        "Optivise add-in installed for Excel. Restart Excel to activate."
    );
    assert!(manifest_present(OfficeApp::Excel, "/Users/ana", &files));
    assert!(!manifest_present(OfficeApp::Word, "/Users/ana", &files));
    assert_eq!(
        asked,
        vec![
            format!("fetch {}", MANIFEST_URL),
            "read".to_string(),
            "mkdir /Users/ana/Library/Containers/com.microsoft.Excel/Data/Documents/wef"
                .to_string(),
            "write /Users/ana/Library/Containers/com.microsoft.Excel/Data/Documents/wef/optivise.xml"
                .to_string(),
        ]
    );
}

#[test]
fn install_twice_overwrites() {
    let mut files = HashMap::new();
    let path = OfficeApp::Excel.manifest_path_under("/h");
    files.insert(path.clone(), "old".to_string());
    let (first, _) = run_install(OfficeApp::Excel, Some("/h"), 200, VALID, &mut files, None);
    assert!(first.is_ok());
    let after_first = files.clone();
    let (second, _) = run_install(OfficeApp::Excel, Some("/h"), 200, VALID, &mut files, None);
    assert!(second.is_ok());
    assert_eq!(files, after_first);
    assert_eq!(files.get(&path).unwrap(), VALID);
    assert_eq!(files.len(), 1);
}

#[test]
fn uninstall_twice_is_not_installed() {
    let mut files = HashMap::new();
    let (installed, _) = run_install(OfficeApp::Word, Some("/h"), 200, VALID, &mut files, None);
    assert!(installed.is_ok());
    let first = run_uninstall(OfficeApp::Word, Some("/h"), &mut files).unwrap();
    assert_eq!(first, "Optivise add-in removed from Word. Restart Word to complete.");
    assert!(!manifest_present(OfficeApp::Word, "/h", &files));
    let second = run_uninstall(OfficeApp::Word, Some("/h"), &mut files).unwrap();
    assert_eq!(second, "Add-in is not installed");
}

#[test]
fn permission_denied_on_directory() {
    let mut files = HashMap::new();
    let failure = FsFailure { permission_denied: true, detail: "denied".to_string() };
    let (outcome, asked) =
        run_install(OfficeApp::Excel, Some("/h"), 200, VALID, &mut files, Some(failure));
    let err = outcome.unwrap_err();
    let dir = "/h/Library/Containers/com.microsoft.Excel/Data/Documents/wef";
    assert!(matches!(&err, LifecycleError::PermissionDenied { path, writing: false } if path == dir));
    let msg = err.message();
    assert!(msg.contains(dir));
    assert!(msg.contains("Full Disk Access"));
    assert_eq!(
        msg,
        format!("Permission denied creating {}. On macOS 14+, try: right-click the app → Open, or grant Full Disk Access in System Settings → Privacy & Security.", dir)
    );
    assert!(files.is_empty());
    assert!(asked.iter().all(|a| !a.starts_with("write")));
}

#[test]
fn other_directory_failure() {
    let mut files = HashMap::new();
    let failure = FsFailure { permission_denied: false, detail: "disk full".to_string() };
    let (outcome, _) =
        run_install(OfficeApp::Excel, Some("/h"), 200, VALID, &mut files, Some(failure));
    let err = outcome.unwrap_err();
    assert!(matches!(err, LifecycleError::DirectoryCreate { .. }));
    assert_eq!(
        err.message(),
        "Failed to create directory /h/Library/Containers/com.microsoft.Excel/Data/Documents/wef: disk full"
    );
}

#[test]
fn install_without_home() {
    let mut files = HashMap::new();
    let (outcome, asked) = run_install(OfficeApp::Excel, None, 200, VALID, &mut files, None);
    let err = outcome.unwrap_err();
    assert!(matches!(err, LifecycleError::HomeDirectoryUnresolved));
    assert_eq!(err.message(), "Could not determine home directory");
    assert_eq!(asked.len(), 2);
    let un = run_uninstall(OfficeApp::Excel, None, &mut files).unwrap_err();
    assert!(matches!(un, LifecycleError::HomeDirectoryUnresolved));
}

#[test]
fn fetch_and_read_failures() {
    let (mut m, _) = Installer::begin(OfficeApp::Excel, Some("/h".to_string()));
    let a = m.step(InstallEvent::FetchFailed { detail: "timed out".to_string() });
    match a {
        InstallAction::Finish { outcome: Err(e) } => {
            assert!(matches!(e, LifecycleError::Network { .. }));
            assert_eq!(e.message(), "Failed to download manifest: timed out");
        }
        other => panic!("unexpected {:?}", other),
    }
    let (mut m, _) = Installer::begin(OfficeApp::Excel, Some("/h".to_string()));
    assert!(matches!(m.step(InstallEvent::Responded { status: 200, reason: None }), InstallAction::ReadBody));
    assert!(!m.accepts(&InstallEvent::Written));
    match m.step(InstallEvent::ReadFailed { detail: "bad utf-8".to_string() }) {
        InstallAction::Finish { outcome: Err(e) } => {
            assert!(matches!(e, LifecycleError::Read { .. }));
            assert_eq!(e.message(), "Failed to read manifest: bad utf-8");
        }
        other => panic!("unexpected {:?}", other),
    }
}

#[test]
fn write_failures() {
    let p = "/h/x.xml".to_string();
    let denied = write_failure(p.clone(), FsFailure { permission_denied: true, detail: "e".to_string() });
    assert!(denied.message().starts_with("Permission denied writing to /h/x.xml. On macOS 14+"));
    let other = write_failure(p, FsFailure { permission_denied: false, detail: "io".to_string() });
    assert!(matches!(other, LifecycleError::Write { .. }));
    assert_eq!(other.message(), "Failed to write manifest: io");
    let d = dir_failure("/d".to_string(), FsFailure { permission_denied: true, detail: "e".to_string() });
    assert!(matches!(d, LifecycleError::PermissionDenied { writing: false, .. }));
}

#[test]
fn remove_failure() {
    let (mut m, a) = Uninstaller::begin(OfficeApp::Excel, Some("/h"));
    assert!(matches!(a, UninstallAction::CheckExists { .. }));
    assert!(matches!(m.step(UninstallEvent::Checked { exists: true }), UninstallAction::RemoveFile { .. }));
    match m.step(UninstallEvent::RemoveFailed { detail: "busy".to_string() }) {
        UninstallAction::Finish { outcome: Err(e) } => {
            assert!(matches!(e, LifecycleError::Delete { .. }));
            assert_eq!(e.message(), "Failed to remove manifest: busy");
        }
        other => panic!("unexpected {:?}", other),
    }
}

#[test]
fn messages_for_each_app() {
    assert_eq!(
        installed_message(OfficeApp::PowerPoint),
        "Optivise add-in installed for PowerPoint. Restart PowerPoint to activate."
    );
    assert_eq!(
        removed_message(OfficeApp::Excel),
        "Optivise add-in removed from Excel. Restart Excel to complete."
    );
    assert_eq!(
        LifecycleError::ApplicationNotInstalled { app: OfficeApp::Word }.message(),
        "Word is not installed"
    );
    assert_eq!(
        launch_failure(OfficeApp::Excel, "no handler".to_string()).message(),
        "Failed to open Excel: no handler"
    );
}

#[test]
fn launch_target_checks_bundle() {
    let found = answer("/Applications/Microsoft Excel.app", true);
    assert_eq!(launch_target(OfficeApp::Excel, &found).unwrap(), "/Applications/Microsoft Excel.app");
    let missing = answer("/Applications/Microsoft Excel.app", false);
    let err = launch_target(OfficeApp::Excel, &missing).unwrap_err();
    assert!(matches!(err, LifecycleError::ApplicationNotInstalled { app: OfficeApp::Excel }));
    assert_eq!(err.message(), "Excel is not installed");
    let other = answer("/Applications/Microsoft Word.app", true);
    assert!(launch_target(OfficeApp::Excel, &other).is_err());
}
