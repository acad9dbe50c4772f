//! The Office host applications and the paths derived from each.
use vstd::prelude::*;
use crate::text::{join, join_spec};

verus! {

/// Where the add-in manifest is downloaded from.
pub const MANIFEST_URL: &'static str = "https://ex.optivise.app/manifest.xml";

/// File name of the manifest inside each side-load directory.
pub const MANIFEST_FILENAME: &'static str = "optivise.xml";

/// A supported Office host application.
#[derive(Debug, Clone, Copy, PartialEq, Eq, Structural)]
pub enum OfficeApp {
    Excel,
    Word,
    PowerPoint,
}

/// The host applications, in the fixed order used for display.
pub open spec fn all_apps_spec() -> Seq<OfficeApp> {
    seq![OfficeApp::Excel, OfficeApp::Word, OfficeApp::PowerPoint]
}

/// The host applications, in display order.
pub fn all_apps() -> (r: Vec<OfficeApp>)
    ensures
        r@ == all_apps_spec(),
{
    let r = vec![OfficeApp::Excel, OfficeApp::Word, OfficeApp::PowerPoint];
    assert(r@ =~= all_apps_spec());
    r
}

/// The characters of a home directory, if there is one.
pub open spec fn home_view(home: Option<&str>) -> Option<Seq<char>> {
    match home {
        Some(h) => Some(h@),
        None => None,
    }
}

/// Relies on dirs::home_dir: the current user's home directory, if it can be
/// found (from the environment or the user database). Nothing is promised of
/// the value.
#[verifier::external_body]
fn home_dir() -> (r: Option<String>) {
    dirs::home_dir().map(|p| p.to_string_lossy().into_owned())
}

/// The current user's home directory, if it can be resolved.
pub fn current_home() -> (r: Option<String>) {
    home_dir()
}

impl OfficeApp {
    pub open spec fn container_id_spec(self) -> Seq<char> {
        match self {
            OfficeApp::Excel => "com.microsoft.Excel"@,
            OfficeApp::Word => "com.microsoft.Word"@,
            OfficeApp::PowerPoint => "com.microsoft.Powerpoint"@,
        }
    }

    pub open spec fn app_path_spec(self) -> Seq<char> {
        match self {
            OfficeApp::Excel => "/Applications/Microsoft Excel.app"@,
            OfficeApp::Word => "/Applications/Microsoft Word.app"@,
            OfficeApp::PowerPoint => "/Applications/Microsoft PowerPoint.app"@,
        }
    }

    pub open spec fn display_name_spec(self) -> Seq<char> {
        match self {
            OfficeApp::Excel => "Excel"@,
            OfficeApp::Word => "Word"@,
            OfficeApp::PowerPoint => "PowerPoint"@,
        }
    }

    /// Whether installing the add-in is offered for this application.
    pub open spec fn supported_spec(self) -> bool {
        self is Excel
    }

    /// The side-load directory under the home directory `home`.
    pub open spec fn wef_dir_spec(self, home: Seq<char>) -> Seq<char> {
        join_spec(
            join_spec(join_spec(home, "Library/Containers"@), self.container_id_spec()),
            "Data/Documents/wef"@,
        )
    }

    /// The manifest's path under the home directory `home`.
    pub open spec fn manifest_path_spec(self, home: Seq<char>) -> Seq<char> {
        join_spec(self.wef_dir_spec(home), MANIFEST_FILENAME@)
    }

    /// The sandbox container identifier of the application.
    pub fn container_id(&self) -> (r: &'static str)
        ensures
            r@ == self.container_id_spec(),
    {
        match self {
            OfficeApp::Excel => "com.microsoft.Excel",
            OfficeApp::Word => "com.microsoft.Word",
            OfficeApp::PowerPoint => "com.microsoft.Powerpoint",
        }
    }

    /// The path of the application bundle.
    pub fn app_path(&self) -> (r: &'static str)
        ensures
            r@ == self.app_path_spec(),
    {
        match self {
            OfficeApp::Excel => "/Applications/Microsoft Excel.app",
            OfficeApp::Word => "/Applications/Microsoft Word.app",
            OfficeApp::PowerPoint => "/Applications/Microsoft PowerPoint.app",
        }
    }

    /// The name shown to users.
    pub fn display_name(&self) -> (r: &'static str)
        ensures
            r@ == self.display_name_spec(),
    {
        match self {
            OfficeApp::Excel => "Excel",
            OfficeApp::Word => "Word",
            OfficeApp::PowerPoint => "PowerPoint",
        }
    }

    /// Whether installing the add-in is offered for this application.
    pub fn supported(&self) -> (r: bool)
        ensures
            r == self.supported_spec(),
    {
        matches!(self, OfficeApp::Excel)
    }

    /// The side-load directory under the home directory `home`.
    pub fn wef_dir_under(&self, home: &str) -> (r: String)
        ensures
            r@ == self.wef_dir_spec(home@),
    {
        let a = join(home, "Library/Containers");
        let b = join(a.as_str(), self.container_id());
        join(b.as_str(), "Data/Documents/wef")
    }

    /// The manifest's path under the home directory `home`.
    pub fn manifest_path_under(&self, home: &str) -> (r: String)
        ensures
            r@ == self.manifest_path_spec(home@),
    {
        let dir = self.wef_dir_under(home);
        join(dir.as_str(), MANIFEST_FILENAME)
    }

    /// The path whose existence tells whether the manifest is installed, or
    /// `None` when the home directory is unknown and there is nothing to check.
    pub fn manifest_probe(&self, home: Option<&str>) -> (r: Option<String>)
        ensures
            match home_view(home) {
                Some(h) => r matches Some(p) && p@ == self.manifest_path_spec(h),
                None => r is None,
            },
    {
        match home {
            Some(h) => Some(self.manifest_path_under(h)),
            None => None,
        }
    }

    /// The side-load directory of the current user; `None` when the home
    /// directory cannot be resolved.
    pub fn wef_dir(&self) -> (r: Option<String>)
        ensures
            r matches Some(d) ==> exists|h: Seq<char>| d@ == self.wef_dir_spec(h),
    {
        match home_dir() {
            Some(h) => Some(self.wef_dir_under(h.as_str())),
            None => None,
        }
    }

    /// The manifest path of the current user; `None` when the home directory
    /// cannot be resolved.
    pub fn manifest_path(&self) -> (r: Option<String>)
        ensures
            r matches Some(p) ==> exists|h: Seq<char>| p@ == self.manifest_path_spec(h),
    {
        match home_dir() {
            Some(h) => Some(self.manifest_path_under(h.as_str())),
            None => None,
        }
    }
}

} // verus!
