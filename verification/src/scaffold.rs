//! Project scaffolding: validating a new project's name and producing the
//! fixed file templates — the dependency manifest, the entry point, and
//! the ignore list. Writing them to disk is the embedding program's part.

use vstd::prelude::*;
use vstd::string::StringExecFns;

use crate::text::contains_seq;
use crate::text::contains_sub;
use crate::text::to_chars;

verus! {

/// Why a project name is rejected.
#[derive(Debug, PartialEq, Eq, Structural)]
pub enum ProjectNameError {
    /// The name is empty.
    Empty,
    /// The name is a path, not a single directory name.
    PathLike,
}

impl ProjectNameError {
    /// The message shown to the user, as the command reports it.
    pub fn message(&self) -> (r: &'static str)
        ensures
            *self == ProjectNameError::Empty ==> r@ == "Project name cannot be empty"@,
            *self == ProjectNameError::PathLike ==> r@
                == "Project name must be a single directory name (no path separators, no '..')"@,
    {
        match self {
            ProjectNameError::Empty => "Project name cannot be empty",
            ProjectNameError::PathLike => "Project name must be a single directory name (no path separators, no '..')",
        }
    }
}

/// A name that points outside a single directory: the parent directory,
/// or anything with a path separator in it.
pub open spec fn name_path_like(name: Seq<char>) -> bool {
    name == seq!['.', '.'] || contains_seq(name, seq!['/']) || contains_seq(name, seq!['\\'])
}

/// Validates a project name, already trimmed: it must be non-empty, and —
/// except for `.`, which means the current directory — a single directory
/// name without separators or a parent-directory segment.
pub fn validate_project_name(name: &str) -> (r: Result<(), ProjectNameError>)
    ensures
        name@.len() == 0 ==> r == Result::<(), ProjectNameError>::Err(ProjectNameError::Empty),
        name@.len() > 0 && name@ == seq!['.'] ==> r is Ok,
        name@.len() > 0 && name@ != seq!['.'] && name_path_like(name@) ==> r == Result::<
            (),
            ProjectNameError,
        >::Err(ProjectNameError::PathLike),
        name@.len() > 0 && name@ != seq!['.'] && !name_path_like(name@) ==> r is Ok,
{
    let chars = to_chars(name);
    if chars.len() == 0 {
        return Err(ProjectNameError::Empty);
    }
    if chars.len() == 1 && chars[0] == '.' {
        assert(chars@ =~= seq!['.']);
        return Ok(());
    }
    assert(chars@ != seq!['.']);
    if chars.len() == 2 && chars[0] == '.' && chars[1] == '.' {
        assert(chars@ =~= seq!['.', '.']);
        return Err(ProjectNameError::PathLike);
    }
    assert(chars@ != seq!['.', '.']);
    let mut slash: Vec<char> = Vec::new();
    slash.push('/');
    assert(slash@ =~= seq!['/']);
    if contains_sub(&chars, &slash) {
        return Err(ProjectNameError::PathLike);
    }
    let mut backslash: Vec<char> = Vec::new();
    backslash.push('\\');
    assert(backslash@ =~= seq!['\\']);
    if contains_sub(&chars, &backslash) {
        return Err(ProjectNameError::PathLike);
    }
    Ok(())
}

/// What stands before the project name in the dependency manifest.
pub const MANIFEST_PRE: &'static str = "// swift-tools-version: 5.9\nimport PackageDescription\n\nlet package = Package(\n    name: \"";

/// What stands between the two uses of the project name.
pub const MANIFEST_MID: &'static str = "\",\n    platforms: [.macOS(.v13)],\n    products: [\n        .executable(name: \"";

/// What stands between the product name and the target name.
pub const MANIFEST_TARGETS: &'static str = "\", targets: [\"";

/// What closes the products section and opens the targets section.
pub const MANIFEST_TARGET_HEAD: &'static str = "\"])\n    ],\n    dependencies: [\n        .package(url: \"https://github.com/pinkqween/SHTML.git\", branch: \"main\")\n    ],\n    targets: [\n        .executableTarget(name: \"";

/// What closes the manifest after the target name.
pub const MANIFEST_POST: &'static str = "\", dependencies: [\"SHTML\"])\n    ]\n)\n";

/// The dependency manifest for a new project of the given name.
pub open spec fn manifest_text(name: Seq<char>) -> Seq<char> {
    MANIFEST_PRE@ + name + MANIFEST_MID@ + name + MANIFEST_TARGETS@ + name + MANIFEST_TARGET_HEAD@
        + name + MANIFEST_POST@
}

/// Builds the dependency manifest for a new project.
pub fn package_manifest(name: &str) -> (r: String)
    ensures
        r@ == manifest_text(name@),
{
    let mut r = String::from_str(MANIFEST_PRE);
    r.append(name);
    r.append(MANIFEST_MID);
    r.append(name);
    r.append(MANIFEST_TARGETS);
    r.append(name);
    r.append(MANIFEST_TARGET_HEAD);
    r.append(name);
    r.append(MANIFEST_POST);
    r
}

/// The entry-point template a new project starts from.
pub fn entry_point_template() -> (r: &'static str)
    ensures
        r@
            == "import SHTML\n\nstruct MyWebsite: Website {\n    var body: some HTML {\n        html {\n            head {\n                meta().charset(\"UTF-8\")\n                title(\"SHTML Site\")\n            }\n            SHTML.body {\n                h1 { \"Hello SHTML!\" }\n            }\n        }\n    }\n}\n\nlet site = MyWebsite()\nsite.generate()\n"@,
{
    "import SHTML\n\nstruct MyWebsite: Website {\n    var body: some HTML {\n        html {\n            head {\n                meta().charset(\"UTF-8\")\n                title(\"SHTML Site\")\n            }\n            SHTML.body {\n                h1 { \"Hello SHTML!\" }\n            }\n        }\n    }\n}\n\nlet site = MyWebsite()\nsite.generate()\n"
}

/// The ignore list a new project starts from.
pub fn gitignore_template() -> (r: &'static str)
    ensures
        r@ == ".DS_Store\n/.build\n/Packages\noutput/index.html\n"@,
{
    ".DS_Store\n/.build\n/Packages\noutput/index.html\n"
}

} // verus!
