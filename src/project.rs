use vstd::prelude::*;
use vstd::string::*;

verus! {

/// Name and engine version of a game project.
pub struct ProjectSection {
    pub name: String,
    pub engine_version: String,
}

/// Directories of a project, relative to its root.
pub struct PathsSection {
    pub assets: String,
    pub scenes: String,
    pub default_scene: String,
}

/// Build options of a project.
pub struct BuildSection {
    pub profile: Option<String>,
    pub features: Vec<String>,
}

impl Default for BuildSection {
    fn default() -> (r: BuildSection)
        ensures
            r.profile is None,
            r.features@.len() == 0,
    {
        BuildSection { profile: None, features: Vec::new() }
    }
}

/// The contents of a project's configuration file.
pub struct ProjectConfig {
    pub project: ProjectSection,
    pub paths: PathsSection,
    pub build: BuildSection,
}

/// A project on disk: its root directory and its configuration.
pub struct Project {
    pub root: String,
    pub config: ProjectConfig,
}

/// A text file of a new project: path relative to the root, and contents.
pub struct ScaffoldFile {
    pub path: String,
    pub contents: String,
}

pub const CONFIG_FILE: &'static str = "minima.project.toml";

pub const ASSETS_DIR: &'static str = "assets";

pub const SCENES_DIR: &'static str = "scenes";

pub const SOURCE_DIR: &'static str = "src";

pub const DEFAULT_SCENE: &'static str = "scenes/main.scene.json";

pub const RELEASE_PROFILE: &'static str = "release";

pub const MANIFEST_FILE: &'static str = "Cargo.toml";

pub const ENTRY_FILE: &'static str = "src/main.rs";

pub const MANIFEST_HEAD: &'static str = "[package]\nname = \"";

pub const MANIFEST_TAIL: &'static str = "\"\nversion = \"0.1.0\"\nedition = \"2024\"\n\n[dependencies]\nminima-runtime = { path = \"../../crates/minima-runtime\" }\nminima-3d      = { path = \"../../crates/minima-3d\" }\nminima-camera  = { path = \"../../crates/minima-camera\" }\nminima-gltf    = { path = \"../../crates/minima-gltf\" }\nminima-scene   = { path = \"../../crates/minima-scene\" }\n";

pub const ENTRY_SOURCE: &'static str = "use minima_runtime::run_game;\n\nfn main() {\n    run_game();\n}\n";

pub const EMPTY_SCENE: &'static str = "{\n  \"objects\": []\n}\n";

/// What `str::to_lowercase` returns for the given characters.
pub uninterp spec fn lower_of(s: Seq<char>) -> Seq<char>;

/// Relies on str::to_lowercase: the result depends on the characters alone.
#[verifier::external_body]
fn lowercase(s: &str) -> (r: String)
    ensures
        r@ == lower_of(s@),
{
    s.to_lowercase()
}

/// Every space replaced by an underscore.
pub open spec fn underscored(s: Seq<char>) -> Seq<char> {
    Seq::new(s.len(), |i: int| if s[i] == ' ' { '_' } else { s[i] })
}

/// The configuration of a freshly scaffolded project.
pub open spec fn is_scaffold_config(c: ProjectConfig, name: Seq<char>, engine_version: Seq<char>) -> bool {
    &&& c.project.name@ == name
    &&& c.project.engine_version@ == engine_version
    &&& c.paths.assets@ == ASSETS_DIR@
    &&& c.paths.scenes@ == SCENES_DIR@
    &&& c.paths.default_scene@ == DEFAULT_SCENE@
    &&& c.build.profile matches Some(p) && p@ == RELEASE_PROFILE@
    &&& c.build.features@.len() == 0
}

/// The package manifest of a scaffolded project whose package is `package`.
pub open spec fn manifest_text(package: Seq<char>) -> Seq<char> {
    MANIFEST_HEAD@ + package + MANIFEST_TAIL@
}

/// Replaces each space of `s` by an underscore, keeping every other character.
pub fn spaces_to_underscores(s: &str) -> (r: String)
    ensures
        r@ == underscored(s@),
{
    let n = s.unicode_len();
    let mut out = String::from_str("");
    proof {
        reveal_strlit("");
    }
    let mut i: usize = 0;
    while i < n
        invariant
            n == s@.len(),
            i <= n,
            out@ == underscored(s@).subrange(0, i as int),
        decreases n - i,
    {
        let c = s.get_char(i);
        if c == ' ' {
            proof {
                reveal_strlit("_");
            }
            out.append("_");
        } else {
            out.append(s.substring_char(i, i + 1));
        }
        proof {
            assert(out@ =~= underscored(s@).subrange(0, i + 1));
        }
        i = i + 1;
    }
    proof {
        assert(out@ =~= underscored(s@));
    }
    out
}

/// The package name for a project called `name`: lower case, with spaces
/// turned into underscores.
pub fn package_name(name: &str) -> (r: String)
    ensures
        r@ == underscored(lower_of(name@)),
{
    let lower = lowercase(name);
    spaces_to_underscores(lower.as_str())
}

/// The package manifest text of a new project with the given package name.
pub fn cargo_manifest(package: &str) -> (r: String)
    ensures
        r@ == manifest_text(package@),
{
    let mut text = String::from_str(MANIFEST_HEAD);
    text.append(package);
    text.append(MANIFEST_TAIL);
    text
}

impl ProjectConfig {
    /// The configuration written into a new project.
    pub fn scaffold(name: &str, engine_version: &str) -> (r: ProjectConfig)
        ensures
            is_scaffold_config(r, name@, engine_version@),
    {
        ProjectConfig {
            project: ProjectSection {
                name: String::from_str(name),
                engine_version: String::from_str(engine_version),
            },
            paths: PathsSection {
                assets: String::from_str(ASSETS_DIR),
                scenes: String::from_str(SCENES_DIR),
                default_scene: String::from_str(DEFAULT_SCENE),
            },
            build: BuildSection {
                profile: Some(String::from_str(RELEASE_PROFILE)),
                features: Vec::new(),
            },
        }
    }
}

impl Project {
    /// The directories created under a new project's root, in creation order.
    pub fn scaffold_dirs() -> (r: Vec<String>)
        ensures
            r@.len() == 3,
            r@[0]@ == SOURCE_DIR@,
            r@[1]@ == ASSETS_DIR@,
            r@[2]@ == SCENES_DIR@,
    {
        let mut dirs: Vec<String> = Vec::new();
        dirs.push(String::from_str(SOURCE_DIR));
        dirs.push(String::from_str(ASSETS_DIR));
        dirs.push(String::from_str(SCENES_DIR));
        dirs
    }

    /// The text files of a new project called `name`, besides its
    /// configuration file: the package manifest, the entry point and an empty
    /// default scene.
    pub fn scaffold_files(name: &str) -> (r: Vec<ScaffoldFile>)
        ensures
            r@.len() == 3,
            r@[0].path@ == MANIFEST_FILE@,
            r@[0].contents@ == manifest_text(underscored(lower_of(name@))),
            r@[1].path@ == ENTRY_FILE@,
            r@[1].contents@ == ENTRY_SOURCE@,
            r@[2].path@ == DEFAULT_SCENE@,
            r@[2].contents@ == EMPTY_SCENE@,
    {
        let package = package_name(name);
        let mut files: Vec<ScaffoldFile> = Vec::new();
        files.push(
            ScaffoldFile {
                path: String::from_str(MANIFEST_FILE),
                contents: cargo_manifest(package.as_str()),
            },
        );
        files.push(
            ScaffoldFile {
                path: String::from_str(ENTRY_FILE),
                contents: String::from_str(ENTRY_SOURCE),
            },
        );
        files.push(
            ScaffoldFile {
                path: String::from_str(DEFAULT_SCENE),
                contents: String::from_str(EMPTY_SCENE),
            },
        );
        files
    }

    /// A project rooted at `root` with the configuration of a new project.
    pub fn scaffolded(root: &str, name: &str, engine_version: &str) -> (r: Project)
        ensures
            r.root@ == root@,
            is_scaffold_config(r.config, name@, engine_version@),
    {
        Project { root: String::from_str(root), config: ProjectConfig::scaffold(name, engine_version) }
    }
}

} // verus!
