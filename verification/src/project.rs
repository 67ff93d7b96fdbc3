//! Project directories: whether a path can be analysed, which entries of a
//! project are passed over, what an analysis adds up, and which packages a
//! package description names.
//!
//! Nothing here touches the file system. A caller walks the directory and
//! reads the files, and hands in what it found.

use vstd::prelude::*;
use serde_json::Value;
use crate::error::{ToolError, ToolFailure};
use crate::json::{json_objects, names_at, parse_json, text_objects};
use crate::text::{joined, same_text, texts};

verus! {

/// What a caller found at a path.
#[derive(Debug, Clone, Copy, PartialEq, Eq, Structural)]
pub enum PathKind {
    /// Nothing is there.
    Missing,
    /// Something is there that is no directory.
    NotDirectory,
    /// A directory.
    Directory,
}

/// Why a path cannot stand for a project, if it cannot.
pub open spec fn path_failure(project_path: Seq<char>, kind: PathKind) -> Option<ToolFailure> {
    match kind {
        PathKind::Missing => Some(
            ToolFailure::invalid("Project path does not exist: "@ + project_path),
        ),
        PathKind::NotDirectory => Some(
            ToolFailure::invalid("Project path is not a directory: "@ + project_path),
        ),
        PathKind::Directory => None,
    }
}

/// Accepts a project path at which a directory was found, and refuses
/// every other with the path in the message.
pub fn check_project_path(project_path: &str, kind: PathKind) -> (outcome: Result<(), ToolError>)
    ensures
        match outcome {
            Ok(_) => path_failure(project_path@, kind) is None,
            Err(error) => path_failure(project_path@, kind) == Some(error@),
        },
{
    match kind {
        PathKind::Missing => Err(
            ToolError::invalid(joined("Project path does not exist: ", project_path)),
        ),
        PathKind::NotDirectory => Err(
            ToolError::invalid(joined("Project path is not a directory: ", project_path)),
        ),
        PathKind::Directory => Ok(()),
    }
}

/// The file that describes a Node package.
pub const PACKAGE_JSON: &'static str = "package.json";

/// The file that describes a Rust package.
pub const CARGO_TOML: &'static str = "Cargo.toml";

/// The file that lists a Python project's requirements.
pub const REQUIREMENTS_TXT: &'static str = "requirements.txt";

/// The file that lists a Ruby project's gems.
pub const GEMFILE: &'static str = "Gemfile";

/// Whether `name` is one of the directories that hold what was installed
/// or built, not what was written.
pub open spec fn is_generated(name: Seq<char>) -> bool {
    name == "node_modules"@ || name == "target"@ || name == "dist"@ || name == "build"@ || name
        == ".next"@ || name == "out"@ || name == "__pycache__"@ || name == ".venv"@ || name
        == "venv"@
}

/// Whether an analysis passes over the entry called `name`, and over all
/// that lies below it.
pub open spec fn is_skipped(name: Seq<char>) -> bool {
    name == ".git"@ || is_generated(name)
}

/// Whether `name` is one of the directories that hold what was installed
/// or built.
pub fn names_generated(name: &str) -> (generated: bool)
    ensures
        generated == is_generated(name@),
{
    same_text(name, "node_modules") || same_text(name, "target") || same_text(name, "dist")
        || same_text(name, "build") || same_text(name, ".next") || same_text(name, "out")
        || same_text(name, "__pycache__") || same_text(name, ".venv") || same_text(name, "venv")
}

/// Whether an analysis passes over the entry called `name`.
pub fn skips_entry(name: &str) -> (skipped: bool)
    ensures
        skipped == is_skipped(name@),
{
    same_text(name, ".git") || names_generated(name)
}

/// The names `names`, and after them those of `more` that are not yet
/// among the names, each once, in their order.
pub open spec fn merged(names: Seq<Seq<char>>, more: Seq<Seq<char>>) -> Seq<Seq<char>>
    decreases more.len(),
{
    if more.len() == 0 {
        names
    } else if names.contains(more[0]) {
        merged(names, more.drop_first())
    } else {
        merged(names.push(more[0]), more.drop_first())
    }
}

/// Merging keeps the names that were there, in their places; it holds a
/// name exactly when one of the two lists does; and it repeats no name
/// where the first list repeats none.
pub proof fn lemma_merged(names: Seq<Seq<char>>, more: Seq<Seq<char>>)
    ensures
        merged(names, more).len() >= names.len(),
        merged(names, more).subrange(0, names.len() as int) == names,
        forall|name: Seq<char>| #[trigger]
            merged(names, more).contains(name) <==> names.contains(name) || more.contains(name),
        names.no_duplicates() ==> merged(names, more).no_duplicates(),
    decreases more.len(),
{
    let all = merged(names, more);
    if more.len() == 0 {
        assert(all.subrange(0, names.len() as int) =~= names);
    } else {
        let first = more[0];
        let rest = more.drop_first();
        let grown = if names.contains(first) {
            names
        } else {
            names.push(first)
        };
        lemma_merged(grown, rest);
        assert(all == merged(grown, rest));
        assert(all.subrange(0, names.len() as int) =~= names) by {
            assert forall|i: int| 0 <= i < names.len() implies all[i] == names[i] by {
                assert(all.subrange(0, grown.len() as int)[i] == grown[i]);
            }
        }
        assert forall|name: Seq<char>| #[trigger]
            all.contains(name) <==> names.contains(name) || more.contains(name) by {
            if more.contains(name) {
                let at = choose|at: int| 0 <= at < more.len() && more[at] == name;
                if at > 0 {
                    assert(rest[at - 1] == name);
                }
            }
            if rest.contains(name) {
                let at = choose|at: int| 0 <= at < rest.len() && rest[at] == name;
                assert(more[at + 1] == name);
            }
            if !names.contains(first) {
                assert(grown[names.len() as int] == first);
                if grown.contains(name) && name != first {
                    let at = choose|at: int| 0 <= at < grown.len() && grown[at] == name;
                    assert(names[at] == name);
                }
                if names.contains(name) {
                    let at = choose|at: int| 0 <= at < names.len() && names[at] == name;
                    assert(grown[at] == name);
                }
            }
        }
        if names.no_duplicates() {
            assert(grown.no_duplicates()) by {
                if !names.contains(first) {
                    assert forall|i: int, j: int|
                        0 <= i < grown.len() && 0 <= j < grown.len() && i != j implies grown[i]
                        != grown[j] by {
                        if i < names.len() {
                            assert(names.contains(grown[i]));
                        }
                        if j < names.len() {
                            assert(names.contains(grown[j]));
                        }
                    }
                }
            }
        }
    }
}

/// Whether `name` is among `names`.
fn holds_name(names: &Vec<String>, name: &str) -> (held: bool)
    ensures
        held == texts(names@).contains(name@),
{
    let mut i: usize = 0;
    while i < names.len()
        invariant
            0 <= i <= names@.len(),
            forall|j: int| 0 <= j < i ==> texts(names@)[j] != name@,
        decreases names@.len() - i,
    {
        if same_text(names[i].as_str(), name) {
            assert(texts(names@)[i as int] == name@);
            return true;
        }
        i += 1;
    }
    false
}

/// Adds to `names` the names of `more` that it does not hold yet.
pub fn merge_names(names: Vec<String>, more: &Vec<String>) -> (all: Vec<String>)
    ensures
        texts(all@) == merged(texts(names@), texts(more@)),
{
    let mut all = names;
    let mut i: usize = 0;
    assert(texts(more@).skip(0) =~= texts(more@));
    while i < more.len()
        invariant
            0 <= i <= more@.len(),
            merged(texts(all@), texts(more@).skip(i as int)) == merged(
                texts(names@),
                texts(more@),
            ),
        decreases more@.len() - i,
    {
        let ghost left = texts(more@).skip(i as int);
        proof {
            assert(left[0] == more@[i as int]@);
            assert(left.drop_first() =~= texts(more@).skip(i + 1));
        }
        if !holds_name(&all, more[i].as_str()) {
            let ghost before = texts(all@);
            all.push(more[i].clone());
            assert(texts(all@) =~= before.push(more@[i as int]@));
        }
        i += 1;
    }
    proof {
        assert(texts(more@).skip(i as int) =~= Seq::<Seq<char>>::empty());
    }
    all
}

/// serde_json's object: a map from names to JSON values.
#[verifier::external_type_specification]
#[verifier::external_body]
#[verifier::reject_recursive_types(K)]
#[verifier::reject_recursive_types(V)]
pub struct ExJsonMap<K, V>(serde_json::Map<K, V>);

/// The names of the members of a JSON object, in the order in which the
/// object gives them.
pub uninterp spec fn member_names(object: serde_json::Map<String, Value>) -> Seq<Seq<char>>;

/// Trusted: `Value::get` of serde_json, asked for a member by its name,
/// gives the member's value where the value is an object that has such a
/// member. What the member holds as an object is what the value holds
/// under the member's name; without a member the value holds no object
/// there.
#[verifier::external_body]
fn member<'a>(document: &'a Value, name: &str) -> (found: Option<&'a Value>)
    ensures
        names_at(json_objects(*document), seq![name@]) == match found {
            Some(value) => names_at(json_objects(*value), Seq::empty()),
            None => Seq::empty(),
        },
{
    document.get(name)
}

/// Trusted: `Value::as_object` of serde_json gives the object where the
/// value is one: the value then holds that object's members.
pub assume_specification<'a>[ Value::as_object ](value: &'a Value) -> (object: Option<
    &'a serde_json::Map<String, Value>,
>)
    ensures
        names_at(json_objects(*value), Seq::empty()) == match object {
            Some(members) => member_names(*members),
            None => Seq::empty(),
        },
;

/// Trusted: `Map::keys` of serde_json walks the names of an object's
/// members. As the object is a map, no name comes twice. The names are
/// copied out as they come.
#[verifier::external_body]
fn names_of(object: &serde_json::Map<String, Value>) -> (names: Vec<String>)
    ensures
        texts(names@) == member_names(*object),
        texts(names@).no_duplicates(),
{
    object.keys().cloned().collect()
}

/// The names of the members of the object that `document` holds under
/// `section`. There are none where `document` holds no object there.
fn section_names(document: &Value, section: &str) -> (names: Vec<String>)
    ensures
        texts(names@) == names_at(json_objects(*document), seq![section@]),
        texts(names@).no_duplicates(),
{
    match member(document, section) {
        Some(value) => match value.as_object() {
            Some(object) => names_of(object),
            None => {
                assert(texts(Seq::<String>::empty()) =~= Seq::<Seq<char>>::empty());
                Vec::new()
            },
        },
        None => {
            assert(texts(Seq::<String>::empty()) =~= Seq::<Seq<char>>::empty());
            Vec::new()
        },
    }
}

/// The packages that a package description names: those that its
/// document holds under `dependencies`, then those under
/// `devDependencies` that were not named before. A text that is no JSON
/// document names none.
pub open spec fn declared_names(package_text: Seq<char>) -> Seq<Seq<char>> {
    match text_objects(package_text) {
        Some(objects) => merged(
            names_at(objects, seq!["dependencies"@]),
            names_at(objects, seq!["devDependencies"@]),
        ),
        None => Seq::empty(),
    }
}

/// The packages that a package description depends on: the names under
/// `dependencies`, then those under `devDependencies` that were not named
/// before. A text that is no JSON document names none.
///
/// No name comes twice.
pub fn dependency_names(package_text: &str) -> (names: Vec<String>)
    ensures
        texts(names@) == declared_names(package_text@),
        texts(names@).no_duplicates(),
{
    match parse_json(package_text) {
        Ok(document) => {
            let direct = section_names(&document, "dependencies");
            let development = section_names(&document, "devDependencies");
            proof {
                lemma_merged(texts(direct@), texts(development@));
            }
            merge_names(direct, &development)
        },
        Err(_) => {
            assert(texts(Seq::<String>::empty()) =~= Seq::<Seq<char>>::empty());
            Vec::new()
        },
    }
}

/// What the analysis of a project found.
#[derive(Debug, Clone, PartialEq, Eq)]
pub struct FileAnalysis {
    pub has_package_json: bool,
    pub has_cargo_toml: bool,
    pub has_requirements_txt: bool,
    pub has_gemfile: bool,
    pub dependencies: Vec<String>,
    pub file_count: u32,
    pub total_size: i64,
}

/// Which of the files that describe a project were found in it.
#[derive(Debug, Clone, Copy, PartialEq, Eq, Structural)]
pub struct Markers {
    pub package_json: bool,
    pub cargo_toml: bool,
    pub requirements_txt: bool,
    pub gemfile: bool,
}

impl FileAnalysis {
    /// The analysis of a project before its files are counted.
    /// `package_text` is what the package description holds, where there
    /// is one that could be read.
    pub fn begin(markers: Markers, package_text: Option<&str>) -> (analysis: FileAnalysis)
        ensures
            analysis.has_package_json == markers.package_json,
            analysis.has_cargo_toml == markers.cargo_toml,
            analysis.has_requirements_txt == markers.requirements_txt,
            analysis.has_gemfile == markers.gemfile,
            analysis.file_count == 0,
            analysis.total_size == 0,
            texts(analysis.dependencies@).no_duplicates(),
            texts(analysis.dependencies@) == match package_text {
                Some(text) => if markers.package_json {
                    declared_names(text@)
                } else {
                    Seq::empty()
                },
                None => Seq::empty(),
            },
    {
        let dependencies = match package_text {
            Some(text) => if markers.package_json {
                dependency_names(text)
            } else {
                assert(texts(Seq::<String>::empty()) =~= Seq::<Seq<char>>::empty());
                Vec::new()
            },
            None => {
                assert(texts(Seq::<String>::empty()) =~= Seq::<Seq<char>>::empty());
                Vec::new()
            },
        };
        FileAnalysis {
            has_package_json: markers.package_json,
            has_cargo_toml: markers.cargo_toml,
            has_requirements_txt: markers.requirements_txt,
            has_gemfile: markers.gemfile,
            dependencies,
            file_count: 0,
            total_size: 0,
        }
    }

    /// Whether one more file of `size` bytes can be counted without a
    /// number running over: the size and the new total must fit the
    /// total's type. A file whose size is not known counts with no bytes.
    pub open spec fn has_room(self, size: Option<u64>) -> bool {
        self.file_count < u32::MAX && match size {
            Some(bytes) => bytes <= i64::MAX && self.total_size + bytes <= i64::MAX,
            None => true,
        }
    }

    /// Whether one more file of `size` bytes can be counted.
    pub fn can_count(&self, size: Option<u64>) -> (room: bool)
        ensures
            room == self.has_room(size),
    {
        self.file_count < u32::MAX && match size {
            Some(bytes) => bytes <= i64::MAX as u64 && self.total_size <= i64::MAX - bytes as i64,
            None => true,
        }
    }

    /// Counts one more file, of `size` bytes where the size is known.
    pub fn count_file(&mut self, size: Option<u64>)
        requires
            old(self).has_room(size),
        ensures
            final(self).file_count == old(self).file_count + 1,
            final(self).total_size == old(self).total_size + match size {
                Some(bytes) => bytes as int,
                None => 0,
            },
            final(self).has_package_json == old(self).has_package_json,
            final(self).has_cargo_toml == old(self).has_cargo_toml,
            final(self).has_requirements_txt == old(self).has_requirements_txt,
            final(self).has_gemfile == old(self).has_gemfile,
            final(self).dependencies == old(self).dependencies,
    {
        self.file_count = self.file_count + 1;
        match size {
            Some(bytes) => {
                self.total_size = self.total_size + bytes as i64;
            },
            None => {},
        }
    }
}

} // verus!
