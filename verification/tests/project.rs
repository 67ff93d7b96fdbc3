use browser_sessions::error::{Status, ToolError};
use browser_sessions::project::{
    check_project_path, dependency_names, merge_names, names_generated, skips_entry, FileAnalysis, Markers,
    PathKind, CARGO_TOML, GEMFILE, PACKAGE_JSON, REQUIREMENTS_TXT,
};

fn names(list: &[&str]) -> Vec<String> {
    list.iter().map(|name| name.to_string()).collect()
}

const NO_MARKERS: Markers =
    Markers { package_json: false, cargo_toml: false, requirements_txt: false, gemfile: false };

#[test]
fn missing_path_is_refused() {
    assert_eq!(
        check_project_path("/nonexistent/path/12345", PathKind::Missing),
        Err(ToolError {
            status: Status::InvalidArg,
            reason: "Project path does not exist: /nonexistent/path/12345".to_string(),
        })
    );
}

#[test]
fn file_in_place_of_directory_is_refused() {
    assert_eq!(
        check_project_path("/tmp/test_file.txt", PathKind::NotDirectory),
        Err(ToolError {
            status: Status::InvalidArg,
            reason: "Project path is not a directory: /tmp/test_file.txt".to_string(),
        })
    );
}

#[test]
fn directory_is_accepted() {
    assert_eq!(check_project_path("/tmp", PathKind::Directory), Ok(()));
}

#[test]
fn marker_file_names() {
    assert_eq!(PACKAGE_JSON, "package.json");
    assert_eq!(CARGO_TOML, "Cargo.toml");
    assert_eq!(REQUIREMENTS_TXT, "requirements.txt");
    assert_eq!(GEMFILE, "Gemfile");
}

#[test]
fn analysis_skips_generated_directories_and_git() {
    for name in
        ["node_modules", ".git", "target", "dist", "build", ".next", "out", "__pycache__", ".venv", "venv"]
    {
        assert!(skips_entry(name), "{}", name);
    }
    for name in ["src", "", ".github", ".gitignore", "Target", "builds", "node_module", "outs", ".env"] {
        assert!(!skips_entry(name), "{}", name);
    }
    assert!(names_generated("target"));
    assert!(!names_generated(".git"));
}

#[test]
fn dependencies_then_new_dev_dependencies() {
    let text = "{\"dependencies\": {\"react\": \"18\", \"axios\": \"1\"}, \
                \"devDependencies\": {\"vite\": \"5\", \"react\": \"18\", \"eslint\": \"9\"}}";
    assert_eq!(dependency_names(text), names(&["axios", "react", "eslint", "vite"]));
}

#[test]
fn dependencies_of_odd_documents() {
    assert_eq!(dependency_names("not json"), names(&[]));
    assert_eq!(dependency_names("{}"), names(&[]));
    assert_eq!(dependency_names("[1, 2]"), names(&[]));
    assert_eq!(dependency_names("{\"dependencies\": [\"a\"]}"), names(&[]));
    assert_eq!(dependency_names("{\"dependencies\": {\"a\": 1}, \"devDependencies\": 3}"), names(&["a"]));
    assert_eq!(dependency_names("{\"devDependencies\": {\"b\": 1, \"a\": 2}}"), names(&["a", "b"]));
}

#[test]
fn merge_adds_only_new_names() {
    assert_eq!(merge_names(names(&["a", "b"]), &names(&["b", "c", "a", "d"])), names(&["a", "b", "c", "d"]));
    assert_eq!(merge_names(names(&[]), &names(&["x", "x", "y"])), names(&["x", "y"]));
    assert_eq!(merge_names(names(&["a", "a"]), &names(&[])), names(&["a", "a"]));
    assert_eq!(merge_names(names(&["A"]), &names(&["a"])), names(&["A", "a"]));
}

#[test]
fn analysis_begins_with_markers_and_dependencies() {
    let markers = Markers { package_json: true, cargo_toml: false, requirements_txt: true, gemfile: false };
    let analysis = FileAnalysis::begin(markers, Some("{\"dependencies\": {\"left-pad\": \"1\"}}"));
    assert_eq!(
        analysis,
        FileAnalysis {
            has_package_json: true,
            has_cargo_toml: false,
            has_requirements_txt: true,
            has_gemfile: false,
            dependencies: names(&["left-pad"]),
            file_count: 0,
            total_size: 0,
        }
    );
}

#[test]
fn analysis_without_package_description_has_no_dependencies() {
    let unread = Markers { package_json: true, ..NO_MARKERS };
    assert_eq!(FileAnalysis::begin(unread, None).dependencies, names(&[]));
    let text = "{\"dependencies\": {\"a\": \"1\"}}";
    assert_eq!(FileAnalysis::begin(NO_MARKERS, Some(text)).dependencies, names(&[]));
}

#[test]
fn counting_files_adds_up() {
    let mut analysis = FileAnalysis::begin(NO_MARKERS, None);
    assert!(analysis.can_count(Some(10)));
    analysis.count_file(Some(10));
    analysis.count_file(None);
    analysis.count_file(Some(0));
    analysis.count_file(Some(4096));
    assert_eq!(analysis.file_count, 4);
    assert_eq!(analysis.total_size, 4106);
}

#[test]
fn counting_stops_before_numbers_run_over() {
    let mut analysis = FileAnalysis::begin(NO_MARKERS, None);
    assert!(!analysis.can_count(Some(u64::MAX)));
    assert!(!analysis.can_count(Some(i64::MAX as u64 + 1)));
    assert!(analysis.can_count(Some(i64::MAX as u64)));
    analysis.count_file(Some(i64::MAX as u64));
    assert_eq!(analysis.total_size, i64::MAX);
    assert!(!analysis.can_count(Some(1)));
    assert!(analysis.can_count(Some(0)));
    assert!(analysis.can_count(None));
    analysis.file_count = u32::MAX;
    assert!(!analysis.can_count(None));
}
