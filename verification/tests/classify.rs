use dotnet_module::classify::{get_dotnet_file_type, map_to_lower, EntryPath, FileType};

fn entry(path: &str) -> EntryPath {
    let path = std::path::Path::new(path);
    EntryPath {
        file_name: path.file_name().and_then(|name| name.to_str()).map(String::from),
        extension: path.extension().and_then(|extension| extension.to_str()).map(String::from),
    }
}

fn classify(path: &str) -> Option<FileType> {
    get_dotnet_file_type(&entry(path))
}

#[test]
fn global_json_is_the_global_pin_file() {
    assert_eq!(classify("global.json"), Some(FileType::GlobalJson));
    assert_eq!(classify("/home/user/repo/global.json"), Some(FileType::GlobalJson));
}

#[test]
fn project_json_is_the_project_descriptor() {
    assert_eq!(classify("project.json"), Some(FileType::ProjectJson));
}

#[test]
fn sln_extension_is_a_solution_file() {
    assert_eq!(classify("app.sln"), Some(FileType::SolutionFile));
    assert_eq!(classify("src/Big.Solution.sln"), Some(FileType::SolutionFile));
}

#[test]
fn proj_extensions_are_project_files() {
    assert_eq!(classify("app.csproj"), Some(FileType::ProjectFile));
    assert_eq!(classify("app.fsproj"), Some(FileType::ProjectFile));
    assert_eq!(classify("app.xproj"), Some(FileType::ProjectFile));
}

#[test]
fn other_files_are_no_markers() {
    assert_eq!(classify("README.md"), None);
    assert_eq!(classify("app.vbproj"), None);
    assert_eq!(classify("package.json"), None);
    assert_eq!(classify("global.json.bak"), None);
    assert_eq!(classify("xglobal.json"), None);
    assert_eq!(classify("app.csproj.user"), None);
    assert_eq!(classify("Makefile"), None);
}

#[test]
fn a_name_that_only_spells_an_extension_is_no_marker() {
    assert_eq!(classify("sln"), None);
    assert_eq!(classify("csproj"), None);
    assert_eq!(classify(".sln"), None);
}

#[test]
fn classification_ignores_ascii_case() {
    assert_eq!(classify("Project.CSPROJ"), classify("project.csproj"));
    assert_eq!(classify("Project.CSPROJ"), Some(FileType::ProjectFile));
    assert_eq!(classify("PROJECT.JSON"), classify("project.json"));
    assert_eq!(classify("PROJECT.JSON"), Some(FileType::ProjectJson));
    assert_eq!(classify("Global.Json"), classify("global.json"));
    assert_eq!(classify("Global.Json"), Some(FileType::GlobalJson));
    assert_eq!(classify("App.SlN"), Some(FileType::SolutionFile));
    assert_eq!(classify("App.FsProj"), Some(FileType::ProjectFile));
    assert_eq!(classify("App.XPROJ"), Some(FileType::ProjectFile));
}

#[test]
fn only_ascii_letters_are_folded() {
    // U+212A KELVIN SIGN lower-cases to `k` in Unicode, not in ASCII.
    assert_eq!(classify("app.\u{212a}sln"), None);
    assert_eq!(classify("global.j\u{17f}on"), None);
    assert_eq!(map_to_lower(&Some("\u{c4}B.SLN".to_string())), Some("\u{c4}b.sln".to_string()));
}

#[test]
fn map_to_lower_folds_upper_case_letters() {
    assert_eq!(map_to_lower(&Some("AZ az 09 [@`{".to_string())), Some("az az 09 [@`{".to_string()));
    assert_eq!(map_to_lower(&Some(String::new())), Some(String::new()));
    assert_eq!(map_to_lower(&None), None);
}

#[test]
fn the_file_name_is_read_before_the_extension() {
    // The name rule wins although the extension `sln` is present as well.
    let path = EntryPath {
        file_name: Some("global.json".to_string()),
        extension: Some("sln".to_string()),
    };
    assert_eq!(get_dotnet_file_type(&path), Some(FileType::GlobalJson));
    let path = EntryPath {
        file_name: Some("Project.Json".to_string()),
        extension: Some("csproj".to_string()),
    };
    assert_eq!(get_dotnet_file_type(&path), Some(FileType::ProjectJson));
}

#[test]
fn a_path_without_name_and_extension_is_no_marker() {
    assert_eq!(get_dotnet_file_type(&EntryPath { file_name: None, extension: None }), None);
    assert_eq!(classify("/"), None);
    assert_eq!(classify(".."), None);
}

#[test]
fn an_extension_decides_where_the_name_is_not_unicode() {
    let path = EntryPath { file_name: None, extension: Some("SLN".to_string()) };
    assert_eq!(get_dotnet_file_type(&path), Some(FileType::SolutionFile));
}

#[test]
fn a_name_decides_where_the_extension_is_not_unicode() {
    let path = EntryPath { file_name: Some("GLOBAL.JSON".to_string()), extension: None };
    assert_eq!(get_dotnet_file_type(&path), Some(FileType::GlobalJson));
    let path = EntryPath { file_name: Some("app.sln".to_string()), extension: None };
    assert_eq!(get_dotnet_file_type(&path), None);
}
