use licer::stamp::{stamp_cargo, stamp_node, stamp_python};
use licer::{write_pkg, CliError, SourceFile};

fn holding(contents: &str) -> SourceFile {
    SourceFile::Text(contents.to_owned())
}

fn lines(warnings: &[CliError]) -> Vec<String> {
    warnings.iter().map(|w| w.warn()).collect()
}

#[test]
fn node_manifest_is_written_with_tabs() {
    let stamp = stamp_node("MIT", &holding("{\"a\":{\"b\":[1,{\"c\":\"    \"}]},\"license\":\"old\"}")).unwrap();
    assert_eq!(
        stamp.contents,
        "{\n\t\"a\": {\n\t\t\"b\": [\n\t\t\t1,\n\t\t\t{\n\t\t\t\t\"c\": \"\t\"\n\t\t\t}\n\t\t]\n\t},\n\t\"license\": \"MIT\"\n}"
    );
}

#[test]
fn node_manifest_that_is_no_object_becomes_one() {
    let stamp = stamp_node("MIT", &holding("[1, 2]")).unwrap();
    assert_eq!(stamp.contents, "{\n\t\"license\": \"MIT\"\n}");
}

#[test]
fn rust_manifest_keeps_what_it_held() {
    let stamp = stamp_cargo(
        "Apache-2.0",
        &holding("# top\n[package]\nname = \"x\" # here\nlicense = \"MIT\"\n\n[dependencies]\n"),
    )
    .unwrap();
    assert_eq!(
        stamp.contents,
        "# top\n[package]\nname = \"x\" # here\nlicense = \"Apache-2.0\"\n\n[dependencies]\n"
    );
}

#[test]
fn rust_manifest_without_package_gets_one() {
    let stamp = stamp_cargo("MIT", &holding("[dependencies]\n")).unwrap();
    assert_eq!(stamp.contents, "package = { license = \"MIT\" }\n[dependencies]\n");
    let stamp = stamp_cargo("MIT", &holding("package = { name = \"x\" }\n")).unwrap();
    assert_eq!(stamp.contents, "package = { name = \"x\" , license = \"MIT\" }\n");
}

#[test]
fn rust_manifest_whose_package_is_no_table_is_left_alone() {
    assert!(stamp_cargo("MIT", &holding("package = 3\n")).is_none());
    assert!(stamp_cargo("MIT", &holding("[[package]]\nname = \"x\"\n")).is_none());
    assert!(stamp_cargo("MIT", &holding("package = [1]\n")).is_none());
    assert!(stamp_cargo("MIT", &holding("[package")).is_none());
    assert!(stamp_cargo("MIT", &SourceFile::Missing).is_none());
    assert!(stamp_cargo("MIT", &SourceFile::Unreadable).is_none());
}

#[test]
fn python_manifest_takes_the_licence_at_its_root() {
    let stamp = stamp_python("MIT", &holding("name = \"x\"\n\n[tool]\ny = 1\n")).unwrap();
    assert_eq!(stamp.path, "pyproject.toml");
    assert_eq!(stamp.kind, "Cargo.toml");
    assert_eq!(stamp.contents, "name = \"x\"\nlicense = \"MIT\"\n\n[tool]\ny = 1\n");
    assert!(stamp_python("MIT", &holding("= 1")).is_none());
}

#[test]
fn first_manifest_that_can_takes_the_licence() {
    let mut warnings: Vec<CliError> = Vec::new();
    let stamp = write_pkg(
        "MIT",
        &holding("{}"),
        &holding("[package]\n"),
        &holding("a = 1\n"),
        &mut warnings,
    )
    .unwrap();
    assert_eq!(stamp.path, "package.json");
    let stamp = write_pkg(
        "MIT",
        &SourceFile::Missing,
        &holding("[package]\n"),
        &holding("a = 1\n"),
        &mut warnings,
    )
    .unwrap();
    assert_eq!(stamp.path, "Cargo.toml");
    let stamp = write_pkg(
        "MIT",
        &SourceFile::Missing,
        &SourceFile::Missing,
        &holding("a = 1\n"),
        &mut warnings,
    )
    .unwrap();
    assert_eq!(stamp.path, "pyproject.toml");
    assert!(warnings.is_empty());
    assert!(write_pkg(
        "MIT",
        &SourceFile::Missing,
        &SourceFile::Missing,
        &SourceFile::Missing,
        &mut warnings
    )
    .is_none());
    assert!(warnings.is_empty());
}

#[test]
fn manifests_that_cannot_take_it_leave_warnings() {
    let mut warnings: Vec<CliError> = Vec::new();
    let stamp = write_pkg(
        "MIT",
        &holding("{ no json"),
        &SourceFile::Unreadable,
        &holding("a = 1\n"),
        &mut warnings,
    )
    .unwrap();
    assert_eq!(stamp.path, "pyproject.toml");
    assert_eq!(
        lines(&warnings),
        vec![
            "A 'package.json' was found but failed to be parsed!",
            "A 'Cargo.toml' was found but failed to be read!",
        ]
    );

    let mut warnings: Vec<CliError> = Vec::new();
    let stamp = write_pkg(
        "MIT",
        &SourceFile::Unreadable,
        &holding("package = 1\n"),
        &SourceFile::Unreadable,
        &mut warnings,
    );
    assert!(stamp.is_none());
    assert_eq!(
        lines(&warnings),
        vec![
            "A 'package.json' was found but failed to be read!",
            "A 'Cargo.toml' was found but failed to be parsed!",
            "A 'Cargo.toml' was found but failed to be read!",
        ]
    );

    let mut warnings: Vec<CliError> = Vec::new();
    let stamp = write_pkg(
        "MIT",
        &SourceFile::Missing,
        &SourceFile::Missing,
        &holding("= oops"),
        &mut warnings,
    );
    assert!(stamp.is_none());
    assert_eq!(lines(&warnings), vec!["A 'Cargo.toml' was found but failed to be parsed!"]);
}

#[test]
fn node_manifest_with_a_number_too_long_to_count_is_left_alone() {
    let mut long = String::from("{\"version\":0.");
    for _ in 0..32768 {
        long.push('0');
    }
    long.push('}');
    let mut warnings: Vec<CliError> = Vec::new();
    let stamp = write_pkg(
        "MIT",
        &holding(&long),
        &SourceFile::Missing,
        &SourceFile::Missing,
        &mut warnings,
    );
    assert!(stamp.is_none());
    assert_eq!(lines(&warnings), vec!["A 'package.json' was found but failed to be parsed!"]);
}
