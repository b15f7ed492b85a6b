use equivcheck::compiler::{
    analysis_levels, analysis_name, binary_path, check_compilation, compiler_arguments,
    optimization_levels, CompilationFailure, CompilerKind, Optimization,
};
use equivcheck::config::{AppConfig, ConfigError, GccrsConfig, RustcConfig};
use equivcheck::context::AnalysisError;
use equivcheck::executor::ExecutionError;
use equivcheck::paths::PathKind;
use equivcheck::report::{ErrorReporter, Report};
use equivcheck::testsuite::{DirectoryListing, NamedFile, TestCase, TestSuite, TestSuiteError};
use std::time::Duration;

#[test]
fn compiler_names() {
    assert_eq!(CompilerKind::Rustc.name(), "rustc");
    assert_eq!(CompilerKind::Gccrs.name(), "gccrs");
}

#[test]
fn optimization_levels_in_order() {
    assert_eq!(
        optimization_levels(),
        vec![
            Optimization::Zero,
            Optimization::One,
            Optimization::Two,
            Optimization::Three,
            Optimization::S,
            Optimization::Z,
        ]
    );
    let written: Vec<&str> = optimization_levels().iter().map(|l| l.numeric()).collect();
    assert_eq!(written, vec!["0", "1", "2", "3", "s", "z"]);
}

#[test]
fn levels_of_a_session() {
    assert_eq!(analysis_levels(true), vec![Optimization::Zero]);
    assert_eq!(analysis_levels(false), optimization_levels());
    assert_eq!(analysis_levels(false).len(), 6);
}

#[test]
fn name_of_an_analysis() {
    assert_eq!(
        analysis_name("struct1", Optimization::Three),
        "struct1 with optimization=3"
    );
    assert_eq!(analysis_name("", Optimization::Z), " with optimization=z");
}

#[test]
fn optimization_flags_per_compiler() {
    assert_eq!(
        Optimization::Two.for_compiler(CompilerKind::Gccrs),
        vec!["-O2".to_string()]
    );
    assert_eq!(
        Optimization::S.for_compiler(CompilerKind::Rustc),
        vec!["-C".to_string(), "opt-level=s".to_string()]
    );
}

#[test]
fn binary_paths() {
    assert_eq!(
        binary_path(CompilerKind::Gccrs, Optimization::Zero),
        "out/gccrs_0.out"
    );
    assert_eq!(
        binary_path(CompilerKind::Rustc, Optimization::Z),
        "out/rustc_z.out"
    );
}

#[test]
fn compiler_command_line() {
    let args = vec!["--edition".to_string(), "2021".to_string()];
    assert_eq!(
        compiler_arguments("t/a.rs", &args, Optimization::Three, CompilerKind::Rustc),
        vec![
            "t/a.rs",
            "--edition",
            "2021",
            "-C",
            "opt-level=3",
            "-o",
            "out/rustc_3.out"
        ]
    );
    assert_eq!(
        compiler_arguments("t/a.rs", &vec![], Optimization::One, CompilerKind::Gccrs),
        vec!["t/a.rs", "-O1", "-o", "out/gccrs_1.out"]
    );
}

#[test]
fn failed_compilation_carries_the_compiler_and_its_words() {
    assert_eq!(check_compilation(CompilerKind::Gccrs, true, &b"warning".to_vec()), Ok(()));
    let failure = check_compilation(CompilerKind::Gccrs, false, &vec![0x65, 0xff]).unwrap_err();
    assert_eq!(
        failure,
        CompilationFailure {
            compiler: "gccrs".to_string(),
            message: "e\u{FFFD}".to_string(),
        }
    );
    assert_eq!(
        failure.to_message(),
        "Compilation error for gccrs:\n e\u{FFFD}"
    );
}

fn config() -> AppConfig {
    AppConfig {
        rustc: RustcConfig {
            path: "/usr/bin/rustc".to_string(),
            args: vec![],
        },
        gccrs: GccrsConfig {
            path: "/opt/gccrs/bin/crab1".to_string(),
            args: vec!["-frust-incomplete".to_string()],
        },
    }
}

#[test]
fn configuration_with_both_compilers_is_valid() {
    assert_eq!(config().validate(PathKind::File, PathKind::File), Ok(()));
    assert_eq!(config().validate(PathKind::Directory, PathKind::Other), Ok(()));
}

#[test]
fn configuration_names_the_first_missing_compiler() {
    assert_eq!(
        config().validate(PathKind::Missing, PathKind::Missing),
        Err(ConfigError::Validation(
            "Rustc path does not exist: /usr/bin/rustc".to_string()
        ))
    );
    assert_eq!(
        config().validate(PathKind::File, PathKind::Missing),
        Err(ConfigError::Validation(
            "GCCRS path does not exist: /opt/gccrs/bin/crab1".to_string()
        ))
    );
}

#[test]
fn configuration_error_messages() {
    assert_eq!(
        ConfigError::FileRead("denied".to_string()).message(),
        "Failed to read config file: denied"
    );
    assert_eq!(
        ConfigError::Parse("line 3".to_string()).message(),
        "Failed to parse config file: line 3"
    );
    assert_eq!(
        ConfigError::Validation("x".to_string()).message(),
        "Invalid configuration: x"
    );
}

#[test]
fn suite_of_one_file_is_named_by_its_stem() {
    let suite = TestSuite::from_file(
        "tests/rustc/struct1.rs",
        PathKind::File,
        "tests/gccrs/struct1.rs",
        PathKind::File,
    )
    .unwrap();
    assert_eq!(suite.size, 1);
    assert_eq!(
        suite.cases,
        vec![TestCase::new(
            "struct1".to_string(),
            "tests/rustc/struct1.rs".to_string(),
            "tests/gccrs/struct1.rs".to_string()
        )]
    );
}

#[test]
fn the_stem_ends_before_the_last_dot_of_the_file_name() {
    let name_of = |path: &str| {
        TestSuite::from_file(path, PathKind::File, "g.rs", PathKind::File)
            .map(|suite| suite.cases[0].name.clone())
    };
    assert_eq!(name_of("dir.d/archive.tar.gz"), Ok("archive.tar".to_string()));
    assert_eq!(name_of("plain"), Ok("plain".to_string()));
    assert_eq!(name_of("dir/.hidden"), Ok(".hidden".to_string()));
    assert_eq!(name_of("dir/case.rs/"), Ok("case".to_string()));
}

#[test]
fn suite_of_one_file_needs_both_files() {
    let outcome = TestSuite::from_file("a.rs", PathKind::File, "b.rs", PathKind::Missing);
    assert_eq!(
        outcome,
        Err(TestSuiteError::InvalidPath(
            "File 'a.rs' does not exist".to_string()
        ))
    );
    let outcome = TestSuite::from_file("a.rs", PathKind::Missing, "b.rs", PathKind::File);
    assert_eq!(
        outcome,
        Err(TestSuiteError::InvalidPath(
            "File 'a.rs' does not exist".to_string()
        ))
    );
}

#[test]
fn suite_of_one_file_needs_a_name() {
    let outcome = TestSuite::from_file("..", PathKind::Directory, "b.rs", PathKind::File);
    assert_eq!(
        outcome,
        Err(TestSuiteError::InvalidPath("Invalid file name".to_string()))
    );
    let outcome =
        TestSuite::from_named_file(None, "a.rs", PathKind::File, "b.rs", PathKind::File);
    assert_eq!(
        outcome,
        Err(TestSuiteError::InvalidPath("Invalid file name".to_string()))
    );
}

#[test]
fn report_counts_passes_and_failures() {
    let mut report = Report::new();
    assert_eq!(
        (report.total_tests, report.passed_tests, report.failed_tests),
        (0, 0, 0)
    );
    report.add_result("a".to_string(), Ok(()), Duration::from_millis(3));
    report.add_result(
        "b".to_string(),
        Err(AnalysisError::Execution(ExecutionError::Failed(
            "x".to_string(),
        ))),
        Duration::from_millis(4),
    );
    report.add_result("c".to_string(), Ok(()), Duration::from_millis(5));
    assert_eq!(
        (report.total_tests, report.passed_tests, report.failed_tests),
        (3, 2, 1)
    );
    assert_eq!(report.failures(), Some(1));
    assert_eq!(Report::new().failures(), None);
    assert_eq!(report.analysis_reports.len(), 3);
    assert_eq!(report.analysis_reports[1].test_name, "b");
    assert_eq!(report.analysis_reports[2].duration, Duration::from_millis(5));
    assert!(report.errors.is_empty());
}

#[test]
fn report_keeps_errors_apart_from_results() {
    let mut report = Report::new();
    report.add_error(ErrorReporter::Compilation {
        message: "no main".to_string(),
    });
    report.add_error(ErrorReporter::from(AnalysisError::Execution(
        ExecutionError::Failed("gone".to_string()),
    )));
    assert_eq!(report.total_tests, 0);
    assert_eq!(report.errors.len(), 2);
    assert_eq!(report.errors[0].message(), "no main");
    assert_eq!(
        report.errors[1].message(),
        "Analysis error: Execution failed: gone"
    );
}

fn listing(files: &[&str]) -> DirectoryListing {
    DirectoryListing {
        found: PathKind::Directory,
        files: Ok(files.iter().map(|f| f.to_string()).collect()),
    }
}

fn case(name: &str, rustc: &str, gccrs: &str) -> TestCase {
    TestCase::new(name.to_string(), rustc.to_string(), gccrs.to_string())
}

#[test]
fn suite_of_a_directory_pairs_files_by_stem() {
    let suite = TestSuite::from_dir(
        "suite",
        PathKind::Directory,
        listing(&["suite/rustc/enums.rs", "suite/rustc/loops.rs"]),
        listing(&["suite/gccrs/loops.rs", "suite/gccrs/enums.rs"]),
    )
    .unwrap();
    assert_eq!(suite.size, 2);
    let mut cases = suite.cases.clone();
    cases.sort_by(|a, b| a.name.cmp(&b.name));
    assert_eq!(
        cases,
        vec![
            case("enums", "suite/rustc/enums.rs", "suite/gccrs/enums.rs"),
            case("loops", "suite/rustc/loops.rs", "suite/gccrs/loops.rs"),
        ]
    );
}

#[test]
fn suite_of_an_empty_directory_is_empty() {
    let suite =
        TestSuite::from_dir("suite", PathKind::Directory, listing(&[]), listing(&[])).unwrap();
    assert_eq!(suite.size, 0);
    assert!(suite.cases.is_empty());
}

#[test]
fn suite_of_a_directory_needs_equally_many_names() {
    let outcome = TestSuite::from_dir(
        "suite",
        PathKind::Directory,
        listing(&["r/a.rs", "r/b.rs"]),
        listing(&["g/a.rs"]),
    );
    assert_eq!(outcome, Err(TestSuiteError::UnequalFileCount(2, 1)));
}

#[test]
fn suite_of_a_directory_needs_a_match_for_each_name() {
    let outcome = TestSuite::from_dir(
        "suite",
        PathKind::Directory,
        listing(&["r/a.rs"]),
        listing(&["g/c.rs"]),
    );
    assert_eq!(
        outcome,
        Err(TestSuiteError::InvalidPath(
            "No matching file for 'a' in gccrs directory".to_string()
        ))
    );
}

#[test]
fn later_file_of_a_name_replaces_the_earlier() {
    let suite = TestSuite::from_dir(
        "suite",
        PathKind::Directory,
        listing(&["r/a.rs", "r/b.rs", "r/a.txt"]),
        listing(&["g/b.rs", "g/a.rs"]),
    )
    .unwrap();
    let mut cases = suite.cases.clone();
    cases.sort_by(|a, b| a.name.cmp(&b.name));
    assert_eq!(
        cases,
        vec![case("a", "r/a.txt", "g/a.rs"), case("b", "r/b.rs", "g/b.rs")]
    );
}

#[test]
fn suite_of_a_directory_needs_the_directory() {
    let outcome = TestSuite::from_dir("gone", PathKind::Missing, listing(&[]), listing(&[]));
    assert_eq!(
        outcome,
        Err(TestSuiteError::InvalidPath(
            "Directory 'gone' does not exist".to_string()
        ))
    );
    let outcome = TestSuite::from_dir("a.rs", PathKind::File, listing(&[]), listing(&[]));
    assert_eq!(
        outcome,
        Err(TestSuiteError::InvalidPath(
            "Directory 'a.rs' does not exist".to_string()
        ))
    );
}

#[test]
fn suite_of_a_directory_needs_both_subdirectories() {
    let absent = DirectoryListing {
        found: PathKind::Missing,
        files: Err("not found".to_string()),
    };
    let outcome = TestSuite::from_dir("suite", PathKind::Directory, listing(&[]), absent);
    assert_eq!(
        outcome,
        Err(TestSuiteError::InvalidPath(
            "Required subdirectories 'rustc' and 'gccrs' not found in 'suite'".to_string()
        ))
    );
}

#[test]
fn unreadable_subdirectory_is_a_read_error() {
    let unreadable = DirectoryListing {
        found: PathKind::Directory,
        files: Err("permission denied".to_string()),
    };
    let outcome = TestSuite::from_dir("suite", PathKind::Directory, unreadable, listing(&[]));
    assert_eq!(
        outcome,
        Err(TestSuiteError::FileReadError(
            "permission denied".to_string()
        ))
    );
}

#[test]
fn files_without_a_name_are_left_out_of_the_pairing() {
    let named = |name: Option<&str>, path: &str| NamedFile {
        name: name.map(|n| n.to_string()),
        path: path.to_string(),
    };
    let rustc = vec![named(Some("a"), "r/a.rs"), named(None, "r/..")];
    let gccrs = vec![named(None, "g/.."), named(Some("a"), "g/a.rs")];
    let suite = TestSuite::pair_files(&rustc, &gccrs).unwrap();
    assert_eq!(suite.size, 1);
    assert_eq!(suite.cases, vec![case("a", "r/a.rs", "g/a.rs")]);
}
