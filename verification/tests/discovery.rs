use zelix::commands::run_cargo_nextest::{
    extract_test_functions, run_cargo_nextest, RunCargoNextestArgs,
};
use zelix::commands::run_xunit::{
    get_filter, get_method_names, get_namespace, get_qualified_method_names, run_xunit,
    RunXunitArgs,
};
use zelix::errors::{DiscoveryError, PathError};

fn xunit_args(test_dir: Option<&str>) -> RunXunitArgs {
    RunXunitArgs {
        project_dir: "proj".to_string(),
        full_path_of_test_file: "tests/Calc/MathTests.cs".to_string(),
        test_dir: test_dir.map(|s| s.to_string()),
    }
}

const MATH_TESTS: &str = r#"
using Xunit;

namespace Calc
{
    public class MathTests
    {
        [Fact]
        public void AddsNumbers()
        {
            Assert.Equal(4, 2 + 2);
        }

        [Fact]
        public void SubtractsNumbers()
        {
            Assert.Equal(0, 2 - 2);
        }
    }
}
"#;

#[test]
fn xunit_end_to_end_filter() {
    let filter = get_filter("tests/Calc/MathTests.cs", "tests", MATH_TESTS).unwrap();
    assert_eq!(
        filter,
        "\"Calc.MathTests.AddsNumbers|Calc.MathTests.SubtractsNumbers\""
    );
}

#[test]
fn xunit_extracts_theory_and_async_task_methods() {
    let source = "[Theory]\npublic async Task ChecksAll()\n{ }\n[Fact]\npublic Task Waits() {}\n";
    let names = get_method_names(source).unwrap();
    assert_eq!(names, vec!["ChecksAll".to_string(), "Waits".to_string()]);
}

#[test]
fn xunit_no_marker_is_no_tests_found() {
    let source = "public void NotATest() {}";
    let err = get_method_names(source).unwrap_err();
    assert!(matches!(err, DiscoveryError::NoTestsFound));
}

#[test]
fn xunit_filter_reports_no_tests_found() {
    let err = get_filter("tests/Calc/MathTests.cs", "tests", "nothing here").unwrap_err();
    assert!(matches!(err, DiscoveryError::NoTestsFound));
}

#[test]
fn xunit_namespace_failure_wins_over_empty_input() {
    let err = get_filter("/other/Foo.cs", "tests", "nothing here").unwrap_err();
    assert!(matches!(
        err,
        DiscoveryError::PathResolution(PathError::NotUnderRoot)
    ));
}

#[test]
fn xunit_namespace_of_test_file() {
    let ns = get_namespace("tests/Calc/MathTests.cs", "tests").unwrap();
    assert_eq!(ns, "Calc.MathTests");
    let err = get_namespace("other/Foo.cs", "tests").unwrap_err();
    assert!(matches!(
        err,
        DiscoveryError::PathResolution(PathError::NotUnderRoot)
    ));
}

#[test]
fn qualifier_joins_namespace_and_names() {
    let names = vec!["T1".to_string(), "T2".to_string()];
    let qualified = get_qualified_method_names("a.b.Foo", &names);
    assert_eq!(
        qualified,
        vec!["a.b.Foo.T1".to_string(), "a.b.Foo.T2".to_string()]
    );
}

#[test]
fn qualifier_feeds_the_quoted_pipe_filter() {
    let source = "[Fact]\npublic void T1() {}\n[Fact]\npublic void T2() {}\n";
    let filter = get_filter("r/a/b/Foo.cs", "r", source).unwrap();
    assert_eq!(filter, "\"a.b.Foo.T1|a.b.Foo.T2\"");
}

#[test]
fn xunit_command_line_is_assembled() {
    let argv = run_xunit(
        &xunit_args(Some("tests")),
        "mysession",
        "/usr/bin/dotnet",
        MATH_TESTS,
    )
    .unwrap();
    assert_eq!(
        argv,
        vec![
            "--session",
            "mysession",
            "run",
            "--cwd",
            "tests",
            "--direction",
            "down",
            "--",
            "/usr/bin/dotnet",
            "test",
            "--filter",
            "\"Calc.MathTests.AddsNumbers|Calc.MathTests.SubtractsNumbers\"",
        ]
        .into_iter()
        .map(String::from)
        .collect::<Vec<String>>()
    );
}

#[test]
fn xunit_discovery_is_deterministic() {
    let first = get_filter("tests/Calc/MathTests.cs", "tests", MATH_TESTS).unwrap();
    let second = get_filter("tests/Calc/MathTests.cs", "tests", MATH_TESTS).unwrap();
    assert_eq!(first, second);
}

#[test]
fn structural_extraction_in_source_order() {
    let code = "fn one() {} #[test] fn two() {} fn three() {} #[test] fn four() {}";
    let names = extract_test_functions(code).unwrap();
    assert_eq!(names, vec!["two".to_string(), "four".to_string()]);
}

#[test]
fn structural_extraction_reaches_inline_modules() {
    let code = "mod tests { #[test] fn inner() {} } #[test] fn outer() {}";
    let names = extract_test_functions(code).unwrap();
    assert_eq!(names, vec!["inner".to_string(), "outer".to_string()]);
}

#[test]
fn structural_extraction_ignores_other_attributes() {
    let code = "#[allow(dead_code)] fn a() {} #[test] fn b() {}";
    let names = extract_test_functions(code).unwrap();
    assert_eq!(names, vec!["b".to_string()]);
}

#[test]
fn structural_extraction_of_unmarked_source_is_empty() {
    // The structural extractor itself returns an empty list; judging
    // emptiness is its caller's business.
    let names = extract_test_functions("fn a() {} fn b() {}").unwrap();
    assert!(names.is_empty());
}

#[test]
fn structural_extraction_surfaces_parse_errors() {
    let err = extract_test_functions("fn un(closed {").unwrap_err();
    match err {
        DiscoveryError::Parse(msg) => assert!(!msg.is_empty()),
        other => panic!("expected a parse error, got {:?}", other),
    }
}

#[test]
fn structural_extraction_is_deterministic() {
    let code = "#[test] fn a() {} mod m { #[test] fn b() {} }";
    let first = extract_test_functions(code).unwrap();
    let second = extract_test_functions(code).unwrap();
    assert_eq!(first, second);
}

#[test]
fn nextest_command_line_is_assembled() {
    let args = RunCargoNextestArgs {
        project_dir: "proj".to_string(),
        full_path_of_test_file: "proj/src/lib.rs".to_string(),
        test_dir: None,
    };
    let code = "#[test] fn two() {} #[test] fn four() {}";
    let argv = run_cargo_nextest(&args, "mysession", code).unwrap();
    assert_eq!(
        argv,
        vec![
            "--session",
            "mysession",
            "run",
            "--cwd",
            "proj",
            "--direction",
            "down",
            "--",
            "cargo",
            "nextest",
            "run",
            "-E",
            "test(two)",
            "-E",
            "test(four)",
        ]
        .into_iter()
        .map(String::from)
        .collect::<Vec<String>>()
    );
}

#[test]
fn nextest_empty_extraction_is_no_tests_found() {
    let args = RunCargoNextestArgs {
        project_dir: "proj".to_string(),
        full_path_of_test_file: "proj/src/lib.rs".to_string(),
        test_dir: None,
    };
    let err = run_cargo_nextest(&args, "s", "fn a() {}").unwrap_err();
    assert!(matches!(err, DiscoveryError::NoTestsFound));
}
