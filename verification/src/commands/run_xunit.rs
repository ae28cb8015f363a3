//! Test discovery and filter construction for the attribute-tag ecosystem:
//! method names are recovered by pattern matching over raw source text,
//! qualified by the dotted namespace derived from the file's location under
//! the test root, and joined into one quoted, pipe-delimited filter that the
//! runner understands as a boolean OR over fully-qualified test names.

use vstd::prelude::*;

use crate::errors::DiscoveryError;
use crate::paths::{namespace_path, spec_namespace};
use crate::text::{join_strings, join_with, push_char};

verus! {

/// The arguments of the xunit run command.
#[derive(Debug)]
pub struct RunXunitArgs {
    /// The project directory.
    pub project_dir: String,
    /// The full path of the file that contains the tests.
    pub full_path_of_test_file: String,
    /// When test namespaces are relative to another directory than the
    /// project directory, that other directory.
    pub test_dir: Option<String>,
}

/// The method names that the fixed test-marker pattern captures in `text`,
/// in order of appearance.  The pattern looks for a `[Fact]` or `[Theory]`
/// marker, then — lazily, across lines — a `public` method signature
/// returning `void` or a possibly-`async` `Task`, and captures the method
/// name before its opening parenthesis.  The pattern's exact language is the
/// matching engine's, so the captures are named rather than restated:
/// pattern matching is a deliberate simplification that can mis-extract on
/// unusual formatting, and this model preserves it as it is.
pub uninterp spec fn xunit_pattern_names(text: Seq<char>) -> Seq<Seq<char>>;

/// Relies on `regex::Regex::captures_iter` with the fixed test-marker
/// pattern: successive non-overlapping matches are found left to right, so
/// the captured names depend on the scanned text alone and come back in
/// order of appearance.
#[verifier::external_body]
fn scan_test_method_names(input: &str) -> (r: Vec<String>)
    ensures
        r.deep_view() == xunit_pattern_names(input@),
{
    let pattern = r"\[(?:Fact|Theory)\][\s\S]*?public\s+(?:void|(?:async\s+)?Task)\s+(\w+)\(";
    let re = regex::Regex::new(pattern).unwrap();
    re.captures_iter(input).filter_map(|cap| cap.get(1)).map(|m| m.as_str().to_string()).collect()
}

/// The whole pattern discovery as a function of the scanned text: the
/// captured method names in order of appearance, or nothing when the
/// pattern matches nowhere.
pub open spec fn pattern_discovery(text: Seq<char>) -> Option<Seq<Seq<char>>> {
    if xunit_pattern_names(text).len() == 0 {
        None
    } else {
        Some(xunit_pattern_names(text))
    }
}

/// Law: pattern discovery is deterministic and order-stable — any two runs
/// on unchanged text are bound to the same result, because the captures are
/// a function of the text alone.
pub proof fn lemma_pattern_discovery_deterministic(
    text: Seq<char>,
    r1: Option<Seq<Seq<char>>>,
    r2: Option<Seq<Seq<char>>>,
)
    requires
        r1 == pattern_discovery(text),
        r2 == pattern_discovery(text),
    ensures
        r1 == r2,
{
}

/// Extracts the test method names from the source text.  Zero matches is a
/// discovery failure of this extractor itself, never an empty result.
pub fn get_method_names(input: &str) -> (r: Result<Vec<String>, DiscoveryError>)
    ensures
        if xunit_pattern_names(input@).len() == 0 {
            r matches Err(DiscoveryError::NoTestsFound)
        } else {
            r matches Ok(v) && v.deep_view() == xunit_pattern_names(input@)
        },
{
    let names = scan_test_method_names(input);
    if names.len() == 0 {
        Err(DiscoveryError::NoTestsFound)
    } else {
        Ok(names)
    }
}

/// Computes the dotted namespace of the test file under the test root, in
/// the form the runner expects in front of each method name.
pub fn get_namespace(full_path_of_test_file: &str, test_dir: &str) -> (r: Result<
    String,
    DiscoveryError,
>)
    ensures
        match spec_namespace(full_path_of_test_file@, test_dir@) {
            Ok(ns) => r matches Ok(s) && s@ == ns,
            Err(e) => r matches Err(DiscoveryError::PathResolution(a)) && a == e,
        },
{
    match namespace_path(full_path_of_test_file, test_dir) {
        Ok(ns) => Ok(ns),
        Err(e) => Err(DiscoveryError::PathResolution(e)),
    }
}

/// Each name qualified by the namespace: `namespace.name`.
pub open spec fn qualified_names(ns: Seq<char>, names: Seq<Seq<char>>) -> Seq<Seq<char>> {
    names.map_values(|n: Seq<char>| ns + seq!['.'] + n)
}

/// Qualifies every extracted method name with the namespace.  Pure and
/// order-preserving.
pub fn get_qualified_method_names(namespace: &str, method_names: &Vec<String>) -> (r: Vec<String>)
    ensures
        r.deep_view() == qualified_names(namespace@, method_names.deep_view()),
{
    let mut out: Vec<String> = Vec::new();
    let mut i: usize = 0;
    while i < method_names.len()
        invariant
            0 <= i <= method_names@.len(),
            out.deep_view() =~= qualified_names(namespace@, method_names.deep_view().take(i as int)),
        decreases method_names@.len() - i,
    {
        let ghost prev = out.deep_view();
        let mut q = String::from_str(namespace);
        push_char(&mut q, '.');
        q.append(method_names[i].as_str());
        proof {
            assert(q@ =~= namespace@ + seq!['.'] + method_names.deep_view()[i as int]);
        }
        out.push(q);
        proof {
            assert(out.deep_view() =~= prev.push(
                namespace@ + seq!['.'] + method_names.deep_view()[i as int],
            ));
            assert(out.deep_view() =~= qualified_names(
                namespace@,
                method_names.deep_view().take(i + 1),
            ));
        }
        i += 1;
    }
    proof {
        assert(method_names.deep_view().take(method_names.deep_view().len() as int)
            =~= method_names.deep_view());
    }
    out
}

/// The filter token handed to the runner: the qualified names joined by `|`
/// and wrapped in double quotes.
pub open spec fn xunit_filter(ns: Seq<char>, names: Seq<Seq<char>>) -> Seq<char> {
    seq!['"'] + join_with(qualified_names(ns, names), '|') + seq!['"']
}

/// Builds the quoted filter expression for the tests found in `input`, with
/// names qualified by the namespace of the test file under the test root.
/// A namespace failure is reported even when the input holds no tests; a
/// filter is never built from zero identifiers.
pub fn get_filter(full_path_of_test_file: &str, test_dir: &str, input: &str) -> (r: Result<
    String,
    DiscoveryError,
>)
    ensures
        match spec_namespace(full_path_of_test_file@, test_dir@) {
            Err(e) => r matches Err(DiscoveryError::PathResolution(a)) && a == e,
            Ok(ns) => if xunit_pattern_names(input@).len() == 0 {
                r matches Err(DiscoveryError::NoTestsFound)
            } else {
                r matches Ok(s) && s@ == xunit_filter(ns, xunit_pattern_names(input@))
            },
        },
{
    let namespace = match get_namespace(full_path_of_test_file, test_dir) {
        Ok(ns) => ns,
        Err(e) => {
            return Err(e);
        },
    };
    let method_names = match get_method_names(input) {
        Ok(names) => names,
        Err(e) => {
            return Err(e);
        },
    };
    let qualified = get_qualified_method_names(namespace.as_str(), &method_names);
    let joined = join_strings(&qualified, '|');
    let mut filter = String::new();
    push_char(&mut filter, '"');
    filter.append(joined.as_str());
    push_char(&mut filter, '"');
    proof {
        assert(filter@ =~= seq!['"'] + joined@ + seq!['"']);
    }
    Ok(filter)
}

/// The argument vector of the multiplexer invocation that launches the
/// runner in a new pane: session, working directory, split direction, then
/// the runner command with its filter.
pub open spec fn xunit_zellij_args(
    session: Seq<char>,
    test_dir: Seq<char>,
    dotnet_path: Seq<char>,
    filter: Seq<char>,
) -> Seq<Seq<char>> {
    seq![
        "--session"@,
        session,
        "run"@,
        "--cwd"@,
        test_dir,
        "--direction"@,
        "down"@,
        "--"@,
        dotnet_path,
        "test"@,
        "--filter"@,
        filter,
    ]
}

/// The directory test namespaces are relative to: the explicitly given test
/// directory, or the project directory.
pub open spec fn spec_test_dir(test_dir: Option<Seq<char>>, project_dir: Seq<char>) -> Seq<char> {
    match test_dir {
        Some(d) => d,
        None => project_dir,
    }
}

/// Computes the full multiplexer argument vector that runs the tests found
/// in `input` inside a new pane: discovery, qualification and filter
/// construction, then command assembly.  The caller supplies the session
/// name, the resolved runner path and the source text, and performs the
/// spawn itself.
pub fn run_xunit(args: &RunXunitArgs, session: &str, dotnet_path: &str, input: &str) -> (r: Result<
    Vec<String>,
    DiscoveryError,
>)
    ensures
        ({
            let td = spec_test_dir(
                match args.test_dir {
                    Some(d) => Some(d@),
                    None => None,
                },
                args.project_dir@,
            );
            match spec_namespace(args.full_path_of_test_file@, td) {
                Err(e) => r matches Err(DiscoveryError::PathResolution(a)) && a == e,
                Ok(ns) => if xunit_pattern_names(input@).len() == 0 {
                    r matches Err(DiscoveryError::NoTestsFound)
                } else {
                    r matches Ok(v) && v.deep_view() == xunit_zellij_args(
                        session@,
                        td,
                        dotnet_path@,
                        xunit_filter(ns, xunit_pattern_names(input@)),
                    )
                },
            }
        }),
{
    let test_dir = match &args.test_dir {
        Some(d) => d.as_str(),
        None => args.project_dir.as_str(),
    };
    let filter = match get_filter(args.full_path_of_test_file.as_str(), test_dir, input) {
        Ok(f) => f,
        Err(e) => {
            return Err(e);
        },
    };
    let mut argv: Vec<String> = Vec::new();
    argv.push(String::from_str("--session"));
    argv.push(String::from_str(session));
    argv.push(String::from_str("run"));
    argv.push(String::from_str("--cwd"));
    argv.push(String::from_str(test_dir));
    argv.push(String::from_str("--direction"));
    argv.push(String::from_str("down"));
    argv.push(String::from_str("--"));
    argv.push(String::from_str(dotnet_path));
    argv.push(String::from_str("test"));
    argv.push(String::from_str("--filter"));
    let ghost filter_view = filter@;
    argv.push(filter);
    proof {
        assert(argv.deep_view() =~= xunit_zellij_args(
            session@,
            test_dir@,
            dotnet_path@,
            filter_view,
        ));
    }
    Ok(argv)
}

} // verus!
