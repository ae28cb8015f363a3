//! Test discovery and command construction for the structural ecosystem:
//! the source file is parsed into a syntax tree, every function item
//! reachable by the tree walk is inspected for the test-marker attribute,
//! and one filter clause per discovered test is appended to the runner
//! invocation.

use vstd::prelude::*;

use crate::errors::DiscoveryError;
use crate::text::{push_char, str_eq};

verus! {

/// A function declaration as the walk sees it: its name and the identifier
/// of each of its attributes (`None` for an attribute whose path is not a
/// single identifier).
#[derive(Debug)]
pub struct FnDecl {
    pub name: String,
    pub attrs: Vec<Option<String>>,
}

/// One item of the parsed source, reduced to what discovery reads: a
/// function with its attributes, an inline module with its items in source
/// order, or anything else.
#[derive(Debug)]
pub enum SourceItem {
    Function(FnDecl),
    Module(Vec<SourceItem>),
    Other,
}

/// The item list that the parser produces for a source text, or nothing when
/// the text is not syntactically valid.  The parse is a function of the text
/// alone; its exact shape is the parser's, so it is named rather than
/// restated.
pub uninterp spec fn parsed_source(code: Seq<char>) -> Option<Seq<SourceItem>>;

#[verifier::external_type_specification]
#[verifier::external_body]
pub struct ExSynItem(syn::Item);

/// Relies on `syn::parse_file`: the parsed item list depends on the source
/// text alone, and on a parse error the parser's own message is returned.
/// The tree is reduced by [`convert_items`].
#[verifier::external_body]
fn parse_source_items(code: &str) -> (r: Result<Vec<SourceItem>, String>)
    ensures
        match r {
            Ok(items) => parsed_source(code@) == Some(items@),
            Err(_) => parsed_source(code@) is None,
        },
{
    match syn::parse_file(code) {
        Ok(file) => Ok(convert_items(&file.items)),
        Err(e) => Err(e.to_string()),
    }
}

/// The reduction behind `parse_source_items`'s contract: each function item
/// keeps its name and its attributes' identifiers (`syn::ItemFn`'s `sig` and
/// `attrs`), each inline module keeps its items (`syn::ItemMod`'s
/// `content`), in source order; every other item is opaque.
#[verifier::external_body]
fn convert_items(items: &Vec<syn::Item>) -> Vec<SourceItem> {
    items.iter().map(|item| {
        match item {
            syn::Item::Fn(f) => SourceItem::Function(FnDecl {
                name: f.sig.ident.to_string(),
                attrs: f.attrs.iter().map(|a| {
                    a.path().get_ident().map(|i| i.to_string())
                }).collect(),
            }),
            syn::Item::Mod(m) => match &m.content {
                Some((_, inner)) => SourceItem::Module(convert_items(inner)),
                None => SourceItem::Module(Vec::new()),
            },
            _ => SourceItem::Other,
        }
    }).collect()
}

/// The marker attribute that makes a function a test.
pub open spec fn test_marker() -> Seq<char> {
    "test"@
}

/// Whether the declaration carries an attribute whose identifier is exactly
/// the marker.
pub open spec fn has_marker(d: FnDecl, marker: Seq<char>) -> bool {
    exists|i: int|
        0 <= i < d.attrs@.len() && ((#[trigger] d.attrs@[i]) matches Some(a) && a@ == marker)
}

/// The test names contributed by one item: a marked function's own name, a
/// module's tests in source order, nothing otherwise.
pub open spec fn tests_in_item(item: SourceItem, marker: Seq<char>) -> Seq<Seq<char>>
    decreases item,
{
    match item {
        SourceItem::Function(d) => if has_marker(d, marker) {
            seq![d.name@]
        } else {
            Seq::empty()
        },
        SourceItem::Module(items) => tests_in_items(items@, marker),
        SourceItem::Other => Seq::empty(),
    }
}

/// The test names contributed by a list of items, in walk order.
pub open spec fn tests_in_items(items: Seq<SourceItem>, marker: Seq<char>) -> Seq<Seq<char>>
    decreases items,
{
    if items.len() == 0 {
        Seq::empty()
    } else {
        tests_in_items(items.drop_last(), marker) + tests_in_item(items.last(), marker)
    }
}

fn is_marked(d: &FnDecl) -> (r: bool)
    ensures
        r == has_marker(*d, test_marker()),
{
    let mut i: usize = 0;
    while i < d.attrs.len()
        invariant
            0 <= i <= d.attrs@.len(),
            forall|j: int|
                0 <= j < i ==> !((#[trigger] d.attrs@[j]) matches Some(a) && a@
                    == test_marker()),
        decreases d.attrs@.len() - i,
    {
        match &d.attrs[i] {
            Some(a) => {
                if str_eq(a.as_str(), "test") {
                    proof {
                        assert(d.attrs@[i as int] matches Some(x) && x@ == test_marker());
                    }
                    return true;
                }
            },
            None => {},
        }
        i += 1;
    }
    false
}

fn collect_tests_in_item(item: &SourceItem, out: &mut Vec<String>)
    ensures
        final(out).deep_view() == old(out).deep_view() + tests_in_item(*item, test_marker()),
    decreases *item,
{
    match item {
        SourceItem::Function(d) => {
            if is_marked(d) {
                let ghost prev = out.deep_view();
                out.push(d.name.clone());
                proof {
                    assert(out.deep_view() =~= prev + seq![d.name@]);
                }
            } else {
                proof {
                    assert(out.deep_view() =~= out.deep_view() + Seq::<Seq<char>>::empty());
                }
            }
        },
        SourceItem::Module(items) => {
            collect_tests_in_items(items, out);
        },
        SourceItem::Other => {
            proof {
                assert(out.deep_view() =~= out.deep_view() + Seq::<Seq<char>>::empty());
            }
        },
    }
}

fn collect_tests_in_items(items: &Vec<SourceItem>, out: &mut Vec<String>)
    ensures
        final(out).deep_view() == old(out).deep_view() + tests_in_items(items@, test_marker()),
    decreases items@,
{
    let mut i: usize = 0;
    while i < items.len()
        invariant
            0 <= i <= items@.len(),
            out.deep_view() == old(out).deep_view() + tests_in_items(
                items@.take(i as int),
                test_marker(),
            ),
        decreases items@.len() - i,
    {
        let ghost prev = out.deep_view();
        collect_tests_in_item(&items[i], out);
        proof {
            assert(items@.take(i + 1).drop_last() =~= items@.take(i as int));
            assert(items@.take(i + 1).last() == items@[i as int]);
            assert(out.deep_view() =~= old(out).deep_view() + tests_in_items(
                items@.take(i + 1),
                test_marker(),
            ));
        }
        i += 1;
    }
    proof {
        assert(items@.take(items@.len() as int) =~= items@);
    }
}

/// Every function declaration one item shows to the walk, in walk order.
pub open spec fn fns_in_item(item: SourceItem) -> Seq<FnDecl>
    decreases item,
{
    match item {
        SourceItem::Function(d) => seq![d],
        SourceItem::Module(items) => fns_in_items(items@),
        SourceItem::Other => Seq::empty(),
    }
}

/// Every function declaration the walk visits in a list of items, in walk
/// order.
pub open spec fn fns_in_items(items: Seq<SourceItem>) -> Seq<FnDecl>
    decreases items,
{
    if items.len() == 0 {
        Seq::empty()
    } else {
        fns_in_items(items.drop_last()) + fns_in_item(items.last())
    }
}

/// The names of the marked declarations, in order; a declaration without
/// the marker contributes nothing.
pub open spec fn marked_names(decls: Seq<FnDecl>, marker: Seq<char>) -> Seq<Seq<char>>
    decreases decls.len(),
{
    if decls.len() == 0 {
        Seq::empty()
    } else {
        marked_names(decls.drop_last(), marker) + (if has_marker(decls.last(), marker) {
            seq![decls.last().name@]
        } else {
            Seq::empty()
        })
    }
}

proof fn lemma_marked_names_add(a: Seq<FnDecl>, b: Seq<FnDecl>, marker: Seq<char>)
    ensures
        marked_names(a + b, marker) == marked_names(a, marker) + marked_names(b, marker),
    decreases b.len(),
{
    if b.len() == 0 {
        assert(a + b =~= a);
        assert(marked_names(a, marker) + marked_names(b, marker) =~= marked_names(a, marker));
    } else {
        lemma_marked_names_add(a, b.drop_last(), marker);
        assert((a + b).drop_last() =~= a + b.drop_last());
        assert((a + b).last() == b.last());
        assert(marked_names(a + b, marker) =~= marked_names(a, marker) + marked_names(b, marker));
    }
}

/// Law: for a source text with any mix of marked and unmarked functions,
/// extraction yields exactly the names of the marked ones, one each, in
/// walk (source) order, and never the name of an unmarked one — the test
/// names are precisely the marked entries of the visited declaration list.
pub proof fn lemma_extraction_exact(items: Seq<SourceItem>, marker: Seq<char>)
    ensures
        tests_in_items(items, marker) == marked_names(fns_in_items(items), marker),
    decreases items,
{
    if items.len() == 0 {
    } else {
        lemma_extraction_exact(items.drop_last(), marker);
        lemma_extraction_exact_item(items.last(), marker);
        lemma_marked_names_add(
            fns_in_items(items.drop_last()),
            fns_in_item(items.last()),
            marker,
        );
    }
}

proof fn lemma_extraction_exact_item(item: SourceItem, marker: Seq<char>)
    ensures
        tests_in_item(item, marker) == marked_names(fns_in_item(item), marker),
    decreases item,
{
    match item {
        SourceItem::Function(d) => {
            assert(seq![d].drop_last() =~= Seq::<FnDecl>::empty());
            assert(seq![d].last() == d);
            assert(marked_names(Seq::<FnDecl>::empty(), marker) == Seq::<Seq<char>>::empty());
            if has_marker(d, marker) {
                assert(marked_names(seq![d], marker) =~= seq![d.name@]);
            } else {
                assert(marked_names(seq![d], marker) =~= Seq::<Seq<char>>::empty());
            }
        },
        SourceItem::Module(items) => {
            lemma_extraction_exact(items@, marker);
        },
        SourceItem::Other => {},
    }
}

/// The whole structural discovery as a function of the source text: the
/// test names in walk order, or nothing when the text does not parse.
pub open spec fn structural_discovery(code: Seq<char>) -> Option<Seq<Seq<char>>> {
    match parsed_source(code) {
        Some(items) => Some(tests_in_items(items, test_marker())),
        None => None,
    }
}

/// Law: structural discovery is deterministic and order-stable — any two
/// runs on unchanged source text are bound to the same result, because the
/// result is a function of the text alone.
pub proof fn lemma_structural_discovery_deterministic(
    code: Seq<char>,
    r1: Option<Seq<Seq<char>>>,
    r2: Option<Seq<Seq<char>>>,
)
    requires
        r1 == structural_discovery(code),
        r2 == structural_discovery(code),
    ensures
        r1 == r2,
{
}

/// Extracts the names of the marked test functions from the source text, in
/// walk order.  A text without marked functions yields `Ok` with an empty
/// list — judging emptiness is the caller's business — while a text that
/// does not parse is an error carrying the parser's message.
pub fn extract_test_functions(code: &str) -> (r: Result<Vec<String>, DiscoveryError>)
    ensures
        match parsed_source(code@) {
            Some(items) => r matches Ok(v) && v.deep_view() == tests_in_items(
                items,
                test_marker(),
            ),
            None => r matches Err(e) && e is Parse,
        },
{
    match parse_source_items(code) {
        Err(msg) => Err(DiscoveryError::Parse(msg)),
        Ok(items) => {
            let mut out: Vec<String> = Vec::new();
            collect_tests_in_items(&items, &mut out);
            Ok(out)
        },
    }
}

/// The arguments of the nextest run command.
#[derive(Debug)]
pub struct RunCargoNextestArgs {
    /// The project directory.
    pub project_dir: String,
    /// The full path of the file that contains the tests.
    pub full_path_of_test_file: String,
    /// When the tests should run in another directory than the project
    /// directory, that other directory.
    pub test_dir: Option<String>,
}

/// The fixed head of the multiplexer argument vector that launches the
/// runner in a new pane.
pub open spec fn nextest_base_args(session: Seq<char>, test_dir: Seq<char>) -> Seq<Seq<char>> {
    seq![
        "--session"@,
        session,
        "run"@,
        "--cwd"@,
        test_dir,
        "--direction"@,
        "down"@,
        "--"@,
        "cargo"@,
        "nextest"@,
        "run"@,
    ]
}

/// One filter clause per discovered test: `-E test(name)`, appended as
/// repeated flag arguments, never merged into one string.
pub open spec fn nextest_filter_args(names: Seq<Seq<char>>) -> Seq<Seq<char>>
    decreases names.len(),
{
    if names.len() == 0 {
        Seq::empty()
    } else {
        nextest_filter_args(names.drop_last()) + seq!["-E"@, "test("@ + names.last() + ")"@]
    }
}

/// Computes the full multiplexer argument vector that runs the tests found
/// in `code` inside a new pane.  A source text whose extraction comes back
/// empty is a discovery failure; the caller supplies the session name and
/// the source text and performs the spawn itself.
pub fn run_cargo_nextest(args: &RunCargoNextestArgs, session: &str, code: &str) -> (r: Result<
    Vec<String>,
    DiscoveryError,
>)
    ensures
        ({
            let td = match args.test_dir {
                Some(d) => d@,
                None => args.project_dir@,
            };
            match parsed_source(code@) {
                None => r matches Err(e) && e is Parse,
                Some(items) => {
                    let names = tests_in_items(items, test_marker());
                    if names.len() == 0 {
                        r matches Err(DiscoveryError::NoTestsFound)
                    } else {
                        r matches Ok(v) && v.deep_view() == nextest_base_args(session@, td)
                            + nextest_filter_args(names)
                    }
                },
            }
        }),
{
    let test_dir = match &args.test_dir {
        Some(d) => d.as_str(),
        None => args.project_dir.as_str(),
    };
    let names = match extract_test_functions(code) {
        Ok(names) => names,
        Err(e) => {
            return Err(e);
        },
    };
    if names.len() == 0 {
        return Err(DiscoveryError::NoTestsFound);
    }
    let mut argv: Vec<String> = Vec::new();
    argv.push(String::from_str("--session"));
    argv.push(String::from_str(session));
    argv.push(String::from_str("run"));
    argv.push(String::from_str("--cwd"));
    argv.push(String::from_str(test_dir));
    argv.push(String::from_str("--direction"));
    argv.push(String::from_str("down"));
    argv.push(String::from_str("--"));
    argv.push(String::from_str("cargo"));
    argv.push(String::from_str("nextest"));
    argv.push(String::from_str("run"));
    let ghost base = argv.deep_view();
    proof {
        assert(base =~= nextest_base_args(session@, test_dir@));
    }
    let ghost names_view = names.deep_view();
    let mut i: usize = 0;
    while i < names.len()
        invariant
            0 <= i <= names@.len(),
            names_view == names.deep_view(),
            argv.deep_view() =~= base + nextest_filter_args(names_view.take(i as int)),
        decreases names@.len() - i,
    {
        let ghost prev = argv.deep_view();
        argv.push(String::from_str("-E"));
        let mut clause = String::from_str("test(");
        clause.append(names[i].as_str());
        push_char(&mut clause, ')');
        proof {
            reveal_strlit(")");
            assert(clause@ =~= "test("@ + names_view[i as int] + ")"@);
        }
        argv.push(clause);
        proof {
            assert(names_view.take(i + 1).drop_last() =~= names_view.take(i as int));
            assert(names_view.take(i + 1).last() == names_view[i as int]);
            assert(argv.deep_view() =~= prev + seq![
                "-E"@,
                "test("@ + names_view[i as int] + ")"@,
            ]);
            assert(argv.deep_view() =~= base + nextest_filter_args(names_view.take(i + 1)));
        }
        i += 1;
    }
    proof {
        assert(names_view.take(names_view.len() as int) =~= names_view);
    }
    Ok(argv)
}

} // verus!
