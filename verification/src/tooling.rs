//! Decisions of the project's build tool: which task the command line asks
//! for, which example a web build targets, the commands and file names of a
//! web build, and the page that hosts it.
use vstd::prelude::*;
use crate::asset_path::{join_path, join_paths};
use crate::text::{append_str, chars_of, copy_string, owned, str_eq, string_from_chars};

verus! {

/// A task of the build tool.
#[derive(Debug, Clone, PartialEq, Eq)]
pub enum ToolTask {
    /// Run the test suite.
    Check,
    /// Build an example for the web, with the arguments that follow the task.
    WebBuild(Vec<String>),
    /// Build an example for the web and serve it, with the arguments that
    /// follow the task.
    WebServe(Vec<String>),
    /// No task was named.
    Missing,
    /// A task nobody knows.
    Unknown(String),
}

/// The texts of a list of strings.
pub open spec fn arg_texts(args: Seq<String>) -> Seq<Seq<char>> {
    args.map_values(|a: String| a@)
}

/// The strings of `args` from `start` on.
fn args_from(args: &Vec<String>, start: usize) -> (r: Vec<String>)
    requires
        start <= args@.len(),
    ensures
        arg_texts(r@) == arg_texts(args@.skip(start as int)),
{
    let mut r: Vec<String> = Vec::new();
    let mut i: usize = start;
    while i < args.len()
        invariant
            start <= i <= args@.len(),
            arg_texts(r@) == arg_texts(args@.subrange(start as int, i as int)),
        decreases args@.len() - i,
    {
        let ghost before = r@;
        r.push(copy_string(&args[i]));
        assert(arg_texts(r@) =~= arg_texts(before).push(args@[i as int]@));
        assert(args@.subrange(start as int, i + 1) =~= args@.subrange(start as int, i as int).push(
            args@[i as int],
        ));
        assert(arg_texts(r@) =~= arg_texts(args@.subrange(start as int, i + 1)));
        i = i + 1;
    }
    assert(args@.subrange(start as int, args@.len() as int) =~= args@.skip(start as int));
    r
}

/// The task a command line names by its first argument: `check`,
/// `web-build` or `web-serve`.
pub fn parse_task(args: &Vec<String>) -> (t: ToolTask)
    ensures
        args@.len() == 0 ==> t == ToolTask::Missing,
        args@.len() > 0 ==> match t {
            ToolTask::Check => args@[0]@ == "check"@,
            ToolTask::WebBuild(rest) => args@[0]@ == "web-build"@ && arg_texts(rest@) == arg_texts(
                args@.skip(1),
            ),
            ToolTask::WebServe(rest) => args@[0]@ == "web-serve"@ && arg_texts(rest@) == arg_texts(
                args@.skip(1),
            ),
            ToolTask::Unknown(name) => name@ == args@[0]@ && args@[0]@ != "check"@ && args@[0]@
                != "web-build"@ && args@[0]@ != "web-serve"@,
            ToolTask::Missing => false,
        },
{
    if args.len() == 0 {
        return ToolTask::Missing;
    }
    let task = args[0].as_str();
    if str_eq(task, "check") {
        ToolTask::Check
    } else if str_eq(task, "web-build") {
        ToolTask::WebBuild(args_from(args, 1))
    } else if str_eq(task, "web-serve") {
        ToolTask::WebServe(args_from(args, 1))
    } else {
        ToolTask::Unknown(copy_string(&args[0]))
    }
}

/// The example a web build names: the argument after the first
/// `--example` that has one.
pub open spec fn example_named(args: Seq<Seq<char>>) -> Option<Seq<char>>
    decreases args.len(),
{
    if args.len() < 2 {
        None
    } else if args[0] == "--example"@ {
        Some(args[1])
    } else {
        example_named(args.drop_first())
    }
}

/// The example named on the command line (see `example_named`).
pub fn parse_example(args: &Vec<String>) -> (r: Option<String>)
    ensures
        match (r, example_named(arg_texts(args@))) {
            (Some(e), Some(n)) => e@ == n,
            (None, None) => true,
            _ => false,
        },
{
    let mut i: usize = 0;
    proof {
        assert(arg_texts(args@).skip(0) =~= arg_texts(args@));
    }
    while i < args.len() && i + 1 < args.len()
        invariant
            i <= args@.len(),
            example_named(arg_texts(args@)) == example_named(arg_texts(args@).skip(i as int)),
        decreases args@.len() - i,
    {
        let ghost rest = arg_texts(args@).skip(i as int);
        assert(rest[0] == args@[i as int]@);
        assert(rest[1] == args@[i + 1]@);
        if str_eq(args[i].as_str(), "--example") {
            return Some(copy_string(&args[i + 1]));
        }
        assert(rest.drop_first() =~= arg_texts(args@).skip(i + 1));
        i = i + 1;
    }
    None
}

/// Whether the command line asks for a release build.
pub fn has_release_flag(args: &Vec<String>) -> (r: bool)
    ensures
        r == arg_texts(args@).contains("--release"@),
{
    let mut i: usize = 0;
    while i < args.len()
        invariant
            i <= args@.len(),
            forall|j: int| 0 <= j < i ==> args@[j]@ != "--release"@,
        decreases args@.len() - i,
    {
        if str_eq(args[i].as_str(), "--release") {
            assert(arg_texts(args@)[i as int] == "--release"@);
            return true;
        }
        i = i + 1;
    }
    assert forall|j: int| 0 <= j < arg_texts(args@).len() implies arg_texts(args@)[j]
        != "--release"@ by {
        assert(arg_texts(args@)[j] == args@[j]@);
    }
    false
}

/// A package name as a crate file name: `-` becomes `_`.
pub open spec fn crate_file_text(package: Seq<char>) -> Seq<char> {
    package.map_values(|c: char| if c == '-' { '_' } else { c })
}

/// The crate file name of a package (see `crate_file_text`).
pub fn crate_file_name(package: &str) -> (r: String)
    ensures
        r@ == crate_file_text(package@),
{
    let v = chars_of(package);
    let mut out: Vec<char> = Vec::new();
    let mut i: usize = 0;
    while i < v.len()
        invariant
            v@ == package@,
            i <= v@.len(),
            out@ == crate_file_text(v@.take(i as int)),
        decreases v@.len() - i,
    {
        let c = v[i];
        out.push(if c == '-' { '_' } else { c });
        assert(out@ =~= crate_file_text(v@.take(i + 1)));
        i = i + 1;
    }
    assert(v@.take(v@.len() as int) =~= v@);
    string_from_chars(&out)
}

/// The arguments of the `cargo` call that builds a package for the web.
pub fn wasm_build_args(package: &str, release: bool) -> (r: Vec<String>)
    ensures
        arg_texts(r@) == if release {
            seq![
                "build"@,
                "--target"@,
                "wasm32-unknown-unknown"@,
                "-p"@,
                package@,
                "--release"@,
            ]
        } else {
            seq!["build"@, "--target"@, "wasm32-unknown-unknown"@, "-p"@, package@]
        },
{
    let mut r: Vec<String> = Vec::new();
    r.push(owned("build"));
    r.push(owned("--target"));
    r.push(owned("wasm32-unknown-unknown"));
    r.push(owned("-p"));
    r.push(owned(package));
    if release {
        r.push(owned("--release"));
    }
    proof {
        if release {
            assert(arg_texts(r@) =~= seq![
                "build"@,
                "--target"@,
                "wasm32-unknown-unknown"@,
                "-p"@,
                package@,
                "--release"@,
            ]);
        } else {
            assert(arg_texts(r@) =~= seq![
                "build"@,
                "--target"@,
                "wasm32-unknown-unknown"@,
                "-p"@,
                package@,
            ]);
        }
    }
    r
}

/// The directory a web build of `example` is written to.
pub fn web_output_dir(example: &str) -> (r: String)
    ensures
        r@ == join_path(join_path("target"@, "web"@), example@),
{
    let base = join_paths("target", "web");
    join_paths(base.as_str(), example)
}

/// The compiled module of a web build of `package`.
pub fn wasm_module_path(package: &str, release: bool) -> (r: String)
    ensures
        r@ == join_path(
            join_path(
                join_path("target"@, "wasm32-unknown-unknown"@),
                if release {
                    "release"@
                } else {
                    "debug"@
                },
            ),
            crate_file_text(package@) + ".wasm"@,
        ),
{
    let base = join_paths("target", "wasm32-unknown-unknown");
    let dir = join_paths(base.as_str(), if release { "release" } else { "debug" });
    let mut file = crate_file_name(package);
    append_str(&mut file, ".wasm");
    join_paths(dir.as_str(), file.as_str())
}

/// The page before and after the module name in a web build's index.
pub open spec fn index_head() -> Seq<char> {
    "<!doctype html>\n<html lang=\"en\">\n  <head>\n    <meta charset=\"utf-8\" />\n    <meta name=\"viewport\" content=\"width=device-width, initial-scale=1\" />\n    <title>Seishin2D Web</title>\n    <style>\n      html, body { margin: 0; min-height: 100%; background: #111; }\n      canvas { display: block; margin: auto; outline: none; }\n    </style>\n  </head>\n  <body>\n    <script type=\"module\">\n      import init from './"@
}

/// The end of a web build's index page.
pub open spec fn index_tail() -> Seq<char> {
    ".js';\n      init();\n    </script>\n  </body>\n</html>\n"@
}

/// The page that loads the module `out_name` of a web build.
pub fn web_index_html(out_name: &str) -> (r: String)
    ensures
        r@ == index_head() + out_name@ + index_tail(),
{
    let mut page = owned(
        "<!doctype html>\n<html lang=\"en\">\n  <head>\n    <meta charset=\"utf-8\" />\n    <meta name=\"viewport\" content=\"width=device-width, initial-scale=1\" />\n    <title>Seishin2D Web</title>\n    <style>\n      html, body { margin: 0; min-height: 100%; background: #111; }\n      canvas { display: block; margin: auto; outline: none; }\n    </style>\n  </head>\n  <body>\n    <script type=\"module\">\n      import init from './",
    );
    append_str(&mut page, out_name);
    append_str(&mut page, ".js';\n      init();\n    </script>\n  </body>\n</html>\n");
    page
}

/// What `toml` makes of `source` when asked for the string under `key` in
/// the table `table`: that string (or `None` when the value there is
/// missing or not a string), or the parser's error message.
pub uninterp spec fn toml_table_string(source: Seq<char>, table: Seq<char>, key: Seq<char>) -> Result<
    Option<Seq<char>>,
    Seq<char>,
>;

/// Parses `source` with `toml` (`str::parse::<toml::Value>`), then reads
/// `table` and `key` with `toml::Value::get` and the value there with
/// `toml::Value::as_str`. The contract only names the result: what parses,
/// what the lookups find and the parser's message are the `toml` crate's own
/// behaviour.
#[verifier::external_body]
fn toml_string_at(source: &str, table: &str, key: &str) -> (r: Result<Option<String>, String>)
    ensures
        match (r, toml_table_string(source@, table@, key@)) {
            (Ok(Some(n)), Ok(Some(m))) => n@ == m,
            (Ok(None), Ok(None)) => true,
            (Err(e), Err(f)) => e@ == f,
            _ => false,
        },
{
    match source.parse::<toml::Value>() {
        Ok(document) => match document.get(table) {
            Some(found) => match found.get(key) {
                Some(value) => Ok(value.as_str().map(ToOwned::to_owned)),
                None => Ok(None),
            },
            None => Ok(None),
        },
        Err(error) => Err(error.to_string()),
    }
}

/// The text of the error for a manifest without a package name.
pub open spec fn missing_package_message() -> Seq<char> {
    "package name not found in example Cargo.toml"@
}

/// The package name, given what parsing the manifest gave: a parse failure
/// is reported with the parser's message, a missing name as such.
pub fn package_name_from(parsed: Result<Option<String>, String>) -> (r: Result<String, String>)
    ensures
        match parsed {
            Ok(Some(n)) => r == Ok::<String, String>(n),
            Ok(None) => r matches Err(m) && m@ == missing_package_message(),
            Err(e) => r matches Err(m) && m@ == "invalid example Cargo.toml: "@ + e@,
        },
{
    match parsed {
        Ok(Some(name)) => Ok(name),
        Ok(None) => Err(owned("package name not found in example Cargo.toml")),
        Err(error) => {
            let mut m = owned("invalid example Cargo.toml: ");
            append_str(&mut m, error.as_str());
            Err(m)
        },
    }
}

/// The package name declared by an example's `Cargo.toml` source.
pub fn example_package_name(source: &str) -> (r: Result<String, String>)
    ensures
        match toml_table_string(source@, "package"@, "name"@) {
            Ok(Some(n)) => r matches Ok(s) && s@ == n,
            Ok(None) => r matches Err(m) && m@ == missing_package_message(),
            Err(e) => r matches Err(m) && m@ == "invalid example Cargo.toml: "@ + e,
        },
{
    package_name_from(toml_string_at(source, "package", "name"))
}

} // verus!
