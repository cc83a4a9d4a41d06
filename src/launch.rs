//! Which worker executable to run, and with what command line and environment.

use crate::document::lookup;
use crate::secrets::{read_secrets, secrets_in, text_view};
use crate::text::{decimal, decimal_string, join_path, joined};
use vstd::prelude::*;
use vstd::string::StringExecFns;

verus! {

/// Where a packaged worker lies, relative to the directory of the running executable.
pub const BUNDLED_RELATIVE: &'static str = "../Resources/narrativ-backend";

/// The interpreter that runs the development worker.
pub const INTERPRETER: &'static str = "python3";

/// The environment variable that carries the port.
pub const PORT_VAR: &'static str = "NARRATIV_PORT";

/// The places probed for a packaged worker, in order, after the one beside the running
/// executable: paths relative to the current directory used during development.
pub open spec fn development_paths() -> Seq<Seq<char>> {
    seq![
        "resources/narrativ-backend"@,
        "src-tauri/resources/narrativ-backend"@,
        "../resources/narrativ-backend"@,
    ]
}

/// The places probed for a packaged worker, in order.
pub open spec fn candidate_paths(exe_dir: Option<Seq<char>>) -> Seq<Seq<char>> {
    match exe_dir {
        Some(d) => seq![joined(d, BUNDLED_RELATIVE@)] + development_paths(),
        None => development_paths(),
    }
}

/// The credential names given to the worker, with the environment variable of each.
pub open spec fn secret_vars() -> Seq<(Seq<char>, Seq<char>)> {
    seq![
        ("google_api_key"@, "GOOGLE_API_KEY"@),
        ("tavily_api_key"@, "TAVILY_API_KEY"@),
        ("fal_api_key"@, "FAL_API_KEY"@),
    ]
}

/// The value stored under `name`, or the empty string where there is none.
pub open spec fn secret_or_empty(m: Map<Seq<char>, Seq<char>>, name: Seq<char>) -> Seq<char> {
    match lookup(m, name) {
        Some(v) => v,
        None => Seq::empty(),
    }
}

/// The environment that the worker is given: the port, then one variable per credential.
pub open spec fn worker_env(port: u16, m: Map<Seq<char>, Seq<char>>) -> Seq<(Seq<char>, Seq<char>)> {
    seq![(PORT_VAR@, decimal(port as nat))] + secret_vars().map_values(
        |p: (Seq<char>, Seq<char>)| (p.1, secret_or_empty(m, p.0)),
    )
}

/// The view of a list of pairs of strings.
pub open spec fn pairs_view(s: Seq<(String, String)>) -> Seq<(Seq<char>, Seq<char>)> {
    s.map_values(|p: (String, String)| (p.0@, p.1@))
}

/// The view of a list of strings.
pub open spec fn strings_view(s: Seq<String>) -> Seq<Seq<char>> {
    s.map_values(|t: String| t@)
}

/// How to run the worker.
pub struct LaunchPlan {
    pub program: String,
    pub args: Vec<String>,
    pub env: Vec<(String, String)>,
}

/// The places to probe for a packaged worker, in order: beside the running executable
/// where its directory is known, then the development paths.
pub fn backend_candidates(exe_dir: Option<&str>) -> (r: Vec<String>)
    ensures
        strings_view(r@) == candidate_paths(text_view(exe_dir)),
{
    let mut r: Vec<String> = Vec::new();
    match exe_dir {
        Some(d) => {
            r.push(join_path(d, BUNDLED_RELATIVE));
        },
        None => {},
    }
    r.push("resources/narrativ-backend".to_owned());
    r.push("src-tauri/resources/narrativ-backend".to_owned());
    r.push("../resources/narrativ-backend".to_owned());
    assert(strings_view(r@) =~= candidate_paths(text_view(exe_dir)));
    r
}

/// The first candidate that is present, where there is one.
pub fn select_backend(candidates: &Vec<String>, present: &Vec<bool>) -> (r: Option<String>)
    requires
        candidates@.len() == present@.len(),
    ensures
        match r {
            Some(p) => exists|i: int|
                0 <= i < present@.len() && present@[i] && p@ == candidates@[i]@
                && forall|j: int| 0 <= j < i ==> !#[trigger] present@[j],
            None => forall|j: int| 0 <= j < present@.len() ==> !#[trigger] present@[j],
        },
{
    let mut i: usize = 0;
    while i < present.len()
        invariant
            i <= present@.len(),
            candidates@.len() == present@.len(),
            forall|j: int| 0 <= j < i ==> !#[trigger] present@[j],
        decreases present@.len() - i,
    {
        if present[i] {
            return Some(candidates[i].clone());
        }
        i = i + 1;
    }
    None
}

/// The command line and environment for the worker: the packaged executable where one
/// was found, else the interpreter on `main.py` under `fallback_dir`; the port and the
/// three credentials read from the stored envelope, absent ones as empty strings.
pub fn plan_launch(
    bundled: Option<&str>,
    fallback_dir: &str,
    port: u16,
    key: &[u8; 32],
    stored: Option<&str>,
) -> (r: LaunchPlan)
    ensures
        match bundled {
            Some(b) => r.program@ == b@ && r.args@.len() == 0,
            None => r.program@ == INTERPRETER@ && strings_view(r.args@) == seq![fallback_dir@ + "/main.py"@],
        },
        pairs_view(r.env@) == worker_env(port, secrets_in(key@, text_view(stored))),
{
    let doc = read_secrets(key, stored);
    let ghost m = secrets_in(key@, text_view(stored));
    let google = match doc.get("google_api_key") {
        Some(v) => v,
        None => String::new(),
    };
    let tavily = match doc.get("tavily_api_key") {
        Some(v) => v,
        None => String::new(),
    };
    let fal = match doc.get("fal_api_key") {
        Some(v) => v,
        None => String::new(),
    };
    let mut env: Vec<(String, String)> = Vec::new();
    env.push((PORT_VAR.to_owned(), decimal_string(port)));
    env.push(("GOOGLE_API_KEY".to_owned(), google));
    env.push(("TAVILY_API_KEY".to_owned(), tavily));
    env.push(("FAL_API_KEY".to_owned(), fal));
    assert(pairs_view(env@) =~= worker_env(port, m));
    let (program, args) = match bundled {
        Some(b) => (b.to_owned(), Vec::new()),
        None => {
            let mut main = fallback_dir.to_owned();
            main.append("/main.py");
            let mut args: Vec<String> = Vec::new();
            args.push(main);
            assert(strings_view(args@) =~= seq![fallback_dir@ + "/main.py"@]);
            (INTERPRETER.to_owned(), args)
        },
    };
    LaunchPlan { program, args, env }
}

}
