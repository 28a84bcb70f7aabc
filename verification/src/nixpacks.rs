//! The command lines given to Nixpacks, the environment of a build, and the
//! reading of Nixpacks' answers.

use vstd::prelude::*;
use vstd::string::*;
use crate::json::{json_str_at, spec_json_str_at};
use crate::text::{
    concatenate, decimal, decimal_string, find_char, first_index, is_ascii_digit, lemma_first_index,
    starts_with, substring, trim, trim_string, views,
};

verus! {

/// What a Nixpacks build is given.
pub struct BuildConfig {
    pub source: String,
    pub image_name: String,
    pub env: Vec<String>,
    pub pkgs: Vec<String>,
    pub build_cmd: Option<String>,
    pub start_cmd: Option<String>,
}

/// The view of an optional string.
pub open spec fn opt_view(o: Option<String>) -> Option<Seq<char>> {
    match o {
        Some(s) => Some(s@),
        None => None,
    }
}

/// Whether some entry of `env` begins with `prefix`.
pub open spec fn has_entry_with_prefix(env: Seq<Seq<char>>, prefix: Seq<char>) -> bool {
    exists|i: int| 0 <= i < env.len() && prefix.is_prefix_of(#[trigger] env[i])
}

/// Whether some entry of `env` begins with `prefix`.
pub fn any_starts_with(env: &Vec<String>, prefix: &str) -> (b: bool)
    ensures
        b == has_entry_with_prefix(views(env@), prefix@),
{
    let n = env.len();
    let mut i: usize = 0;
    while i < n
        invariant
            i <= n,
            n == env@.len(),
            forall|j: int| 0 <= j < i ==> !prefix@.is_prefix_of(#[trigger] views(env@)[j]),
        decreases n - i,
    {
        if starts_with(env[i].as_str(), prefix) {
            assert(prefix@.is_prefix_of(views(env@)[i as int]));
            return true;
        }
        i += 1;
    }
    false
}

/// The environment entry that names the port.
pub open spec fn port_entry(port: u16) -> Seq<char> {
    "PORT="@ + decimal(port as nat)
}

/// `env`, with `PORT=<port>` added at the end unless some entry already sets `PORT`.
pub open spec fn with_port_env(env: Seq<Seq<char>>, port: u16) -> Seq<Seq<char>> {
    if has_entry_with_prefix(env, "PORT="@) {
        env
    } else {
        env.push(port_entry(port))
    }
}

/// Adds `PORT=<port>` to `env` unless an entry already begins with `PORT=`.
pub fn ensure_port_env(env: Vec<String>, port: u16) -> (r: Vec<String>)
    ensures
        views(r@) == with_port_env(views(env@), port),
{
    let mut env = env;
    if !any_starts_with(&env, "PORT=") {
        let entry = concatenate("PORT=", decimal_string(port as u64).as_str());
        let ghost before = env@;
        env.push(entry);
        assert(views(env@) =~= views(before).push(port_entry(port)));
    }
    env
}

/// The prefix of the entry that pins the Node.js version of a build.
pub open spec fn node_version_key() -> Seq<char> {
    "NIXPACKS_NODE_VERSION="@
}

/// Whether a build with environment `env` would take a detected Node.js version:
/// only when no entry pins one already.
pub fn needs_node_version(env: &Vec<String>) -> (b: bool)
    ensures
        b == !has_entry_with_prefix(views(env@), node_version_key()),
{
    !any_starts_with(env, "NIXPACKS_NODE_VERSION=")
}

/// The environment of a build: the user's entries, then the detected Node.js
/// version when one was detected and the user pinned none.
pub open spec fn build_env(env: Seq<Seq<char>>, detected: Option<Seq<char>>) -> Seq<Seq<char>> {
    match detected {
        Some(v) => if has_entry_with_prefix(env, node_version_key()) {
            env
        } else {
            env.push(node_version_key() + v)
        },
        None => env,
    }
}

/// The environment of a build, as `build_env` says.
pub fn build_env_vars(env: &Vec<String>, detected: &Option<String>) -> (r: Vec<String>)
    ensures
        views(r@) == build_env(views(env@), opt_view(*detected)),
{
    let mut r = env.clone();
    assert(views(r@) =~= views(env@));
    match detected {
        Some(v) => {
            if needs_node_version(env) {
                let entry = concatenate("NIXPACKS_NODE_VERSION=", v.as_str());
                let ghost before = r@;
                r.push(entry);
                assert(views(r@) =~= views(before).push(node_version_key() + v@));
            }
        },
        None => {},
    }
    r
}

/// The flag that precedes each environment entry of a build.
pub open spec fn env_flag() -> Seq<char> {
    "--env"@
}

/// Each entry of `env` as the two arguments `--env <entry>`.
pub open spec fn env_args(env: Seq<Seq<char>>) -> Seq<Seq<char>>
    decreases env.len(),
{
    if env.len() == 0 {
        Seq::empty()
    } else {
        env_args(env.drop_last()) + seq![env_flag(), env.last()]
    }
}

/// `flag <value>` when a value is given, nothing otherwise.
pub open spec fn optional_flag(flag: Seq<char>, value: Option<Seq<char>>) -> Seq<Seq<char>> {
    match value {
        Some(v) => seq![flag, v],
        None => Seq::empty(),
    }
}

/// `--pkgs` followed by the packages, when there are any.
pub open spec fn pkgs_args(pkgs: Seq<Seq<char>>) -> Seq<Seq<char>> {
    if pkgs.len() == 0 {
        Seq::empty()
    } else {
        seq!["--pkgs"@] + pkgs
    }
}

/// The arguments of `nixpacks build` for a configuration whose environment is `env`.
pub open spec fn spec_build_args(
    source: Seq<char>,
    image_name: Seq<char>,
    env: Seq<Seq<char>>,
    pkgs: Seq<Seq<char>>,
    build_cmd: Option<Seq<char>>,
    start_cmd: Option<Seq<char>>,
) -> Seq<Seq<char>> {
    seq!["build"@, source, "--name"@, image_name] + env_args(env) + pkgs_args(pkgs)
        + optional_flag("--build-cmd"@, build_cmd) + optional_flag("--start-cmd"@, start_cmd)
}

/// The arguments of `nixpacks build` for `cfg`, where `detected` is the Node.js
/// version found in the source, if any.
pub open spec fn build_command(cfg: BuildConfig, detected: Option<Seq<char>>) -> Seq<Seq<char>> {
    spec_build_args(
        cfg.source@,
        cfg.image_name@,
        build_env(views(cfg.env@), detected),
        views(cfg.pkgs@),
        opt_view(cfg.build_cmd),
        opt_view(cfg.start_cmd),
    )
}

fn push_clone(args: &mut Vec<String>, s: &String)
    ensures
        views(final(args)@) == views(old(args)@).push(s@),
{
    let ghost before = args@;
    args.push(s.clone());
    assert(views(args@) =~= views(before).push(s@));
}

fn push_str(args: &mut Vec<String>, s: &str)
    ensures
        views(final(args)@) == views(old(args)@).push(s@),
{
    let ghost before = args@;
    args.push(s.to_string());
    assert(views(args@) =~= views(before).push(s@));
}

/// The arguments of `nixpacks build` for `cfg`: source and image name, each
/// environment entry after `--env`, the packages after `--pkgs`, and the build and
/// start commands after their flags. `detected` is the Node.js version found in
/// the source; it is added as `NIXPACKS_NODE_VERSION` unless `cfg.env` pins one.
pub fn build_args(cfg: &BuildConfig, detected: &Option<String>) -> (args: Vec<String>)
    ensures
        views(args@) == build_command(*cfg, opt_view(*detected)),
{
    let mut args: Vec<String> = Vec::new();
    push_str(&mut args, "build");
    push_clone(&mut args, &cfg.source);
    push_str(&mut args, "--name");
    push_clone(&mut args, &cfg.image_name);
    let ghost head = views(args@);
    assert(head =~= seq!["build"@, cfg.source@, "--name"@, cfg.image_name@]);

    let env = build_env_vars(&cfg.env, detected);
    let n = env.len();
    let mut i: usize = 0;
    while i < n
        invariant
            i <= n,
            n == env@.len(),
            views(args@) == head + env_args(views(env@).subrange(0, i as int)),
        decreases n - i,
    {
        push_str(&mut args, "--env");
        push_clone(&mut args, &env[i]);
        assert(views(env@).subrange(0, i + 1).drop_last() =~= views(env@).subrange(0, i as int));
        assert(views(args@) =~= head + env_args(views(env@).subrange(0, i + 1)));
        i += 1;
    }
    assert(views(env@).subrange(0, n as int) =~= views(env@));
    let ghost with_env = views(args@);

    if cfg.pkgs.len() > 0 {
        push_str(&mut args, "--pkgs");
        let m = cfg.pkgs.len();
        let mut k: usize = 0;
        while k < m
            invariant
                k <= m,
                m == cfg.pkgs@.len(),
                views(args@) == with_env + seq!["--pkgs"@] + views(cfg.pkgs@).subrange(0, k as int),
            decreases m - k,
        {
            push_clone(&mut args, &cfg.pkgs[k]);
            assert(views(cfg.pkgs@).subrange(0, k + 1) =~= views(cfg.pkgs@).subrange(0, k as int).push(cfg.pkgs@[k as int]@));
            k += 1;
        }
        assert(views(cfg.pkgs@).subrange(0, m as int) =~= views(cfg.pkgs@));
    }
    assert(views(args@) =~= with_env + pkgs_args(views(cfg.pkgs@)));
    let ghost with_pkgs = views(args@);

    match &cfg.build_cmd {
        Some(cmd) => {
            push_str(&mut args, "--build-cmd");
            push_clone(&mut args, cmd);
        },
        None => {},
    }
    assert(views(args@) =~= with_pkgs + optional_flag("--build-cmd"@, opt_view(cfg.build_cmd)));
    let ghost with_build = views(args@);

    match &cfg.start_cmd {
        Some(cmd) => {
            push_str(&mut args, "--start-cmd");
            push_clone(&mut args, cmd);
        },
        None => {},
    }
    assert(views(args@) =~= with_build + optional_flag("--start-cmd"@, opt_view(cfg.start_cmd)));
    args
}


/// Why a Nixpacks step failed.
pub enum NixpacksError {
    /// `nixpacks --version` exited unsuccessfully with this status.
    VersionFailed { status: String },
    /// The source directory does not exist.
    SourceMissing { source: String },
    /// `nixpacks plan` failed and wrote this to its error stream.
    PlanFailed { stderr: String },
    /// `nixpacks build` exited unsuccessfully with this status.
    BuildFailed { status: String },
}

/// The text of a Nixpacks error.
pub open spec fn error_message(e: NixpacksError) -> Seq<char> {
    match e {
        NixpacksError::VersionFailed { status } => "`nixpacks --version` exited with "@ + status@,
        NixpacksError::SourceMissing { source } => "source path does not exist: "@ + source@,
        NixpacksError::PlanFailed { stderr } => "nixpacks plan failed:\n"@ + stderr@,
        NixpacksError::BuildFailed { status } => "nixpacks build failed with "@ + status@,
    }
}

impl NixpacksError {
    /// The text of the error, as the command line reports it.
    pub fn message(&self) -> (m: String)
        ensures
            m@ == error_message(*self),
    {
        match self {
            NixpacksError::VersionFailed { status } => concatenate("`nixpacks --version` exited with ", status.as_str()),
            NixpacksError::SourceMissing { source } => concatenate("source path does not exist: ", source.as_str()),
            NixpacksError::PlanFailed { stderr } => concatenate("nixpacks plan failed:\n", stderr.as_str()),
            NixpacksError::BuildFailed { status } => concatenate("nixpacks build failed with ", status.as_str()),
        }
    }
}

/// The arguments that ask Nixpacks for its version.
pub fn version_args() -> (args: Vec<String>)
    ensures
        views(args@) == seq!["--version"@],
{
    let mut args: Vec<String> = Vec::new();
    push_str(&mut args, "--version");
    assert(views(args@) =~= seq!["--version"@]);
    args
}

/// The arguments of `nixpacks plan` for `source`.
pub fn plan_args(source: &String) -> (args: Vec<String>)
    ensures
        views(args@) == seq!["plan"@, source@],
{
    let mut args: Vec<String> = Vec::new();
    push_str(&mut args, "plan");
    push_clone(&mut args, source);
    assert(views(args@) =~= seq!["plan"@, source@]);
    args
}

/// A plan or a build of `source` can go ahead only when the source exists.
pub fn check_source(source: &String, exists: bool) -> (r: Result<(), NixpacksError>)
    ensures
        exists ==> r is Ok,
        !exists ==> (r matches Err(NixpacksError::SourceMissing { source: s }) && s@ == source@),
{
    if exists {
        Ok(())
    } else {
        Err(NixpacksError::SourceMissing { source: source.clone() })
    }
}

/// Reads the answer of `nixpacks --version`: the version text without surrounding
/// white space when it succeeded, else the exit status.
pub fn version_outcome(success: bool, status: String, stdout: &str) -> (r: Result<String, NixpacksError>)
    ensures
        success ==> (r matches Ok(v) && v@ == trim(stdout@)),
        !success ==> (r matches Err(NixpacksError::VersionFailed { status: s }) && s@ == status@),
{
    if success {
        Ok(trim_string(stdout))
    } else {
        Err(NixpacksError::VersionFailed { status })
    }
}

/// Reads the answer of `nixpacks plan`: the plan it printed when it succeeded,
/// else what it wrote to its error stream.
pub fn plan_outcome(success: bool, stdout: String, stderr: String) -> (r: Result<String, NixpacksError>)
    ensures
        success ==> (r matches Ok(p) && p@ == stdout@),
        !success ==> (r matches Err(NixpacksError::PlanFailed { stderr: e }) && e@ == stderr@),
{
    if success {
        Ok(stdout)
    } else {
        Err(NixpacksError::PlanFailed { stderr })
    }
}

/// Reads the answer of `nixpacks build`: the name of the built image when it
/// succeeded, else the exit status.
pub fn build_outcome(success: bool, status: String, cfg: &BuildConfig) -> (r: Result<String, NixpacksError>)
    ensures
        success ==> (r matches Ok(image) && image@ == cfg.image_name@),
        !success ==> (r matches Err(NixpacksError::BuildFailed { status: s }) && s@ == status@),
{
    if success {
        Ok(cfg.image_name.clone())
    } else {
        Err(NixpacksError::BuildFailed { status })
    }
}

/// Position of the first ASCII digit of `s`, or its length when it has none.
pub open spec fn first_digit(s: Seq<char>) -> nat
    decreases s.len(),
{
    if s.len() == 0 {
        0
    } else if is_ascii_digit(s[0]) {
        0
    } else {
        1 + first_digit(s.drop_first())
    }
}

/// Length of the run of ASCII digits that begins `s`.
pub open spec fn digit_run(s: Seq<char>) -> nat
    decreases s.len(),
{
    if s.len() > 0 && is_ascii_digit(s[0]) {
        1 + digit_run(s.drop_first())
    } else {
        0
    }
}

pub proof fn lemma_first_digit(s: Seq<char>)
    ensures
        first_digit(s) <= s.len(),
        forall|j: int| 0 <= j < first_digit(s) ==> !is_ascii_digit(s[j]),
        first_digit(s) < s.len() ==> is_ascii_digit(s[first_digit(s) as int]),
    decreases s.len(),
{
    if s.len() > 0 && !is_ascii_digit(s[0]) {
        lemma_first_digit(s.drop_first());
        assert forall|j: int| 0 <= j < first_digit(s) implies !is_ascii_digit(s[j]) by {
            if j > 0 {
                assert(s[j] == s.drop_first()[j - 1]);
            }
        }
    }
}

pub proof fn lemma_digit_run(s: Seq<char>)
    ensures
        digit_run(s) <= s.len(),
        forall|j: int| 0 <= j < digit_run(s) ==> is_ascii_digit(s[j]),
        digit_run(s) < s.len() ==> !is_ascii_digit(s[digit_run(s) as int]),
    decreases s.len(),
{
    if s.len() > 0 && is_ascii_digit(s[0]) {
        lemma_digit_run(s.drop_first());
        assert forall|j: int| 0 <= j < digit_run(s) implies is_ascii_digit(s[j]) by {
            if j > 0 {
                assert(s[j] == s.drop_first()[j - 1]);
            }
        }
    }
}

/// The first run of ASCII digits in `s` (empty when it holds no digit).
pub open spec fn first_digit_run(s: Seq<char>) -> Seq<char> {
    let rest = s.subrange(first_digit(s) as int, s.len() as int);
    rest.subrange(0, digit_run(rest) as int)
}

/// The part of a version requirement before its first `.`.
pub open spec fn before_first_dot(s: Seq<char>) -> Seq<char> {
    s.subrange(0, first_index(s, '.') as int)
}

/// The major version of a version requirement such as `>=18.0.0` or `18 || 20`:
/// the first run of ASCII digits before its first `.` (empty when there is none,
/// as for `.5` or `lts`).
pub open spec fn major_version(s: Seq<char>) -> Seq<char> {
    first_digit_run(before_first_dot(s))
}

/// The Node.js version used for a Node.js project that states none, or states one
/// that cannot be read.
pub open spec fn fallback_node_version() -> Seq<char> {
    "22"@
}

/// The manifest field that states the Node.js versions a project supports:
/// `engines.node`.
pub open spec fn engines_key() -> Seq<char> {
    "engines"@
}

pub open spec fn node_key() -> Seq<char> {
    "node"@
}

/// The Node.js version to pin for a Node.js project, given the string that its
/// manifest holds under `engines.node`, if any: the major version of that string
/// when it has one, `22` otherwise (no such string, a manifest that is not JSON, or
/// a requirement without digits).
pub open spec fn node_version_for(field: Option<Seq<char>>) -> Seq<char> {
    match field {
        Some(e) => if major_version(e).len() > 0 {
            major_version(e)
        } else {
            fallback_node_version()
        },
        None => fallback_node_version(),
    }
}

fn ascii_digit(c: char) -> (b: bool)
    ensures
        b == is_ascii_digit(c),
{
    '0' <= c && c <= '9'
}

/// The major version of a version requirement.
pub fn major_version_string(s: &str) -> (r: String)
    ensures
        r@ == major_version(s@),
{
    proof {
        lemma_first_index(s@, '.');
    }
    let end = find_char(s, '.');
    let head = substring(s, 0, end);
    first_digit_run_string(head.as_str())
}

/// The first run of ASCII digits in `s`.
pub fn first_digit_run_string(s: &str) -> (r: String)
    ensures
        r@ == first_digit_run(s@),
{
    let ghost rest = s@.subrange(first_digit(s@) as int, s@.len() as int);
    proof {
        lemma_first_digit(s@);
        lemma_digit_run(rest);
    }
    let n = s.unicode_len();
    let mut i: usize = 0;
    while i < n && !ascii_digit(s.get_char(i))
        invariant
            i <= n,
            n == s@.len(),
            i <= first_digit(s@),
            first_digit(s@) <= s@.len(),
            forall|j: int| 0 <= j < first_digit(s@) ==> !is_ascii_digit(s@[j]),
            first_digit(s@) < s@.len() ==> is_ascii_digit(s@[first_digit(s@) as int]),
        decreases n - i,
    {
        i += 1;
    }
    assert(i == first_digit(s@));
    let mut j: usize = i;
    while j < n && ascii_digit(s.get_char(j))
        invariant
            i <= j <= n,
            n == s@.len(),
            i == first_digit(s@),
            rest == s@.subrange(i as int, n as int),
            j - i <= digit_run(rest),
            digit_run(rest) <= rest.len(),
            forall|k: int| 0 <= k < digit_run(rest) ==> is_ascii_digit(rest[k]),
            digit_run(rest) < rest.len() ==> !is_ascii_digit(rest[digit_run(rest) as int]),
        decreases n - j,
    {
        j += 1;
    }
    assert(j - i == digit_run(rest)) by {
        if j < n {
            assert(s@[j as int] == rest[j - i]);
        }
    }
    assert(rest.subrange(0, digit_run(rest) as int) =~= s@.subrange(i as int, j as int));
    substring(s, i, j)
}

/// The Node.js version to pin, from the string found under `engines.node`.
pub fn node_version_from_field(field: Option<String>) -> (r: String)
    ensures
        r@ == node_version_for(opt_view(field)),
{
    match field {
        Some(engines) => {
            let major = major_version_string(engines.as_str());
            if major.unicode_len() > 0 {
                major
            } else {
                "22".to_string()
            }
        },
        None => "22".to_string(),
    }
}

/// The Node.js version to pin for a project whose `package.json` reads `content`:
/// the string under `engines.node` is looked up, then read as `node_version_for` says.
pub fn node_version_from_package_json(content: &str) -> (r: String)
    ensures
        r@ == node_version_for(spec_json_str_at(content@, engines_key(), node_key())),
{
    node_version_from_field(json_str_at(content, "engines", "node"))
}

} // verus!
