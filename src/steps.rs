use vstd::prelude::*;

use crate::inputs::{default_repo_name, opt_view, Inputs, Visibility};
use crate::platform::{join_path, path_joined};
use crate::runner::VerifyStatus;
use crate::state::{RunContext, State};
use crate::text::{
    ascii_upper, chars_of, contains_text, ends_with, ends_with_text, find_dots, first_at,
    first_dots, first_index, last_at, last_index, line_split, lines_of, lower_of, occurs,
    parse_count, parsed_count, slice, split_at_char, split_pieces, starts_with, starts_with_text,
    string_of, to_ascii_uppercase, to_lowercase, trim, trimmed,
};

verus! {

/// The identity of a step of the workflow.
pub trait Step {
    /// The stable id under which the step's record is kept.
    fn id(&self) -> &'static str;

    /// A label for display.
    fn description(&self) -> &'static str;
}

/// Checks that the outside tools the workflow runs are installed.
pub struct PreflightStep {
    required: Vec<RequiredCommand>,
}

/// An outside tool: the program, the argument that makes it report its
/// version, and a label for messages.
pub struct RequiredCommand {
    pub name: &'static str,
    pub arg: &'static str,
    pub label: &'static str,
}

/// What running one outside tool with its version argument gave.
#[derive(Clone, Debug)]
pub enum ToolCheck {
    /// It ran and succeeded.
    Ran,
    /// It is not installed.
    NotFound,
    /// It could not be run, or failed, with this cause.
    Failed(String),
}

/// The parts joined, with `sep` between each two.
pub open spec fn joined(parts: Seq<Seq<char>>, sep: Seq<char>) -> Seq<char>
    decreases parts.len(),
{
    if parts.len() == 0 {
        Seq::empty()
    } else if parts.len() == 1 {
        parts[0]
    } else {
        joined(parts.drop_last(), sep) + sep + parts.last()
    }
}

/// Joining one more part appends the separator and the part, but to
/// nothing.
proof fn lemma_joined_push(parts: Seq<Seq<char>>, x: Seq<char>, sep: Seq<char>)
    ensures
        joined(parts.push(x), sep) == if parts.len() == 0 {
            x
        } else {
            joined(parts, sep) + sep + x
        },
{
    assert(parts.push(x).drop_last() =~= parts);
    if parts.len() == 0 {
        assert(parts.push(x)[0] == x);
    }
}

/// The labels of the tools that are not installed, in order.
pub open spec fn missing_labels(tools: Seq<RequiredCommand>, outs: Seq<ToolCheck>) -> Seq<Seq<char>>
    decreases tools.len(),
{
    if tools.len() == 0 || outs.len() != tools.len() {
        Seq::empty()
    } else {
        let rest = missing_labels(tools.drop_last(), outs.drop_last());
        if outs.last() is NotFound {
            rest.push(tools.last().label@)
        } else {
            rest
        }
    }
}

/// `label: cause` for each tool that failed to run, in order.
pub open spec fn failure_texts(tools: Seq<RequiredCommand>, outs: Seq<ToolCheck>) -> Seq<Seq<char>>
    decreases tools.len(),
{
    if tools.len() == 0 || outs.len() != tools.len() {
        Seq::empty()
    } else {
        let rest = failure_texts(tools.drop_last(), outs.drop_last());
        match outs.last() {
            ToolCheck::Failed(cause) => rest.push(tools.last().label@ + ": "@ + cause@),
            _ => rest,
        }
    }
}

/// Creates the local tap repository.
pub struct BrewTapNewStep;

/// Creates the remote repository and pushes the tap to it.
pub struct GhRepoCreateStep;

/// Adds a formula to the tap.
pub struct AddFormulaStep;

/// Commits and pushes the tap's changes.
pub struct CommitAndPushStep;

/// Checks that the tap is registered.
pub struct ValidateTapStep;

/// Reports what the run did.
pub struct FinalSummaryStep;

/// The message of the steps that need the tap's path before it is known.
pub open spec fn tap_path_missing() -> Seq<char> {
    "tap path is not set; brew tap-new must run first"@
}

/// The tap's path as recorded in `state`, where it is set and not blank.
pub open spec fn known_tap_path(state: State) -> Option<Seq<char>> {
    match state.tap_path {
        Some(p) => if trimmed(p@).len() > 0 { Some(p@) } else { None },
        None => None,
    }
}

/// The tap's path recorded in `state`; fails where no step has recorded it.
pub fn recorded_tap_path(state: &State) -> (r: Result<String, String>)
    ensures
        match known_tap_path(*state) {
            Some(p) => r matches Ok(t) && t@ == p,
            None => r matches Err(m) && m@ == tap_path_missing(),
        },
{
    match &state.tap_path {
        Some(p) => {
            let t = trim(p.as_str());
            if !t.as_str().is_empty() {
                return Ok(p.clone());
            }
        },
        None => {},
    }
    Err(String::from_str("tap path is not set; brew tap-new must run first"))
}

impl RequiredCommand {
    /// The tool `name`, checked by running it with `arg`, named `label`.
    pub fn new(name: &'static str, arg: &'static str, label: &'static str) -> (r: RequiredCommand)
        ensures
            r.name == name,
            r.arg == arg,
            r.label == label,
    {
        RequiredCommand { name, arg, label }
    }
}

impl PreflightStep {
    /// The tools to check, in order.
    pub closed spec fn tools(&self) -> Seq<RequiredCommand> {
        self.required@
    }

    /// The check of `git`, `brew` and `gh`.
    pub fn new() -> (r: PreflightStep)
        ensures
            r.tools().len() == 3,
            r.tools()[0].name@ == "git"@,
            r.tools()[1].name@ == "brew"@,
            r.tools()[2].name@ == "gh"@,
    {
        let mut required: Vec<RequiredCommand> = Vec::new();
        required.push(RequiredCommand::new("git", "--version", "git"));
        required.push(RequiredCommand::new("brew", "--version", "homebrew"));
        required.push(RequiredCommand::new("gh", "--version", "GitHub CLI"));
        PreflightStep { required }
    }

    /// The tools to check.
    pub fn required(&self) -> (r: &Vec<RequiredCommand>)
        ensures
            r@ == self.tools(),
    {
        &self.required
    }

    /// The verdict on the tools from what running each of them gave, in
    /// order: fails naming every tool that is not installed, or else every
    /// tool that failed to run with its cause.
    pub fn check_required(&self, outcomes: &Vec<ToolCheck>) -> (r: Result<(), String>)
        requires
            outcomes@.len() == self.tools().len(),
        ensures
            ({
                let missing = missing_labels(self.tools(), outcomes@);
                let failures = failure_texts(self.tools(), outcomes@);
                &&& missing.len() > 0 ==> (r matches Err(m) && m@ == "Missing required tools: "@
                    + joined(missing, ", "@))
                &&& missing.len() == 0 && failures.len() > 0 ==> (r matches Err(m) && m@
                    == "Required tools failed to run: "@ + joined(failures, "; "@))
                &&& missing.len() == 0 && failures.len() == 0 ==> r is Ok
            }),
    {
        let n = self.required.len();
        let mut missing = String::new();
        let mut failures = String::new();
        let mut n_missing: usize = 0;
        let mut n_failures: usize = 0;
        let mut i: usize = 0;
        while i < n
            invariant
                n == self.tools().len(),
                n == outcomes@.len(),
                i <= n,
                n_missing <= i,
                n_failures <= i,
                n_missing == missing_labels(self.tools().take(i as int), outcomes@.take(i as int)).len(),
                missing@ == joined(missing_labels(self.tools().take(i as int), outcomes@.take(i as int)), ", "@),
                n_failures == failure_texts(self.tools().take(i as int), outcomes@.take(i as int)).len(),
                failures@ == joined(failure_texts(self.tools().take(i as int), outcomes@.take(i as int)), "; "@),
            decreases n - i,
        {
            let cmd = &self.required[i];
            let ghost rest_m = missing_labels(self.tools().take(i as int), outcomes@.take(i as int));
            let ghost rest_f = failure_texts(self.tools().take(i as int), outcomes@.take(i as int));
            proof {
                let t1 = self.tools().take(i + 1);
                let o1 = outcomes@.take(i + 1);
                assert(t1.drop_last() =~= self.tools().take(i as int));
                assert(o1.drop_last() =~= outcomes@.take(i as int));
                assert(t1.last() == self.tools()[i as int]);
                assert(o1.last() == outcomes@[i as int]);
                lemma_joined_push(rest_m, cmd.label@, ", "@);
                match outcomes@[i as int] {
                    ToolCheck::Failed(cause) => {
                        lemma_joined_push(rest_f, cmd.label@ + ": "@ + cause@, "; "@);
                    },
                    _ => {},
                }
            }
            match &outcomes[i] {
                ToolCheck::Ran => {},
                ToolCheck::NotFound => {
                    if n_missing > 0 {
                        missing.append(", ");
                    }
                    missing.append(cmd.label);
                    n_missing = n_missing + 1;
                },
                ToolCheck::Failed(cause) => {
                    if n_failures > 0 {
                        failures.append("; ");
                    }
                    failures.append(cmd.label);
                    failures.append(": ");
                    failures.append(cause.as_str());
                    n_failures = n_failures + 1;
                },
            }
            i = i + 1;
        }
        proof {
            assert(self.tools().take(n as int) =~= self.tools());
            assert(outcomes@.take(n as int) =~= outcomes@);
        }
        if n_missing > 0 {
            Err(String::from_str("Missing required tools: ").concat(missing.as_str()))
        } else if n_failures > 0 {
            Err(String::from_str("Required tools failed to run: ").concat(failures.as_str()))
        } else {
            Ok(())
        }
    }
}

impl BrewTapNewStep {
    pub fn new() -> (r: BrewTapNewStep) {
        BrewTapNewStep
    }

    /// Where the tap of `inputs` lives under the package manager's
    /// repository `repository` (as that tool prints it, untrimmed); fails
    /// where the tool printed nothing.
    pub fn tap_path_under(repository: &str, inputs: &Inputs) -> (r: Result<String, String>)
        ensures
            trimmed(repository@).len() == 0 <==> r is Err,
            r matches Err(m) ==> m@ == "brew --repository returned empty output"@,
            r matches Ok(p) ==> p@ == path_joined(path_joined(path_joined(path_joined(
                trimmed(repository@), "Library"@), "Taps"@), inputs.owner@), inputs.repo_name@),
    {
        let base = trim(repository);
        if base.as_str().is_empty() {
            return Err(String::from_str("brew --repository returned empty output"));
        }
        let lib = join_path(base.as_str(), "Library");
        let taps = join_path(lib.as_str(), "Taps");
        let owner = join_path(taps.as_str(), inputs.owner.as_str());
        Ok(join_path(owner.as_str(), inputs.repo_name.as_str()))
    }

    /// Record the tap's path in the run's state.
    pub fn record_tap_path(ctx: &mut RunContext, path: String)
        ensures
            final(ctx).state == (State { tap_path: Some(path), ..old(ctx).state }),
            final(ctx).run_id == old(ctx).run_id,
            final(ctx).dry_run == old(ctx).dry_run,
            final(ctx).state_store == old(ctx).state_store,
            final(ctx).inputs == old(ctx).inputs,
    {
        ctx.state.tap_path = Some(path);
    }
}

impl GhRepoCreateStep {
    pub fn new() -> (r: GhRepoCreateStep) {
        GhRepoCreateStep
    }

    /// The tap's path, which the local repository step records.
    pub fn tap_path(ctx: &RunContext) -> (r: Result<String, String>)
        ensures
            match known_tap_path(ctx.state) {
                Some(p) => r matches Ok(t) && t@ == p,
                None => r matches Err(m) && m@ == tap_path_missing(),
            },
    {
        recorded_tap_path(&ctx.state)
    }

    /// The flag that asks for a repository of visibility `v`.
    pub fn visibility_flag(v: Visibility) -> (r: &'static str)
        ensures
            v == Visibility::Public ==> r@ == "--public"@,
            v == Visibility::Private ==> r@ == "--private"@,
    {
        match v {
            Visibility::Public => "--public",
            Visibility::Private => "--private",
        }
    }

    /// Whether the remote `remote` is the repository with ssh address `ssh`
    /// and web address `web`: one of those, or the web address with `.git`.
    pub fn remote_matches(remote: &String, ssh: &String, web: &String) -> (r: bool)
        ensures
            r == (remote@ == ssh@ || remote@ == web@ || remote@ == web@ + ".git"@),
    {
        let https_git = web.clone().concat(".git");
        *remote == *ssh || *remote == *web || *remote == https_git
    }

    /// Whether the error output of a failed remote lookup of a remote
    /// reports that there is no such remote.
    pub fn remote_is_absent(stderr: &str) -> (r: bool)
        ensures
            r == (occurs("no such remote"@, lower_of(stderr@)) || occurs(
                "does not appear to be a git repository"@,
                lower_of(stderr@),
            )),
    {
        let text = to_lowercase(stderr);
        contains_text(text.as_str(), "no such remote") || contains_text(
            text.as_str(),
            "does not appear to be a git repository",
        )
    }
}

/// Whether the error output of a failed repository lookup reports that the
/// repository does not exist.
pub fn is_repo_missing(stderr: &str) -> (r: bool)
    ensures
        r == (occurs("not found"@, lower_of(stderr@)) || occurs(
            "could not resolve to a repository"@,
            lower_of(stderr@),
        ) || occurs("404"@, lower_of(stderr@))),
{
    let text = to_lowercase(stderr);
    contains_text(text.as_str(), "not found") || contains_text(
        text.as_str(),
        "could not resolve to a repository",
    ) || contains_text(text.as_str(), "404")
}

impl AddFormulaStep {
    pub fn new() -> (r: AddFormulaStep) {
        AddFormulaStep
    }

    /// The tap's path, which the local repository step records.
    pub fn tap_path(ctx: &RunContext) -> (r: Result<String, String>)
        ensures
            match known_tap_path(ctx.state) {
                Some(p) => r matches Ok(t) && t@ == p,
                None => r matches Err(m) && m@ == tap_path_missing(),
            },
    {
        recorded_tap_path(&ctx.state)
    }

    /// The formula directory of the tap at `tap_path`.
    pub fn formula_dir(tap_path: &str) -> (r: String)
        ensures
            r@ == path_joined(tap_path@, "Formula"@),
    {
        join_path(tap_path, "Formula")
    }

    /// Where the stub formula of the run's tap goes.
    pub fn stub_formula_path(ctx: &RunContext) -> (r: Result<String, String>)
        ensures
            match known_tap_path(ctx.state) {
                Some(p) => r matches Ok(t) && t@ == path_joined(path_joined(p, "Formula"@),
                    ctx.inputs.tap@ + ".rb"@),
                None => r matches Err(m) && m@ == tap_path_missing(),
            },
    {
        let tap_path = match Self::tap_path(ctx) {
            Ok(p) => p,
            Err(m) => return Err(m),
        };
        let dir = Self::formula_dir(tap_path.as_str());
        let file = ctx.inputs.tap.clone().concat(".rb");
        Ok(join_path(dir.as_str(), file.as_str()))
    }

    /// The formula name to record after the formula was created: the one
    /// formula found in the tap, or else the name asked for.
    pub fn chosen_formula_name(found: &Vec<String>, asked: String) -> (r: String)
        ensures
            found@.len() == 1 ==> r == found@[0],
            found@.len() != 1 ==> r == asked,
    {
        if found.len() == 1 {
            found[0].clone()
        } else {
            asked
        }
    }

    /// Record the formula's name in the run's state.
    pub fn set_formula_name(ctx: &mut RunContext, name: String)
        ensures
            final(ctx).state == (State { formula_name: Some(name), ..old(ctx).state }),
            final(ctx).run_id == old(ctx).run_id,
            final(ctx).dry_run == old(ctx).dry_run,
            final(ctx).state_store == old(ctx).state_store,
            final(ctx).inputs == old(ctx).inputs,
    {
        ctx.state.formula_name = Some(name);
    }
}

/// A character that separates the words of a tap name.
pub open spec fn is_separator(c: char) -> bool {
    c == '-' || c == '_'
}

/// The formula class of tap name `s`: its words, split at `-` and `_`,
/// each with an upper-case first letter, run together.
pub open spec fn class_name_of(s: Seq<char>) -> Seq<char>
    decreases s.len(),
{
    if s.len() == 0 {
        Seq::empty()
    } else {
        let prev = class_name_of(s.drop_last());
        let c = s.last();
        if is_separator(c) {
            prev
        } else if s.len() == 1 || is_separator(s[s.len() - 2]) {
            prev.push(ascii_upper(c))
        } else {
            prev.push(c)
        }
    }
}

/// The stub formula of class `class`.
pub open spec fn stub_text(class: Seq<char>) -> Seq<char> {
    "class "@ + class + " < Formula\n  desc \"TODO: add a short description\"\n  homepage \"https://example.com\"\n  url \"https://example.com/TODO.tar.gz\"\n  sha256 \"TODO\"\n  license \"MIT\"\n\n  def install\n    # TODO: install steps\n  end\n\n  test do\n    # TODO: add a test\n  end\nend\n"@
}

impl AddFormulaStep {
    /// The formula class name of tap name `tap`.
    pub fn formula_class_name(tap: &str) -> (r: String)
        ensures
            r@ == class_name_of(tap@),
    {
        let v = chars_of(tap);
        let mut out: Vec<char> = Vec::new();
        let mut i: usize = 0;
        while i < v.len()
            invariant
                v@ == tap@,
                i <= v@.len(),
                out@ == class_name_of(v@.take(i as int)),
            decreases v@.len() - i,
        {
            let c = v[i];
            proof {
                let t = v@.take(i + 1);
                assert(t.drop_last() =~= v@.take(i as int));
                assert(t.last() == c);
                if i > 0 {
                    assert(t[t.len() - 2] == v@[i - 1]);
                }
            }
            if c == '-' || c == '_' {
            } else if i == 0 || v[i - 1] == '-' || v[i - 1] == '_' {
                out.push(to_ascii_uppercase(c));
            } else {
                out.push(c);
            }
            i = i + 1;
        }
        assert(v@.take(v@.len() as int) =~= v@);
        string_of(&out)
    }

    /// The text of the stub formula of class `class`.
    pub fn stub_formula(class: &str) -> (r: String)
        ensures
            r@ == stub_text(class@),
    {
        String::from_str("class ").concat(class).concat(
            " < Formula\n  desc \"TODO: add a short description\"\n  homepage \"https://example.com\"\n  url \"https://example.com/TODO.tar.gz\"\n  sha256 \"TODO\"\n  license \"MIT\"\n\n  def install\n    # TODO: install steps\n  end\n\n  test do\n    # TODO: add a test\n  end\nend\n",
        )
    }
}

/// `f` without the first of the archive extensions that it ends with.
pub open spec fn strip_archive(f: Seq<char>) -> Seq<char> {
    if ends_with(f, ".tar.gz"@) {
        f.subrange(0, f.len() - 7)
    } else if ends_with(f, ".tgz"@) {
        f.subrange(0, f.len() - 4)
    } else if ends_with(f, ".tar.bz2"@) {
        f.subrange(0, f.len() - 8)
    } else if ends_with(f, ".tar.xz"@) {
        f.subrange(0, f.len() - 7)
    } else if ends_with(f, ".zip"@) {
        f.subrange(0, f.len() - 4)
    } else {
        f
    }
}

/// `b` without what follows its last `-`, where that starts with a digit
/// or a `v`, as a version does.
pub open spec fn drop_version(b: Seq<char>) -> Seq<char> {
    if b.contains('-') {
        let k = last_at(b, '-');
        let suffix = b.subrange(k + 1, b.len() as int);
        if suffix.len() > 0 && (('0' <= suffix[0] && suffix[0] <= '9') || suffix[0] == 'v') {
            b.subrange(0, k)
        } else {
            b
        }
    } else {
        b
    }
}

/// The last path segment of `url`, without query or fragment.
pub open spec fn file_part(url: Seq<char>) -> Seq<char> {
    let a = url.subrange(0, first_at(url, '?'));
    let b = a.subrange(0, first_at(a, '#'));
    b.subrange(last_at(b, '/') + 1, b.len() as int)
}

/// The name of the file that `url` points at, without query or fragment,
/// archive extension or version; none where nothing is left.
pub open spec fn name_from_url(url: Seq<char>) -> Option<Seq<char>> {
    let n = drop_version(strip_archive(file_part(url)));
    if n.len() == 0 {
        None
    } else {
        Some(n)
    }
}

/// The last path segment of `v`, without query or fragment.
fn file_part_of(v: &Vec<char>) -> (r: Vec<char>)
    ensures
        r@ == file_part(v@),
{
    let a = slice(v, 0, first_index(v, '?'));
    let b = slice(&a, 0, first_index(&a, '#'));
    let start = match last_index(&b, '/') {
        Some(k) => k + 1,
        None => 0,
    };
    slice(&b, start, b.len())
}

/// `f` without the first archive extension that it ends with.
fn strip_archive_of(f: Vec<char>) -> (r: Vec<char>)
    ensures
        r@ == strip_archive(f@),
{
    proof {
        reveal_strlit(".tar.gz");
        reveal_strlit(".tgz");
        reveal_strlit(".tar.bz2");
        reveal_strlit(".tar.xz");
        reveal_strlit(".zip");
    }
    if ends_with_text(&f, ".tar.gz") {
        slice(&f, 0, f.len() - 7)
    } else if ends_with_text(&f, ".tgz") {
        slice(&f, 0, f.len() - 4)
    } else if ends_with_text(&f, ".tar.bz2") {
        slice(&f, 0, f.len() - 8)
    } else if ends_with_text(&f, ".tar.xz") {
        slice(&f, 0, f.len() - 7)
    } else if ends_with_text(&f, ".zip") {
        slice(&f, 0, f.len() - 4)
    } else {
        f
    }
}

/// `b` without a trailing `-` and version.
fn drop_version_of(b: Vec<char>) -> (r: Vec<char>)
    ensures
        r@ == drop_version(b@),
{
    let n = b.len();
    let found = last_index(&b, '-');
    match found {
        Some(k) => {
            assert(b@.contains('-'));
            assert(k < n);
            let ghost suffix = b@.subrange(k + 1, b@.len() as int);
            assert(k as int == last_at(b@, '-'));
            if k + 1 < n {
                let c = b[k + 1];
                assert(suffix.len() > 0 && suffix[0] == c);
                if ('0' <= c && c <= '9') || c == 'v' {
                    slice(&b, 0, k)
                } else {
                    b
                }
            } else {
                assert(suffix.len() == 0);
                b
            }
        },
        None => b,
    }
}

impl AddFormulaStep {
    /// The formula name that a source URL suggests.
    pub fn derive_name_from_url(url: &str) -> (r: Option<String>)
        ensures
            opt_view(r) == name_from_url(url@),
    {
        let v = chars_of(url);
        let n = drop_version_of(strip_archive_of(file_part_of(&v)));
        if n.len() == 0 {
            None
        } else {
            Some(string_of(&n))
        }
    }
}

/// The state of a local branch against its upstream.
pub struct StatusInfo {
    pub dirty: bool,
    pub ahead: usize,
    pub behind: usize,
    pub has_upstream: bool,
    pub branch: String,
}

/// What the head line of a short status tells: the branch, whether it
/// tracks an upstream, and how far it is ahead of and behind it.
pub struct BranchLine {
    pub branch: String,
    pub has_upstream: bool,
    pub ahead: usize,
    pub behind: usize,
}

/// The count given by the last of `parts` that, trimmed, starts with `key`,
/// where it spells a number; 0 otherwise.
pub open spec fn count_for(parts: Seq<Seq<char>>, key: Seq<char>) -> usize
    decreases parts.len(),
{
    if parts.len() == 0 {
        0
    } else {
        let t = trimmed(parts.last());
        if starts_with(t, key) {
            match parsed_count(trimmed(t.subrange(key.len() as int, t.len() as int))) {
                Some(n) => n,
                None => 0,
            }
        } else {
            count_for(parts.drop_last(), key)
        }
    }
}

/// The first line of `output`, trimmed.
pub open spec fn status_head(output: Seq<char>) -> Seq<char> {
    if line_split(output).len() > 0 {
        trimmed(line_split(output)[0])
    } else {
        Seq::empty()
    }
}

/// The ahead and behind counts in the bracketed part of `rest`, if any.
pub open spec fn bracket_counts(rest: Seq<char>) -> (usize, usize) {
    let s = first_at(rest, '[');
    if s == rest.len() {
        (0, 0)
    } else {
        let after = rest.subrange(s + 1, rest.len() as int);
        let e = first_at(after, ']');
        if e == after.len() {
            (0, 0)
        } else {
            let parts = split_pieces(after.subrange(0, e), ',');
            (count_for(parts, "ahead "@), count_for(parts, "behind "@))
        }
    }
}

/// The meaning of a short status `output`: branch, upstream, ahead,
/// behind. A head line `## b...u [ahead a, behind c]` gives all four; a head
/// line `## b` gives a branch with no upstream; any other head line gives
/// nothing.
pub open spec fn branch_line_of(output: Seq<char>) -> (Seq<char>, bool, usize, usize) {
    let head = status_head(output);
    if !starts_with(head, "## "@) {
        (Seq::empty(), false, 0, 0)
    } else {
        let line = head.subrange(3, head.len() as int);
        let k = first_dots(line);
        if k < 0 {
            (trimmed(line), false, 0, 0)
        } else {
            let counts = bracket_counts(line.subrange(k + 3, line.len() as int));
            (trimmed(line.subrange(0, k)), true, counts.0, counts.1)
        }
    }
}

/// The counts for "ahead " and "behind " among the comma-separated parts
/// of `inside`.
fn counts_in(inside: &Vec<char>) -> (r: (usize, usize))
    ensures
        r.0 == count_for(split_pieces(inside@, ','), "ahead "@),
        r.1 == count_for(split_pieces(inside@, ','), "behind "@),
{
    let text = string_of(inside);
    let parts = split_at_char(text.as_str(), ',');
    let ghost ps = split_pieces(inside@, ',');
    let mut ahead: usize = 0;
    let mut behind: usize = 0;
    let mut i: usize = 0;
    proof {
        reveal_strlit("ahead ");
        reveal_strlit("behind ");
    }
    while i < parts.len()
        invariant
            parts@.len() == ps.len(),
            forall|j: int| 0 <= j < parts@.len() ==> (#[trigger] parts@[j])@ == ps[j],
            i <= parts@.len(),
            ahead == count_for(ps.take(i as int), "ahead "@),
            behind == count_for(ps.take(i as int), "behind "@),
        decreases parts@.len() - i,
    {
        proof {
            reveal_strlit("ahead ");
            reveal_strlit("behind ");
            let t = ps.take(i + 1);
            assert(t.drop_last() =~= ps.take(i as int));
            assert(t.last() == ps[i as int]);
        }
        let t = trim(parts[i].as_str());
        let tv = chars_of(t.as_str());
        if starts_with_text(&tv, "ahead ") {
            proof {
                assert(tv@.subrange(0, 6)[0] == tv@[0]);
                if starts_with(tv@, "behind "@) {
                    assert(tv@.subrange(0, 7)[0] == tv@[0]);
                }
            }
            let rest = string_of(&slice(&tv, 6, tv.len()));
            let value = trim(rest.as_str());
            ahead = match parse_count(value.as_str()) {
                Some(n) => n,
                None => 0,
            };
        } else if starts_with_text(&tv, "behind ") {
            let rest = string_of(&slice(&tv, 7, tv.len()));
            let value = trim(rest.as_str());
            behind = match parse_count(value.as_str()) {
                Some(n) => n,
                None => 0,
            };
        }
        i = i + 1;
    }
    assert(ps.take(parts@.len() as int) =~= ps);
    (ahead, behind)
}

/// The counts in the bracketed part of `rest`.
fn bracket_counts_of(rest: &Vec<char>) -> (r: (usize, usize))
    ensures
        r == bracket_counts(rest@),
{
    let s = first_index(rest, '[');
    if s == rest.len() {
        return (0, 0);
    }
    let after = slice(rest, s + 1, rest.len());
    let e = first_index(&after, ']');
    if e == after.len() {
        return (0, 0);
    }
    counts_in(&slice(&after, 0, e))
}

impl CommitAndPushStep {
    /// What the short status `output` tells of the branch.
    pub fn branch_status(output: &str) -> (r: BranchLine)
        ensures
            (r.branch@, r.has_upstream, r.ahead, r.behind) == branch_line_of(output@),
    {
        let lines = lines_of(output);
        let head = if lines.len() > 0 {
            trim(lines[0].as_str())
        } else {
            String::new()
        };
        let hv = chars_of(head.as_str());
        proof {
            reveal_strlit("## ");
        }
        if !starts_with_text(&hv, "## ") {
            return BranchLine { branch: String::new(), has_upstream: false, ahead: 0, behind: 0 };
        }
        let line = slice(&hv, 3, hv.len());
        match find_dots(&line) {
            None => BranchLine {
                branch: trim(string_of(&line).as_str()),
                has_upstream: false,
                ahead: 0,
                behind: 0,
            },
            Some(k) => {
                let counts = bracket_counts_of(&slice(&line, k + 3, line.len()));
                BranchLine {
                    branch: trim(string_of(&slice(&line, 0, k)).as_str()),
                    has_upstream: true,
                    ahead: counts.0,
                    behind: counts.1,
                }
            },
        }
    }
}

/// The message given where the local branch is behind its upstream.
pub open spec fn behind_message() -> Seq<char> {
    "local branch is behind origin; pull is required before pushing"@
}

impl CommitAndPushStep {
    pub fn new() -> (r: CommitAndPushStep) {
        CommitAndPushStep
    }

    /// The tap's path, which the local repository step records.
    pub fn tap_path(ctx: &RunContext) -> (r: Result<String, String>)
        ensures
            match known_tap_path(ctx.state) {
                Some(p) => r matches Ok(t) && t@ == p,
                None => r matches Err(m) && m@ == tap_path_missing(),
            },
    {
        recorded_tap_path(&ctx.state)
    }

    /// Whether the branch must be pushed: it has commits that its upstream
    /// lacks, or no upstream at all.
    pub fn needs_push(status: &StatusInfo) -> (r: bool)
        ensures
            r == (status.ahead > 0 || !status.has_upstream),
    {
        status.ahead > 0 || !status.has_upstream
    }

    /// Fails where the branch is behind its upstream, which a push cannot
    /// mend.
    pub fn check_not_behind(status: &StatusInfo) -> (r: Result<(), String>)
        ensures
            status.behind > 0 <==> r is Err,
            r matches Err(m) ==> m@ == behind_message(),
    {
        if status.behind > 0 {
            Err(String::from_str("local branch is behind origin; pull is required before pushing"))
        } else {
            Ok(())
        }
    }

    /// The verdict on a branch: an error where it is behind; `Complete`
    /// where it is clean, pushed and tracking; `Incomplete` otherwise.
    pub fn verdict(status: &StatusInfo) -> (r: Result<VerifyStatus, String>)
        ensures
            status.behind > 0 ==> (r matches Err(m) && m@ == behind_message()),
            status.behind == 0 ==> (r matches Ok(v) && (v == VerifyStatus::Complete <==> (
                !status.dirty && status.ahead == 0 && status.has_upstream))),
    {
        match Self::check_not_behind(status) {
            Err(m) => Err(m),
            Ok(()) => if status.dirty || Self::needs_push(status) {
                Ok(VerifyStatus::Incomplete)
            } else {
                Ok(VerifyStatus::Complete)
            },
        }
    }

    /// Whether a failed commit only found nothing to commit, judged from its
    /// standard output and error output together.
    pub fn nothing_to_commit(output: &str) -> (r: bool)
        ensures
            r == occurs("nothing to commit"@, lower_of(output@)),
    {
        let text = to_lowercase(output);
        contains_text(text.as_str(), "nothing to commit")
    }
}

/// The `owner/tap` shorthand of the run's tap.
pub open spec fn shorthand(inputs: Inputs) -> Seq<char> {
    inputs.owner@ + "/"@ + inputs.tap@
}

/// The `owner/repo_name` slug of the run's repository.
pub open spec fn slug(inputs: Inputs) -> Seq<char> {
    inputs.owner@ + "/"@ + inputs.repo_name@
}

impl ValidateTapStep {
    pub fn new() -> (r: ValidateTapStep) {
        ValidateTapStep
    }

    /// The names under which the tap may be registered: its slug, and its
    /// shorthand where the repository has the default name.
    pub fn tap_candidates(ctx: &RunContext) -> (r: Vec<String>)
        ensures
            r@.len() >= 1,
            r@[0]@ == slug(ctx.inputs),
            ctx.inputs.repo_name@ == default_repo_name(ctx.inputs.tap@) ==> (r@.len() == 2 && r@[1]@
                == shorthand(ctx.inputs)),
            ctx.inputs.repo_name@ != default_repo_name(ctx.inputs.tap@) ==> r@.len() == 1,
    {
        let mut candidates: Vec<String> = Vec::new();
        candidates.push(ctx.inputs.repo_slug());
        let shorthand = ctx.inputs.owner.clone().concat("/").concat(ctx.inputs.tap.as_str());
        let expected_repo = String::from_str("homebrew-").concat(ctx.inputs.tap.as_str());
        if ctx.inputs.repo_name == expected_repo {
            candidates.push(shorthand);
        }
        candidates
    }

    /// The name to register the tap under: the shorthand where the
    /// repository has the default name, the slug otherwise.
    pub fn preferred_tap(ctx: &RunContext) -> (r: String)
        ensures
            ctx.inputs.repo_name@ == default_repo_name(ctx.inputs.tap@) ==> r@ == shorthand(ctx.inputs),
            ctx.inputs.repo_name@ != default_repo_name(ctx.inputs.tap@) ==> r@ == slug(ctx.inputs),
    {
        let shorthand = ctx.inputs.owner.clone().concat("/").concat(ctx.inputs.tap.as_str());
        let expected_repo = String::from_str("homebrew-").concat(ctx.inputs.tap.as_str());
        if ctx.inputs.repo_name == expected_repo {
            shorthand
        } else {
            ctx.inputs.repo_slug()
        }
    }
}

impl ValidateTapStep {
    /// Whether the list of registered taps `list`, one per line, holds
    /// `identifier` on a line of its own, white space aside.
    pub fn is_listed(list: &str, identifier: &str) -> (r: bool)
        ensures
            r == exists|i: int|
                0 <= i < line_split(list@).len() && trimmed(#[trigger] line_split(list@)[i])
                    == identifier@,
    {
        let lines = lines_of(list);
        let id = String::from_str(identifier);
        let mut i: usize = 0;
        while i < lines.len()
            invariant
                lines@.len() == line_split(list@).len(),
                forall|j: int| 0 <= j < lines@.len() ==> (#[trigger] lines@[j])@ == line_split(list@)[j],
                id@ == identifier@,
                i <= lines@.len(),
                forall|j: int| 0 <= j < i ==> trimmed(#[trigger] line_split(list@)[j]) != identifier@,
            decreases lines@.len() - i,
        {
            let t = trim(lines[i].as_str());
            if t == id {
                assert(trimmed(line_split(list@)[i as int]) == identifier@);
                return true;
            }
            i = i + 1;
        }
        false
    }
}

impl FinalSummaryStep {
    pub fn new() -> (r: FinalSummaryStep) {
        FinalSummaryStep
    }

    /// The verdict of the summary step: `Complete` once the summary has
    /// been given. It reads the state alone, so asking twice without a
    /// change in between gives the same answer.
    pub fn verdict(state: &State) -> (r: VerifyStatus)
        ensures
            r == VerifyStatus::Complete <==> state.summary_printed,
    {
        if state.summary_printed {
            VerifyStatus::Complete
        } else {
            VerifyStatus::Incomplete
        }
    }

    /// The formula to install: the one recorded, or the tap's name.
    pub fn install_formula(ctx: &RunContext) -> (r: String)
        ensures
            ctx.state.formula_name matches Some(n) ==> r == n,
            ctx.state.formula_name is None ==> r == ctx.inputs.tap,
    {
        match &ctx.state.formula_name {
            Some(n) => n.clone(),
            None => ctx.inputs.tap.clone(),
        }
    }

    /// Record that the summary has been given.
    pub fn mark_printed(ctx: &mut RunContext)
        ensures
            final(ctx).state == (State { summary_printed: true, ..old(ctx).state }),
            final(ctx).run_id == old(ctx).run_id,
            final(ctx).dry_run == old(ctx).dry_run,
            final(ctx).state_store == old(ctx).state_store,
            final(ctx).inputs == old(ctx).inputs,
    {
        ctx.state.summary_printed = true;
    }
}

impl Step for PreflightStep {
    fn id(&self) -> &'static str {
        "preflight"
    }

    fn description(&self) -> &'static str {
        "Preflight checks"
    }
}

impl Step for BrewTapNewStep {
    fn id(&self) -> &'static str {
        "brew_tap_new"
    }

    fn description(&self) -> &'static str {
        "Create local tap (brew tap-new)"
    }
}

impl Step for GhRepoCreateStep {
    fn id(&self) -> &'static str {
        "gh_repo_create"
    }

    fn description(&self) -> &'static str {
        "Create GitHub repo and push"
    }
}

impl Step for AddFormulaStep {
    fn id(&self) -> &'static str {
        "add_formula"
    }

    fn description(&self) -> &'static str {
        "Add formula"
    }
}

impl Step for CommitAndPushStep {
    fn id(&self) -> &'static str {
        "commit_and_push"
    }

    fn description(&self) -> &'static str {
        "Commit and push changes"
    }
}

impl Step for ValidateTapStep {
    fn id(&self) -> &'static str {
        "validate_tap"
    }

    fn description(&self) -> &'static str {
        "Validate tap is registered"
    }
}

impl Step for FinalSummaryStep {
    fn id(&self) -> &'static str {
        "final_summary"
    }

    fn description(&self) -> &'static str {
        "Final summary"
    }
}

} // verus!
