use vstd::prelude::*;

use crate::text::{has_char, has_space, no_space, trim, trimmed};

verus! {

/// Visibility of the remote repository that a run creates.
#[derive(Clone, Copy, Debug, PartialEq, Eq, Structural)]
pub enum Visibility {
    Public,
    Private,
}

/// How the formula of the tap is produced.
#[derive(Clone, Copy, Debug, PartialEq, Eq, Structural)]
pub enum FormulaMode {
    Stub,
    BrewCreate,
}

/// The domain configuration of a run: fixed when the run is created and
/// carried unchanged through every resume.
#[derive(Clone, Debug)]
pub struct Inputs {
    pub owner: String,
    pub tap: String,
    pub repo_name: String,
    pub visibility: Visibility,
    pub branch: String,
    pub formula_mode: FormulaMode,
    pub formula_url: Option<String>,
    pub formula_name: Option<String>,
}

/// Why given inputs are refused.
#[derive(Clone, Copy, Debug, PartialEq, Eq, Structural)]
pub enum InputErrorKind {
    /// The value is empty once trimmed.
    Required,
    /// The value holds a `/`.
    HasSlash,
    /// The value holds white space inside.
    HasWhitespace,
    /// Formula mode `BrewCreate` was chosen without a formula URL.
    FormulaUrlRequired,
}

/// A refused input: why, and which one.
#[derive(Clone, Debug)]
pub struct InputError {
    pub kind: InputErrorKind,
    pub label: String,
}

/// The text of an input error.
pub open spec fn input_message(kind: InputErrorKind, label: Seq<char>) -> Seq<char> {
    match kind {
        InputErrorKind::Required => label + " is required"@,
        InputErrorKind::HasSlash => label + " must not include '/'"@,
        InputErrorKind::HasWhitespace => label + " must not contain whitespace"@,
        InputErrorKind::FormulaUrlRequired => "formula-url is required when formula-mode is brew-create"@,
    }
}

/// What is wrong with the trimmed token `t`, if anything.
pub open spec fn token_fault(t: Seq<char>) -> Option<InputErrorKind> {
    if t.len() == 0 {
        Some(InputErrorKind::Required)
    } else if t.contains('/') {
        Some(InputErrorKind::HasSlash)
    } else if !no_space(t) {
        Some(InputErrorKind::HasWhitespace)
    } else {
        None
    }
}

/// The characters of an optional text.
pub open spec fn opt_view(o: Option<String>) -> Option<Seq<char>> {
    match o {
        Some(s) => Some(s@),
        None => None,
    }
}

/// The repository name that goes with tap short name `tap`.
pub open spec fn default_repo_name(tap: Seq<char>) -> Seq<char> {
    "homebrew-"@ + tap
}

/// The first fault, with its label, among the raw inputs of a run, checked
/// in this order: owner, tap, branch, formula name, formula URL, repository
/// name.
pub open spec fn inputs_fault(
    owner: Seq<char>,
    tap: Seq<char>,
    repo_name: Option<Seq<char>>,
    branch: Seq<char>,
    mode: FormulaMode,
    url: Option<Seq<char>>,
    name: Option<Seq<char>>,
) -> Option<(InputErrorKind, Seq<char>)> {
    if token_fault(trimmed(owner)) is Some {
        Some((token_fault(trimmed(owner))->Some_0, "owner"@))
    } else if token_fault(trimmed(tap)) is Some {
        Some((token_fault(trimmed(tap))->Some_0, "tap"@))
    } else if trimmed(branch).len() == 0 {
        Some((InputErrorKind::Required, "branch"@))
    } else if name is Some && token_fault(trimmed(name->Some_0)) is Some {
        Some((token_fault(trimmed(name->Some_0))->Some_0, "formula name"@))
    } else if mode == FormulaMode::BrewCreate && (url is None || trimmed(url->Some_0).len() == 0) {
        Some((InputErrorKind::FormulaUrlRequired, "formula-url"@))
    } else if repo_name is Some && token_fault(trimmed(repo_name->Some_0)) is Some {
        Some((token_fault(trimmed(repo_name->Some_0))->Some_0, "repo name"@))
    } else {
        None
    }
}

impl InputError {
    /// The human-readable text of the error.
    pub fn message(&self) -> (r: String)
        ensures
            r@ == input_message(self.kind, self.label@),
    {
        let label = self.label.clone();
        match self.kind {
            InputErrorKind::Required => label.concat(" is required"),
            InputErrorKind::HasSlash => label.concat(" must not include '/'"),
            InputErrorKind::HasWhitespace => label.concat(" must not contain whitespace"),
            InputErrorKind::FormulaUrlRequired => String::from_str(
                "formula-url is required when formula-mode is brew-create",
            ),
        }
    }
}

/// `value` trimmed, where it is a valid token: not empty, with no `/` and no
/// white space; else the fault, under `label`.
pub fn normalize_token(label: &str, value: String) -> (r: Result<String, InputError>)
    ensures
        match token_fault(trimmed(value@)) {
            None => r matches Ok(t) && t@ == trimmed(value@),
            Some(k) => r matches Err(e) && e.kind == k && e.label@ == label@,
        },
{
    let t = trim(value.as_str());
    let kind = if t.as_str().is_empty() {
        InputErrorKind::Required
    } else if has_char(t.as_str(), '/') {
        InputErrorKind::HasSlash
    } else if has_space(t.as_str()) {
        InputErrorKind::HasWhitespace
    } else {
        return Ok(t);
    };
    Err(InputError { kind, label: String::from_str(label) })
}

/// `branch` trimmed, where that is not empty.
pub fn normalize_branch(branch: String) -> (r: Result<String, InputError>)
    ensures
        trimmed(branch@).len() == 0 ==> (r matches Err(e) && e.kind == InputErrorKind::Required
            && e.label@ == "branch"@),
        trimmed(branch@).len() > 0 ==> (r matches Ok(t) && t@ == trimmed(branch@)),
{
    let t = trim(branch.as_str());
    if t.as_str().is_empty() {
        Err(InputError { kind: InputErrorKind::Required, label: String::from_str("branch") })
    } else {
        Ok(t)
    }
}

impl Inputs {
    /// Validated inputs. Owner, tap and the formula and repository names are
    /// trimmed and must be non-empty tokens without `/` or white space; the
    /// branch is trimmed and must be non-empty; a formula URL is trimmed and
    /// dropped when empty, and is required in mode `BrewCreate`; the
    /// repository name defaults to `homebrew-<tap>`. The first fault found,
    /// in that order, is returned.
    pub fn new(
        owner: String,
        tap: String,
        repo_name: Option<String>,
        visibility: Visibility,
        branch: String,
        formula_mode: FormulaMode,
        formula_url: Option<String>,
        formula_name: Option<String>,
    ) -> (r: Result<Inputs, InputError>)
        ensures
            ({
                let fault = inputs_fault(owner@, tap@, opt_view(repo_name), branch@, formula_mode,
                    opt_view(formula_url), opt_view(formula_name));
                &&& fault is Some <==> r is Err
                &&& r matches Err(e) ==> (e.kind, e.label@) == fault->Some_0
                &&& r matches Ok(i) ==> {
                    &&& i.owner@ == trimmed(owner@)
                    &&& i.tap@ == trimmed(tap@)
                    &&& i.branch@ == trimmed(branch@)
                    &&& i.visibility == visibility
                    &&& i.formula_mode == formula_mode
                    &&& i.repo_name@ == match repo_name {
                        Some(n) => trimmed(n@),
                        None => default_repo_name(trimmed(tap@)),
                    }
                    &&& opt_view(i.formula_url) == match formula_url {
                        Some(u) => if trimmed(u@).len() == 0 { None } else { Some(trimmed(u@)) },
                        None => None,
                    }
                    &&& opt_view(i.formula_name) == match formula_name {
                        Some(n) => Some(trimmed(n@)),
                        None => None,
                    }
                }
            }),
    {
        let owner = match normalize_token("owner", owner) {
            Ok(t) => t,
            Err(e) => return Err(e),
        };
        let tap = match normalize_token("tap", tap) {
            Ok(t) => t,
            Err(e) => return Err(e),
        };
        let branch = match normalize_branch(branch) {
            Ok(t) => t,
            Err(e) => return Err(e),
        };
        let formula_url = match formula_url {
            Some(u) => {
                let t = trim(u.as_str());
                if t.as_str().is_empty() {
                    None
                } else {
                    Some(t)
                }
            },
            None => None,
        };
        let formula_name = match formula_name {
            Some(n) => match normalize_token("formula name", n) {
                Ok(t) => Some(t),
                Err(e) => return Err(e),
            },
            None => None,
        };
        if formula_mode == FormulaMode::BrewCreate && formula_url.is_none() {
            return Err(
                InputError {
                    kind: InputErrorKind::FormulaUrlRequired,
                    label: String::from_str("formula-url"),
                },
            );
        }
        let repo_name = match repo_name {
            Some(n) => match normalize_token("repo name", n) {
                Ok(t) => t,
                Err(e) => return Err(e),
            },
            None => String::from_str("homebrew-").concat(tap.as_str()),
        };
        Ok(Inputs { owner, tap, repo_name, visibility, branch, formula_mode, formula_url, formula_name })
    }

    /// `owner/repo_name`, the slug of the remote repository.
    pub fn repo_slug(&self) -> (r: String)
        ensures
            r@ == self.owner@ + "/"@ + self.repo_name@,
    {
        self.owner.clone().concat("/").concat(self.repo_name.as_str())
    }

    /// A copy of these inputs.
    pub fn duplicate(&self) -> (r: Inputs)
        ensures
            r == *self,
    {
        Inputs {
            owner: self.owner.clone(),
            tap: self.tap.clone(),
            repo_name: self.repo_name.clone(),
            visibility: self.visibility,
            branch: self.branch.clone(),
            formula_mode: self.formula_mode,
            formula_url: match &self.formula_url {
                Some(u) => Some(u.clone()),
                None => None,
            },
            formula_name: match &self.formula_name {
                Some(n) => Some(n.clone()),
                None => None,
            },
        }
    }
}

} // verus!
