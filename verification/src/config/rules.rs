//! Rules for windows.
use regex::Regex;
use vstd::prelude::*;
use vstd::string::*;

use super::decoration::BorderConfig;

verus! {

/// Whether a text is a regular expression that `Regex::new` of `regex` accepts.
pub uninterp spec fn regex_is_valid(pattern: Seq<char>) -> bool;

/// Whether a regular expression matches somewhere in a text, as `Regex::is_match` of `regex` says.
pub uninterp spec fn regex_is_match(pattern: Seq<char>, text: Seq<char>) -> bool;

/// An error of the outside parser of regular expressions.
#[verifier::external_type_specification]
#[verifier::external_body]
pub struct ExRegexError(regex::Error);

/// `regex::Regex::new`: whether it accepts the pattern depends on the pattern alone, and goes by
/// the name [`regex_is_valid`]. The compiled expression is dropped.
#[verifier::external_body]
fn compile(pattern: &str) -> (r: Result<(), regex::Error>)
    ensures
        r is Ok <==> regex_is_valid(pattern@),
{
    Regex::new(pattern).map(|_| ())
}

/// `regex::Regex::is_match` of the expression that `pattern` compiles to: the result depends on
/// the pattern and the text alone, and goes by the name [`regex_is_match`].
#[verifier::external_body]
fn is_match(pattern: &str, text: &str) -> (b: bool)
    requires
        regex_is_valid(pattern@),
    ensures
        b == regex_is_match(pattern@, text@),
{
    Regex::new(pattern).unwrap().is_match(text)
}

/// Which part of a pattern is not a regular expression.
#[derive(Clone, Copy, Debug, PartialEq, Eq, Structural)]
pub enum InvalidRegex {
    Title,
    AppId,
}

/// Which windows a rule is for.
#[derive(Debug, Hash)]
pub struct WindowPattern {
    workspace: Option<usize>,
    title: Option<String>,
    app_id: Option<String>,
}

/// The text of a pattern.
pub open spec fn opt_view(text: Option<String>) -> Option<Seq<char>> {
    match text {
        Some(text) => Some(text@),
        None => None,
    }
}

/// Whether a pattern is there and matches.
pub open spec fn opt_matches(pattern: Option<Seq<char>>, text: Seq<char>) -> bool {
    pattern matches Some(pattern) && regex_is_match(pattern, text)
}

/// Whether a pattern, where there is one, is a regular expression.
pub open spec fn opt_valid(pattern: Option<Seq<char>>) -> bool {
    pattern matches Some(pattern) ==> regex_is_valid(pattern)
}

impl WindowPattern {
    /// The workspace that the pattern asks for.
    pub closed spec fn spec_workspace(&self) -> Option<usize> {
        self.workspace
    }

    /// The regular expression for titles.
    pub closed spec fn spec_title(&self) -> Option<Seq<char>> {
        opt_view(self.title)
    }

    /// The regular expression for the names of applications.
    pub closed spec fn spec_app_id(&self) -> Option<Seq<char>> {
        opt_view(self.app_id)
    }

    /// Whether a window on a workspace is one that the pattern is for.
    pub open spec fn spec_matches(
        &self,
        title: Seq<char>,
        app_id: Seq<char>,
        workspace: usize,
    ) -> bool {
        ||| self.spec_workspace() == Some(workspace)
        ||| opt_matches(self.spec_title(), title)
        ||| opt_matches(self.spec_app_id(), app_id)
    }

    #[verifier::type_invariant]
    closed spec fn inv(self) -> bool {
        opt_valid(opt_view(self.title)) && opt_valid(opt_view(self.app_id))
    }

    /// A pattern with the given parts. The two texts have to be regular expressions.
    pub fn new(workspace: Option<usize>, title: Option<String>, app_id: Option<String>) -> (r: Result<
        WindowPattern,
        InvalidRegex,
    >)
        ensures
            match r {
                Ok(pattern) => {
                    &&& opt_valid(opt_view(title)) && opt_valid(opt_view(app_id))
                    &&& pattern.spec_workspace() == workspace
                    &&& pattern.spec_title() == opt_view(title)
                    &&& pattern.spec_app_id() == opt_view(app_id)
                },
                Err(InvalidRegex::Title) => !opt_valid(opt_view(title)),
                Err(InvalidRegex::AppId) => opt_valid(opt_view(title)) && !opt_valid(
                    opt_view(app_id),
                ),
            },
    {
        if let Some(pattern) = &title {
            if compile(pattern.as_str()).is_err() {
                return Err(InvalidRegex::Title);
            }
        }
        if let Some(pattern) = &app_id {
            if compile(pattern.as_str()).is_err() {
                return Err(InvalidRegex::AppId);
            }
        }
        Ok(WindowPattern { workspace, title, app_id })
    }

    /// The workspace that the pattern asks for.
    pub fn workspace(&self) -> (workspace: Option<usize>)
        ensures
            workspace == self.spec_workspace(),
    {
        self.workspace
    }

    /// The regular expression for titles.
    pub fn title(&self) -> (title: Option<String>)
        ensures
            opt_view(title) == self.spec_title(),
    {
        match &self.title {
            Some(title) => Some(title.clone()),
            None => None,
        }
    }

    /// The regular expression for the names of applications.
    pub fn app_id(&self) -> (app_id: Option<String>)
        ensures
            opt_view(app_id) == self.spec_app_id(),
    {
        match &self.app_id {
            Some(app_id) => Some(app_id.clone()),
            None => None,
        }
    }

    /// Whether any part of a pattern matches: `title` and `app_id` tell of the two expressions
    /// whether they match, where there is one.
    pub fn any_part_matches(
        wanted: Option<usize>,
        workspace: usize,
        title: Option<bool>,
        app_id: Option<bool>,
    ) -> (b: bool)
        ensures
            b == (wanted == Some(workspace) || title == Some(true) || app_id == Some(true)),
    {
        if let Some(wanted) = wanted {
            if wanted == workspace {
                return true;
            }
        }
        if let Some(true) = title {
            return true;
        }
        match app_id {
            Some(matches) => matches,
            None => false,
        }
    }

    /// Whether a window on a workspace is one that the pattern is for: any part of the pattern is
    /// enough.
    pub fn matches(&self, title: &str, app_id: &str, workspace: usize) -> (b: bool)
        ensures
            b == self.spec_matches(title@, app_id@, workspace),
    {
        proof {
            use_type_invariant(self);
        }
        if WindowPattern::any_part_matches(self.workspace, workspace, None, None) {
            return true;
        }
        let title_matches = match &self.title {
            Some(pattern) => Some(is_match(pattern.as_str(), title)),
            None => None,
        };
        let app_id_matches = match &self.app_id {
            Some(pattern) => Some(is_match(pattern.as_str(), app_id)),
            None => None,
        };
        WindowPattern::any_part_matches(None, workspace, title_matches, app_id_matches)
    }
}

fn same_text(a: &Option<String>, b: &Option<String>) -> (same: bool)
    ensures
        same == (opt_view(*a) == opt_view(*b)),
{
    match (a, b) {
        (Some(a), Some(b)) => *a == *b,
        (None, None) => true,
        _ => false,
    }
}

impl PartialEq for WindowPattern {
    fn eq(&self, other: &Self) -> (same: bool) {
        let same_workspace = match (self.workspace, other.workspace) {
            (Some(a), Some(b)) => a == b,
            (None, None) => true,
            _ => false,
        };
        same_workspace && same_text(&self.title, &other.title) && same_text(
            &self.app_id,
            &other.app_id,
        )
    }
}

impl vstd::std_specs::cmp::PartialEqSpecImpl for WindowPattern {
    open spec fn obeys_eq_spec() -> bool {
        true
    }

    open spec fn eq_spec(&self, other: &Self) -> bool {
        &&& self.spec_workspace() == other.spec_workspace()
        &&& self.spec_title() == other.spec_title()
        &&& self.spec_app_id() == other.spec_app_id()
    }
}

impl Eq for WindowPattern {}

impl Clone for WindowPattern {
    fn clone(&self) -> (pattern: WindowPattern)
        ensures
            pattern.spec_workspace() == self.spec_workspace(),
            pattern.spec_title() == self.spec_title(),
            pattern.spec_app_id() == self.spec_app_id(),
    {
        proof {
            use_type_invariant(self);
        }
        WindowPattern { workspace: self.workspace, title: self.title(), app_id: self.app_id() }
    }
}

impl Default for WindowPattern {
    /// A pattern without any part, which is for no window.
    fn default() -> (pattern: WindowPattern)
        ensures
            pattern.spec_workspace() is None,
            pattern.spec_title() is None,
            pattern.spec_app_id() is None,
    {
        WindowPattern { workspace: None, title: None, app_id: None }
    }
}

/// What is done about the windows that a pattern is for.
#[derive(Debug)]
pub struct WindowRules {
    pub output: Option<String>,
    pub border: Option<BorderConfig>,
    pub allow_csd: Option<bool>,
    pub workspace: Option<usize>,
}

impl Default for WindowRules {
    fn default() -> (rules: WindowRules)
        ensures
            rules.output is None,
            rules.border is None,
            rules.allow_csd is None,
            rules.workspace is None,
    {
        WindowRules { output: None, border: None, allow_csd: None, workspace: None }
    }
}

/// Patterns that are equal are for the same windows.
pub proof fn equal_patterns_match_the_same(
    a: WindowPattern,
    b: WindowPattern,
    title: Seq<char>,
    app_id: Seq<char>,
    workspace: usize,
)
    requires
        a.spec_workspace() == b.spec_workspace(),
        a.spec_title() == b.spec_title(),
        a.spec_app_id() == b.spec_app_id(),
    ensures
        a.spec_matches(title, app_id, workspace) == b.spec_matches(title, app_id, workspace),
{
}

/// A rule is for a window as soon as one part of its pattern is: the workspace is the one that is
/// asked for, or the title or the name of the application matches its expression. A part that is
/// not there is for no window, and one part that does not match does not rule a window out.
pub proof fn any_part_of_a_pattern_is_enough(
    pattern: &WindowPattern,
    title: &str,
    app_id: &str,
    workspace: usize,
    matches: bool,
)
    requires
        call_ensures(WindowPattern::matches, (pattern, title, app_id, workspace), matches),
    ensures
        pattern.spec_workspace() == Some(workspace) ==> matches,
        pattern.spec_title() matches Some(regex) ==> (regex_is_match(regex, title@) ==> matches),
        pattern.spec_app_id() matches Some(regex) ==> (regex_is_match(regex, app_id@) ==> matches),
        matches ==> {
            ||| pattern.spec_workspace() == Some(workspace)
            ||| pattern.spec_title() is Some && regex_is_match(pattern.spec_title()->0, title@)
            ||| pattern.spec_app_id() is Some && regex_is_match(pattern.spec_app_id()->0, app_id@)
        },
{
}

/// Any part that matches is enough, and no other part takes that back.
pub proof fn parts_match_on_their_own(
    wanted: Option<usize>,
    workspace: usize,
    title: Option<bool>,
    app_id: Option<bool>,
    matches: bool,
)
    requires
        call_ensures(
            WindowPattern::any_part_matches,
            (wanted, workspace, title, app_id),
            matches,
        ),
    ensures
        wanted == Some(workspace) ==> matches,
        title == Some(true) ==> matches,
        app_id == Some(true) ==> matches,
        wanted != Some(workspace) && title != Some(true) && app_id != Some(true) ==> !matches,
{
}

/// A pattern has the parts that it is made of, and can be made exactly if each expression in it is
/// one; if not, it is told which one is not, the title first.
pub proof fn patterns_are_made_of_their_parts(
    workspace: Option<usize>,
    title: Option<String>,
    app_id: Option<String>,
    made: Result<WindowPattern, InvalidRegex>,
)
    requires
        call_ensures(WindowPattern::new, (workspace, title, app_id), made),
    ensures
        ({
            let good_title = title is None || regex_is_valid(title->0@);
            let good_app_id = app_id is None || regex_is_valid(app_id->0@);
            &&& good_title && good_app_id <==> made is Ok
            &&& !good_title ==> made == Err::<WindowPattern, InvalidRegex>(InvalidRegex::Title)
            &&& good_title && !good_app_id ==> made == Err::<WindowPattern, InvalidRegex>(
                InvalidRegex::AppId,
            )
            &&& made matches Ok(pattern) ==> {
                &&& pattern.spec_workspace() == workspace
                &&& pattern.spec_title() is Some <==> title is Some
                &&& pattern.spec_app_id() is Some <==> app_id is Some
                &&& title matches Some(text) ==> pattern.spec_title() == Some(text@)
                &&& app_id matches Some(text) ==> pattern.spec_app_id() == Some(text@)
            }
        }),
{
}

/// The parts of a pattern are told as they are.
pub proof fn parts_of_patterns_are_told(
    pattern: &WindowPattern,
    workspace: Option<usize>,
    title: Option<String>,
    app_id: Option<String>,
)
    requires
        call_ensures(WindowPattern::workspace, (pattern,), workspace),
        call_ensures(WindowPattern::title, (pattern,), title),
        call_ensures(WindowPattern::app_id, (pattern,), app_id),
    ensures
        workspace == pattern.spec_workspace(),
        title is Some <==> pattern.spec_title() is Some,
        title matches Some(text) ==> pattern.spec_title() == Some(text@),
        app_id is Some <==> pattern.spec_app_id() is Some,
        app_id matches Some(text) ==> pattern.spec_app_id() == Some(text@),
{
}

} // verus!
