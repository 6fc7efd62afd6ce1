//! What the updater prints: each line with its text and the stream it goes to.
use vstd::prelude::*;
use crate::command::{args_of, tool_name, views, GitCall};

verus! {

/// One line of output; `to_stderr` sends it to standard error rather than
/// standard output.
pub struct Line {
    pub to_stderr: bool,
    pub text: String,
}

impl View for Line {
    type V = (bool, Seq<char>);

    open spec fn view(&self) -> (bool, Seq<char>) {
        (self.to_stderr, self.text@)
    }
}

/// The views of the lines in `v`.
pub open spec fn line_views(v: Seq<Line>) -> Seq<(bool, Seq<char>)> {
    v.map_values(|l: Line| l@)
}

pub open spec fn tool_missing_text() -> Seq<char> {
    "Error: Git is not installed."@
}

pub open spec fn not_a_repository_text() -> Seq<char> {
    "Error: Not inside a Git repository."@
}

pub open spec fn branch_missing_text(t: Seq<char>) -> Seq<char> {
    "Error: Branch '"@ + t + "' does not exist on remote 'origin'."@
}

pub open spec fn default_branch_text(d: Seq<char>) -> Seq<char> {
    "The default branch on remote 'origin' is '"@ + d + "'."@
}

pub open spec fn choose_branch_text() -> Seq<char> {
    "Please specify the branch to rebase onto:"@
}

pub open spec fn example_text(d: Seq<char>) -> Seq<char> {
    "Example: up_branch "@ + d
}

pub open spec fn no_default_text() -> Seq<char> {
    "Could not determine the default branch on remote 'origin'."@
}

pub open spec fn specify_branch_text() -> Seq<char> {
    "Please specify the branch to rebase onto."@
}

pub open spec fn stashing_text() -> Seq<char> {
    "Stashing uncommitted changes, including untracked files."@
}

pub open spec fn nothing_to_stash_text() -> Seq<char> {
    "No uncommitted changes to stash."@
}

pub open spec fn stash_failed_text() -> Seq<char> {
    "Failed to stash changes."@
}

pub open spec fn fetching_text() -> Seq<char> {
    "Fetching updates from origin..."@
}

pub open spec fn update_failed_text(t: Seq<char>) -> Seq<char> {
    "Failed to switch to branch '"@ + t + "' or pull latest changes."@
}

pub open spec fn restoring_text() -> Seq<char> {
    "Restoring stashed changes."@
}

pub open spec fn rebasing_text(c: Seq<char>, t: Seq<char>) -> Seq<char> {
    "Rebasing '"@ + c + "' onto 'origin/"@ + t + "'."@
}

pub open spec fn rebase_conflict_text() -> Seq<char> {
    "Merge conflicts detected during rebase. Please resolve them and continue."@
}

pub open spec fn pop_conflict_text() -> Seq<char> {
    "Merge conflicts detected when applying stashed changes. Please resolve them and continue."@
}

pub open spec fn success_text(c: Seq<char>, t: Seq<char>) -> Seq<char> {
    "Successfully rebased '"@ + c + "' onto 'origin/"@ + t + "'."@
}

/// What `{:?}` prints for the string `s`: `s` in double quotes, with
/// quotes, backslashes, control and other unprintable characters escaped.
pub uninterp spec fn debug_form(s: Seq<char>) -> Seq<char>;

/// The items of `a`, separated by a comma and a space.
pub open spec fn joined(a: Seq<Seq<char>>) -> Seq<char>
    decreases a.len(),
{
    if a.len() == 0 {
        Seq::empty()
    } else if a.len() == 1 {
        a[0]
    } else {
        joined(a.drop_last()) + ", "@ + a.last()
    }
}

/// The items of `a` between square brackets, separated by a comma and a space.
pub open spec fn bracketed(a: Seq<Seq<char>>) -> Seq<char> {
    "["@ + joined(a) + "]"@
}

/// An argument list as it is shown in error messages: `["a", "b"]`.
pub open spec fn arg_list(a: Seq<Seq<char>>) -> Seq<char> {
    bracketed(a.map_values(|x: Seq<char>| debug_form(x)))
}

/// The error for call `c` that ran and reported failure.
pub open spec fn call_failed_text(c: GitCall, t: Seq<char>) -> Seq<char> {
    "Command `"@ + tool_name() + "` with arguments "@ + arg_list(args_of(c, t)) + " failed."@
}

/// The error for call `c` that could not be started.
pub open spec fn call_not_run_text(c: GitCall, t: Seq<char>) -> Seq<char> {
    "Failed to execute command: "@ + tool_name() + " "@ + arg_list(args_of(c, t))
}

/// A line to standard output.
pub fn out(text: String) -> (r: Line)
    ensures
        r@ == (false, text@),
{
    Line { to_stderr: false, text }
}

/// A line to standard error.
pub fn err(text: String) -> (r: Line)
    ensures
        r@ == (true, text@),
{
    Line { to_stderr: true, text }
}

/// Relies on `<str as Debug>::fmt`, through `format!("{:?}", ..)`, for the
/// quoted and escaped form of `a`; it depends on the characters of `a` alone.
#[verifier::external_body]
fn debug_quote(a: &str) -> (r: String)
    ensures
        r@ == debug_form(a@),
{
    format!("{:?}", a)
}

/// `items` between square brackets, separated by a comma and a space.
pub fn bracket_list(items: &Vec<String>) -> (r: String)
    ensures
        r@ == bracketed(views(items@)),
{
    let mut r = String::new();
    let mut i: usize = 0;
    while i < items.len()
        invariant
            i <= items@.len(),
            r@ == joined(views(items@).subrange(0, i as int)),
        decreases items@.len() - i,
    {
        let ghost before = views(items@).subrange(0, i as int);
        if i > 0 {
            r.append(", ");
        }
        r.append(items[i].as_str());
        proof {
            let now = views(items@).subrange(0, i + 1);
            assert(now.drop_last() =~= before);
            if i == 0 {
                assert(r@ =~= now[0]);
            } else {
                assert(r@ =~= joined(before) + ", "@ + now.last());
            }
        }
        i = i + 1;
    }
    assert(views(items@).subrange(0, items@.len() as int) =~= views(items@));
    String::from_str("[").concat(r.as_str()).concat("]")
}

/// `a` shown as `{:?}` shows a list of strings: each argument quoted and
/// escaped, between square brackets.
pub fn render_args(a: &Vec<String>) -> (r: String)
    ensures
        r@ == arg_list(views(a@)),
{
    let mut shown: Vec<String> = Vec::new();
    let mut i: usize = 0;
    while i < a.len()
        invariant
            i <= a@.len(),
            shown@.len() == i,
            views(shown@) == views(a@).subrange(0, i as int).map_values(
                |x: Seq<char>| debug_form(x),
            ),
        decreases a@.len() - i,
    {
        let ghost prev = shown@;
        shown.push(debug_quote(a[i].as_str()));
        proof {
            let want = views(a@).subrange(0, i + 1).map_values(|x: Seq<char>| debug_form(x));
            let had = views(a@).subrange(0, i as int).map_values(|x: Seq<char>| debug_form(x));
            assert forall|k: int| 0 <= k < i + 1 implies #[trigger] views(shown@)[k] == want[k] by {
                if k < i {
                    assert(shown@[k] == prev[k]);
                    assert(views(prev)[k] == had[k]);
                }
            }
            assert(views(shown@) =~= want);
        }
        i = i + 1;
    }
    assert(views(a@).subrange(0, a@.len() as int) =~= views(a@));
    bracket_list(&shown)
}

/// The error for `call` that ran and failed, with target branch `target`.
pub fn call_failed(call: GitCall, target: &str) -> (r: String)
    ensures
        r@ == call_failed_text(call, target@),
{
    let list = render_args(&call.args(target));
    String::from_str("Command `").concat(GitCall::program()).concat("` with arguments ").concat(
        list.as_str(),
    ).concat(" failed.")
}

/// The error for `call` that could not be started.
pub fn call_not_run(call: GitCall, target: &str) -> (r: String)
    ensures
        r@ == call_not_run_text(call, target@),
{
    let list = render_args(&call.args(target));
    String::from_str("Failed to execute command: ").concat(GitCall::program()).concat(" ").concat(
        list.as_str(),
    )
}

/// The first line that names a missing target branch.
pub fn branch_missing(t: &str) -> (r: String)
    ensures
        r@ == branch_missing_text(t@),
{
    String::from_str("Error: Branch '").concat(t).concat("' does not exist on remote 'origin'.")
}

pub fn default_branch_line(d: &str) -> (r: String)
    ensures
        r@ == default_branch_text(d@),
{
    String::from_str("The default branch on remote 'origin' is '").concat(d).concat("'.")
}

pub fn example(d: &str) -> (r: String)
    ensures
        r@ == example_text(d@),
{
    String::from_str("Example: up_branch ").concat(d)
}

pub fn update_failed(t: &str) -> (r: String)
    ensures
        r@ == update_failed_text(t@),
{
    String::from_str("Failed to switch to branch '").concat(t).concat("' or pull latest changes.")
}

pub fn rebasing(c: &str, t: &str) -> (r: String)
    ensures
        r@ == rebasing_text(c@, t@),
{
    String::from_str("Rebasing '").concat(c).concat("' onto 'origin/").concat(t).concat("'.")
}

pub fn success(c: &str, t: &str) -> (r: String)
    ensures
        r@ == success_text(c@, t@),
{
    String::from_str("Successfully rebased '").concat(c).concat("' onto 'origin/").concat(t).concat(
        "'.",
    )
}

} // verus!
