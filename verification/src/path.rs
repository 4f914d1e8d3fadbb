//! Paths as the user types them: references to variables and to the home
//! directory are expanded, escaped spaces are made plain, and a directory is
//! turned into a pattern for its children.
//!
//! A path is a text whose components are separated by `/`.

use crate::error::CommandError;
use crate::text::{unescape_spaces, unescaped};
use vstd::prelude::*;

verus! {

/// Whether `path` refers to a variable, or may: whether it holds a `$`.
pub open spec fn has_variable(path: Seq<char>) -> bool {
    path.contains('$')
}

/// Whether `path` holds nothing to expand: no `$`, and no `~` in front.
pub open spec fn expands_to_itself(path: Seq<char>) -> bool {
    !has_variable(path) && (path.len() == 0 || path[0] != '~')
}

/// Expands the references to variables and to the home directory in `path`,
/// by `shellexpand::full`.
///
/// The result depends on the environment, so little is claimed of it: a path
/// without `$` is never turned down, one that also has no `~` in front comes
/// back as it is, and the only error is that of a variable that could not be
/// looked up.
#[verifier::external_body]
pub(crate) fn expand(path: &str) -> (expanded: Result<String, CommandError>)
    ensures
        expanded is Ok || has_variable(path@),
        expands_to_itself(path@) ==> expanded.is_ok() && expanded.unwrap()@ == path@,
        expanded matches Err(error) ==> error@ is UndefinedVariable,
{
    match shellexpand::full(path) {
        Ok(text) => Ok(text.into_owned()),
        Err(error) => Err(
            CommandError::UndefinedVariable {
                name: error.var_name,
                cause: error.cause.to_string(),
            },
        ),
    }
}

/// Whether `path` names a directory that exists now, by `std::path::Path::is_dir`.
///
/// Nothing is claimed of the answer: it is what the disk holds at the moment
/// of the call.
#[verifier::external_body]
pub(crate) fn is_directory(path: &str) -> (yes: bool) {
    std::path::Path::new(path).is_dir()
}

/// What is found of a directory, by its characters.
pub open spec fn dir_text(found: Option<String>) -> Option<Seq<char>> {
    match found {
        Some(dir) => Some(dir@),
        None => None,
    }
}

/// `path` without its last component, as `std::path::Path::parent` gives
/// it; none where `path` is empty or ends in the root.
pub uninterp spec fn parent_text(path: Seq<char>) -> Option<Seq<char>>;

/// `path` without its last component, by `std::path::Path::parent`.
///
/// Claimed: the result depends on the characters of `path` alone, and a
/// parent is a beginning of `path`, shorter than it.
#[verifier::external_body]
pub(crate) fn parent_of(path: &str) -> (parent: Option<String>)
    ensures
        dir_text(parent) == parent_text(path@),
        parent matches Some(p) ==> p@.len() < path@.len() && p@.is_prefix_of(path@),
{
    std::path::Path::new(path).parent().map(|p| p.to_string_lossy().into_owned())
}

/// The path that is `n` steps above `path`: `path` itself, its parent, the
/// parent of that, and so on; none once the steps have gone past the top.
pub open spec fn ancestor(path: Seq<char>, n: nat) -> Option<Seq<char>>
    decreases n,
{
    if n == 0 {
        Some(path)
    } else {
        match ancestor(path, (n - 1) as nat) {
            Some(below) => parent_text(below),
            None => None,
        }
    }
}

/// Whether going up from `path` ends after `n` steps at `found`: there is a
/// path at every step before, and at step `n` stands the one that was found,
/// or, where none was found, the steps have gone past the top.
pub open spec fn reached(path: Seq<char>, n: nat, found: Option<Seq<char>>) -> bool {
    &&& forall|k: nat| k < n ==> (#[trigger] ancestor(path, k)) is Some
    &&& ancestor(path, n) == found
}

/// Whether `probe`, asked of `path`, may answer `answer`.
pub open spec fn answers<F: Fn(&String) -> bool>(probe: &F, path: Seq<char>, answer: bool) -> bool {
    exists|asked: String| asked@ == path && #[trigger] call_ensures(probe, (&asked,), answer)
}

/// Whether going up from `path` ends after `n` steps with `found`: `probe`
/// said no to every path on the way, and then either said yes to the one
/// that was found, or there was no path left to ask of.
pub open spec fn found_after<F: Fn(&String) -> bool>(
    probe: &F,
    path: Seq<char>,
    n: nat,
    found: Option<Seq<char>>,
) -> bool {
    &&& forall|k: nat|
        k < n ==> (#[trigger] ancestor(path, k)) is Some && answers(
            probe,
            ancestor(path, k)->Some_0,
            false,
        )
    &&& match found {
        Some(dir) => ancestor(path, n) == Some(dir) && answers(probe, dir, true),
        None => ancestor(path, n) is None,
    }
}

/// Whether `found` is the nearest path at or above `path` that `probe`
/// accepts, or none where it accepts none of them.
pub open spec fn is_nearest<F: Fn(&String) -> bool>(
    probe: &F,
    path: Seq<char>,
    found: Option<Seq<char>>,
) -> bool {
    exists|n: nat| found_after(probe, path, n, found)
}

/// The path of `name` inside the directory `dir`. An empty `dir` is the
/// directory that relative paths start from, and a `name` that starts at the
/// root stays where it is.
pub open spec fn joined(dir: Seq<char>, name: Seq<char>) -> Seq<char> {
    if dir.len() == 0 || (name.len() > 0 && name[0] == '/') {
        name
    } else if dir.last() == '/' {
        dir + name
    } else {
        dir + seq!['/'] + name
    }
}

/// The path of `name` inside the directory `dir`.
pub fn child_path(dir: &str, name: &str) -> (child: String)
    ensures
        child@ == joined(dir@, name@),
{
    let dir_length = dir.unicode_len();
    let name_length = name.unicode_len();
    if dir_length == 0 || (name_length > 0 && name.get_char(0) == '/') {
        String::from_str(name)
    } else if dir.get_char(dir_length - 1) == '/' {
        String::from_str(dir).concat(name)
    } else {
        proof {
            reveal_strlit("/");
            assert("/"@ == seq!['/']);
        }
        String::from_str(dir).concat("/").concat(name)
    }
}

/// What a glob is made from: the expanded path with its escaped spaces made
/// plain and, where that names a directory, a pattern for all its children.
pub open spec fn globable_text(expanded: Seq<char>, is_dir: bool) -> Seq<char> {
    if is_dir {
        joined(unescaped(expanded), seq!['*'])
    } else {
        unescaped(expanded)
    }
}

/// Makes an expanded path fit for globbing, given whether, with its escaped
/// spaces made plain, it names a directory.
pub fn globable_form(expanded: &str, is_dir: bool) -> (pattern: String)
    ensures
        pattern@ == globable_text(expanded@, is_dir),
{
    let plain = unescape_spaces(expanded);
    if is_dir {
        proof {
            reveal_strlit("*");
            assert("*"@ == seq!['*']);
        }
        child_path(plain.as_str(), "*")
    } else {
        plain
    }
}

/// Turns a path that the user typed into one that can be globbed: `/home/etc`,
/// a directory, becomes `/home/etc/*`.
///
/// A path without `$` is always converted. What comes back is
/// `globable_text` of the expansion, which for a path with nothing to expand
/// is the path itself, and of what the disk said of it. An error is a
/// variable that could not be looked up.
pub fn convert_path_to_globable(path: &str) -> (pattern: Result<String, CommandError>)
    ensures
        !has_variable(path@) ==> pattern is Ok,
        match pattern {
            Ok(text) => exists|expanded: Seq<char>, is_dir: bool|
                text@ == #[trigger] globable_text(expanded, is_dir) && (expands_to_itself(path@)
                    ==> expanded == path@),
            Err(error) => error@ is UndefinedVariable && has_variable(path@),
        },
{
    let expanded = expand(path)?;
    let is_dir = is_directory(unescape_spaces(expanded.as_str()).as_str());
    let text = globable_form(expanded.as_str(), is_dir);
    assert(text@ == globable_text(expanded@, is_dir));
    Ok(text)
}

/// The nearest path at or above `path` that `probe` accepts: `path` itself,
/// or else the first of its parents, going up, that it says yes to.
pub fn nearest_where<F: Fn(&String) -> bool>(path: String, probe: &F) -> (found: Option<String>)
    requires
        forall|asked: &String| call_requires(probe, (asked,)),
    ensures
        is_nearest(probe, path@, dir_text(found)),
        found matches Some(dir) ==> dir@.is_prefix_of(path@),
{
    let ghost whole = path@;
    let ghost mut steps: nat = 0;
    let mut current = path;
    loop
        invariant
            whole == path@,
            current@.is_prefix_of(whole),
            ancestor(whole, steps) == Some(current@),
            forall|asked: &String| call_requires(probe, (asked,)),
            forall|k: nat|
                k < steps ==> (#[trigger] ancestor(whole, k)) is Some && answers(
                    probe,
                    ancestor(whole, k)->Some_0,
                    false,
                ),
        decreases current@.len(),
    {
        if probe(&current) {
            assert(answers(probe, current@, true));
            assert(found_after(probe, whole, steps, Some(current@)));
            return Some(current);
        }
        assert(answers(probe, current@, false));
        match parent_of(current.as_str()) {
            Some(parent) => {
                assert(parent@.is_prefix_of(whole)) by {
                    assert(parent@ =~= whole.subrange(0, parent@.len() as int));
                }
                proof {
                    steps = steps + 1;
                }
                current = parent;
            },
            None => {
                assert(ancestor(whole, steps + 1) is None);
                assert(found_after(probe, whole, steps + 1, None));
                return None;
            },
        }
    }
}

/// The nearest directory at or above `path` that exists: `path` itself, or
/// else the first of its parents, going up, that the disk holds.
///
/// The disk is asked of `path`, then of its parent, and so on, one step up
/// at a time. Whatever it answers, the search ends at one of these paths,
/// which is then the directory found and a beginning of `path`, or it ends
/// past the topmost of them, with nothing found.
pub fn nearest_directory(path: String) -> (found: Option<String>)
    ensures
        exists|n: nat| reached(path@, n, dir_text(found)),
        found matches Some(dir) ==> dir@.is_prefix_of(path@),
{
    let on_disk = |asked: &String| -> (yes: bool) { is_directory(asked.as_str()) };
    let found = nearest_where(path, &on_disk);
    proof {
        let n = choose|n: nat| found_after(&on_disk, path@, n, dir_text(found));
        assert(reached(path@, n, dir_text(found)));
    }
    found
}

/// Whether `found` can be what the search for the directory that a new glob
/// `path` is anchored at comes to.
///
/// Either `path` could not be expanded, which takes a `$` in it, and nothing
/// is found. Or the search went up from the expansion of `path`, which for
/// a path with nothing to expand is the path itself, and ended at the
/// directory found, a beginning of the expansion, or past the topmost path
/// with nothing found.
pub open spec fn may_anchor_at(path: Seq<char>, found: Option<Seq<char>>) -> bool {
    ||| found is None && has_variable(path)
    ||| exists|expanded: Seq<char>, n: nat|
        {
            &&& #[trigger] reached(expanded, n, found)
            &&& found matches Some(dir) ==> dir.is_prefix_of(expanded)
            &&& expands_to_itself(path) ==> expanded == path
        }
}

/// The directory that a new glob is anchored at: the nearest existing
/// directory at or above the expansion of `new_path`. There is none where
/// `new_path` cannot be expanded or no such directory exists.
pub fn find_new_base_dir(new_path: &str) -> (found: Option<String>)
    ensures
        may_anchor_at(new_path@, dir_text(found)),
{
    match expand(new_path) {
        Ok(expanded) => {
            let ghost text = expanded@;
            let found = nearest_directory(expanded);
            proof {
                let n = choose|n: nat| reached(text, n, dir_text(found));
                assert(reached(text, n, dir_text(found)));
            }
            found
        },
        Err(_) => None,
    }
}

} // verus!
