//! From a path or pattern to the images that it names.

use crate::error::{CommandError, ErrorView};
use crate::path::{convert_path_to_globable, has_variable};
use crate::text::{find_char, texts};
use vstd::prelude::*;

verus! {

/// What a glob gives for one path that it matched: the path, or why the
/// path could not be read.
pub type Entry = Result<String, String>;

/// An `Entry` by its characters.
pub type EntryText = Result<Seq<char>, Seq<char>>;

/// The entries of a list, each by its characters.
pub open spec fn entry_texts(entries: Seq<Entry>) -> Seq<EntryText> {
    entries.map_values(
        |entry: Entry|
            match entry {
                Ok(path) => Ok(path@),
                Err(reason) => Err(reason@),
            },
    )
}

/// Expands a glob pattern into what it matches on disk, by `glob::glob`,
/// which is walked to its end.
///
/// What is matched depends on the disk, so only the kind of the error is
/// claimed: the pattern was turned down as malformed.
#[verifier::external_body]
pub(crate) fn glob_entries(pattern: &str) -> (entries: Result<Vec<Entry>, CommandError>)
    ensures
        entries matches Err(error) ==> error@ is PatternError,
{
    match glob::glob(pattern) {
        Ok(paths) => Ok(
            paths.map(
                |entry|
                    match entry {
                        Ok(path) => Ok(path.to_string_lossy().into_owned()),
                        Err(error) => Err(error.to_string()),
                    },
            ).collect(),
        ),
        Err(error) => Err(CommandError::PatternError { message: error.to_string() }),
    }
}

/// The position of the first entry among the first `n` that could not be
/// read, or `n` where all of them could.
pub open spec fn first_failure(entries: Seq<EntryText>, n: int) -> int
    decreases n,
{
    if n <= 0 {
        0
    } else if first_failure(entries, n - 1) < n - 1 || entries[n - 1] is Err {
        first_failure(entries, n - 1)
    } else {
        n
    }
}

/// The paths among the first `n` entries that were read and that `keep` marks,
/// in their order.
pub open spec fn kept(entries: Seq<EntryText>, keep: Seq<bool>, n: int) -> Seq<Seq<char>>
    decreases n,
{
    if n <= 0 {
        Seq::empty()
    } else if entries[n - 1] is Ok && keep[n - 1] {
        kept(entries, keep, n - 1).push(entries[n - 1]->Ok_0)
    } else {
        kept(entries, keep, n - 1)
    }
}

/// What a glob of `path` comes to, given the entries that it matched and, in
/// `keep`, which of them are images.
///
/// An entry that could not be read fails the whole glob, with the reason of
/// the first such entry. Else the images are the marked entries, in their
/// order. Where there is none, a `path` that holds a space counts as several
/// arguments, and any other as a path without images.
pub open spec fn selection(path: Seq<char>, entries: Seq<EntryText>, keep: Seq<bool>) -> Result<
    Seq<Seq<char>>,
    ErrorView,
> {
    let failure = first_failure(entries, entries.len() as int);
    let images = kept(entries, keep, entries.len() as int);
    if failure < entries.len() {
        Err(ErrorView::UnexpectedPath { message: entries[failure]->Err_0 })
    } else if images.len() > 0 {
        Ok(images)
    } else if path.contains(' ') {
        Err(ErrorView::TooManyArguments)
    } else {
        Err(ErrorView::NoImagesFound { path })
    }
}

/// The outcome of a glob as contracts speak of it.
pub open spec fn outcome(found: Result<Vec<String>, CommandError>) -> Result<
    Seq<Seq<char>>,
    ErrorView,
> {
    match found {
        Ok(images) => Ok(texts(images@)),
        Err(error) => Err(error@),
    }
}

/// Whether `keep` holds, for each entry before the first that could not be
/// read, an answer that `is_image` may give for its path.
pub open spec fn classifies<F: Fn(&String) -> bool>(
    is_image: &F,
    entries: Seq<Entry>,
    keep: Seq<bool>,
) -> bool {
    &&& keep.len() == entries.len()
    &&& forall|i: int|
        0 <= i < first_failure(entry_texts(entries), entries.len() as int) ==> (
        #[trigger] entries[i]) is Ok && call_ensures(is_image, (&entries[i]->Ok_0,), keep[i])
}

/// Once an entry fails, later entries do not move the first failure.
pub proof fn lemma_first_failure_stays(entries: Seq<EntryText>, k: int, n: int)
    requires
        0 <= k < n <= entries.len(),
        first_failure(entries, k + 1) == k,
    ensures
        first_failure(entries, n) == k,
    decreases n,
{
    if n > k + 1 {
        lemma_first_failure_stays(entries, k, n - 1);
    }
}

/// Picks the images among the entries that a glob of `path` matched.
///
/// `is_image` is asked of each entry in turn, up to the first that could not
/// be read. The outcome is `selection` of the entries and of its answers.
pub fn collect_images<F: Fn(&String) -> bool>(path: &str, entries: &Vec<Entry>, is_image: &F) -> (found:
    Result<Vec<String>, CommandError>)
    requires
        forall|p: &String| call_requires(is_image, (p,)),
    ensures
        exists|keep: Seq<bool>| #[trigger]
            classifies(is_image, entries@, keep) && outcome(found) == selection(
                path@,
                entry_texts(entries@),
                keep,
            ),
{
    let ghost all = entry_texts(entries@);
    let ghost mut keep: Seq<bool> = Seq::empty();
    let mut images: Vec<String> = Vec::new();
    let n = entries.len();
    let mut i: usize = 0;
    while i < n
        invariant
            n == entries.len(),
            all == entry_texts(entries@),
            0 <= i <= n,
            keep.len() == i,
            first_failure(all, i as int) == i,
            forall|p: &String| call_requires(is_image, (p,)),
            forall|j: int|
                0 <= j < i ==> (#[trigger] entries@[j]) is Ok && call_ensures(
                    is_image,
                    (&entries@[j]->Ok_0,),
                    keep[j],
                ),
            texts(images@) == kept(all, keep, i as int),
        decreases n - i,
    {
        let ghost before = keep;
        match &entries[i] {
            Ok(path_found) => {
                let is_one = is_image(path_found);
                proof {
                    keep = keep.push(is_one);
                    lemma_kept_ignores_later(all, before, keep, i as int);
                    assert(all[i as int] is Ok);
                }
                if is_one {
                    images.push(path_found.clone());
                    assert(texts(images@) =~= kept(all, keep, i + 1));
                }
            },
            Err(reason) => {
                proof {
                    let rest = Seq::new((n - i) as nat, |j: int| false);
                    let full = keep + rest;
                    assert(all[i as int] is Err);
                    assert(first_failure(all, i + 1) == i);
                    lemma_first_failure_stays(all, i as int, n as int);
                    assert(classifies(is_image, entries@, full));
                    assert(all[i as int]->Err_0 == reason@);
                }
                return Err(CommandError::UnexpectedPath { message: reason.clone() });
            },
        }
        i += 1;
    }
    assert(first_failure(entry_texts(entries@), entries@.len() as int) == n);
    assert(classifies(is_image, entries@, keep));
    if images.len() > 0 {
        Ok(images)
    } else if find_char(path, ' ') < path.unicode_len() {
        proof {
            crate::text::lemma_find_contains(path@, ' ');
        }
        Err(CommandError::TooManyArguments)
    } else {
        proof {
            crate::text::lemma_find_contains(path@, ' ');
        }
        Err(CommandError::NoImagesFound { path: String::from_str(path) })
    }
}

/// `kept` of the first `n` entries looks at the first `n` marks only.
pub proof fn lemma_kept_ignores_later(
    entries: Seq<EntryText>,
    keep: Seq<bool>,
    longer: Seq<bool>,
    n: int,
)
    requires
        0 <= n <= keep.len() <= longer.len(),
        forall|j: int| 0 <= j < n ==> keep[j] == longer[j],
    ensures
        kept(entries, keep, n) == kept(entries, longer, n),
    decreases n,
{
    if n > 0 {
        lemma_kept_ignores_later(entries, keep, longer, n - 1);
    }
}

/// Whether a glob of `path`, with `is_image` to tell the images, can come
/// to `result`, whatever the environment and the disk hold: a variable that
/// cannot be looked up, which takes a `$` in `path`; a malformed pattern; or
/// the `selection` of some entries and of what `is_image` may say of them.
/// So a glob never comes to an empty list of images.
pub open spec fn may_glob_to<F: Fn(&String) -> bool>(
    path: Seq<char>,
    is_image: &F,
    result: Result<Seq<Seq<char>>, ErrorView>,
) -> bool {
    ||| result matches Err(error) && error is UndefinedVariable && has_variable(path)
    ||| result matches Err(error) && error is PatternError
    ||| exists|entries: Seq<Entry>, keep: Seq<bool>| #[trigger]
        classifies(is_image, entries, keep) && result == selection(
            path,
            entry_texts(entries),
            keep,
        )
}

/// Globs `path` and keeps the images among what it matches.
///
/// `path` is first made fit for globbing. A variable that cannot be looked
/// up or a malformed pattern ends it there. Else the outcome is `selection`
/// of `path`, of whatever the disk gave and of whatever `is_image` said.
pub fn glob_path<F: Fn(&String) -> bool>(path: &str, is_image: &F) -> (found: Result<
    Vec<String>,
    CommandError,
>)
    requires
        forall|p: &String| call_requires(is_image, (p,)),
    ensures
        may_glob_to(path@, is_image, outcome(found)),
{
    let globable_path = match convert_path_to_globable(path) {
        Ok(pattern) => pattern,
        Err(error) => {
            return Err(error);
        },
    };
    let entries = match glob_entries(globable_path.as_str()) {
        Ok(entries) => entries,
        Err(error) => {
            return Err(error);
        },
    };
    collect_images(path, &entries, is_image)
}

} // verus!
