//! What holds of the session whatever commands are run on it.

use crate::error::ErrorView;
use crate::globber::{may_glob_to, selection};
use crate::session::{window, ModeView, Session};
use crate::text::{find, lemma_find_contains, lemma_find_from, lemma_find_is_first, unescaped};
use vstd::prelude::*;

verus! {

/// The window never shows more images than there are, and shows at least
/// one where there is one.
pub proof fn lemma_window_bounds(requested_max: nat, count: nat)
    ensures
        window(requested_max, count) <= count,
        count > 0 ==> window(requested_max, count) > 0,
        requested_max > 0 ==> window(requested_max, count) <= requested_max,
{
}

/// Every command keeps the session well-formed: the window is what the cap
/// and the number of images make it, and the selection lies inside it.
pub proof fn lemma_commands_keep_wf(
    s: Session,
    images: Seq<Seq<char>>,
    found_dir: Option<Seq<char>>,
    path: Seq<char>,
    max: nat,
    error: ErrorView,
    mode: ModeView,
)
    requires
        s.wf(),
    ensures
        s.showing(images).wf(),
        s.loaded(images, found_dir).wf(),
        s.reversed().wf(),
        s.with_dest_folder(path).wf(),
        s.with_maximum(max).wf(),
        s.help_toggled().wf(),
        s.refused(error).wf(),
        s.in_mode(mode).wf(),
        s.entered().wf(),
{
    if s.images.len() > 0 {
        lemma_find_from(images, s.images[s.index as int], 0);
    }
}

/// When new images are shown, the selection stays on the image that was
/// selected, at its first place among them, provided that place is shown;
/// in every other case it goes to the front.
pub proof fn lemma_selection_follows(s: Session, images: Seq<Seq<char>>)
    requires
        s.wf(),
        s.images.len() > 0,
    ensures
        ({
            let target = s.images[s.index as int];
            let place = find(images, target);
            let after = s.showing(images);
            &&& images.contains(target) && place < after.viewable_window ==> after.index == place
                && images[after.index as int] == target
            &&& !images.contains(target) ==> after.index == 0
            &&& place >= after.viewable_window ==> after.index == 0
        }),
{
    let target = s.images[s.index as int];
    lemma_find_from(images, target, 0);
    lemma_find_contains(images, target);
}

/// Sorting again by an order that leaves sorted images as they are changes
/// nothing: the images keep their order, and the selection stays on the
/// same image.
pub proof fn lemma_sort_is_idempotent(s: Session, sorted: Seq<Seq<char>>)
    requires
        s.wf(),
    ensures
        s.showing(sorted).showing(sorted) == s.showing(sorted),
{
    let once = s.showing(sorted);
    let shown = window(s.requested_max, sorted.len());
    if s.images.len() > 0 {
        lemma_find_from(sorted, s.images[s.index as int], 0);
    }
    if sorted.len() > 0 {
        assert(once.index < sorted.len() && once.index < shown);
        let target = sorted[once.index as int];
        if s.images.len() > 0 && once.index != 0 {
            lemma_find_from(sorted, s.images[s.index as int], 0);
            assert(target == s.images[s.index as int]);
        } else {
            assert(once.index == 0);
            lemma_find_is_first(sorted, target, 0);
        }
        assert(find(sorted, target) == once.index);
    }
}

/// Lifting the cap shows every image.
pub proof fn lemma_no_cap_shows_all(s: Session)
    ensures
        s.with_maximum(0).viewable_window == s.images.len(),
{
}

/// A cap that the images exceed becomes the window, and a selection beyond
/// it moves to the last place shown.
pub proof fn lemma_cap_clamps(s: Session, max: nat)
    requires
        s.wf(),
        0 < max <= s.images.len(),
    ensures
        s.with_maximum(max).viewable_window == max,
        s.index >= max ==> s.with_maximum(max).index == max - 1,
        s.index < max ==> s.with_maximum(max).index == s.index,
{
}

/// Once the user has chosen the destination folder, loading a glob leaves
/// it alone, whatever becomes of the base directory; and no command takes
/// the choice back.
pub proof fn lemma_dest_folder_choice_stays(
    s: Session,
    path: Seq<char>,
    images: Seq<Seq<char>>,
    found_dir: Option<Seq<char>>,
    max: nat,
    error: ErrorView,
    mode: ModeView,
)
    ensures
        s.with_dest_folder(path).dest_folder_overridden,
        s.with_dest_folder(path).loaded(images, found_dir).dest_folder == unescaped(path),
        s.dest_folder_overridden ==> {
            &&& s.loaded(images, found_dir).dest_folder == s.dest_folder
            &&& s.loaded(images, found_dir).dest_folder_overridden
            &&& s.showing(images).dest_folder_overridden
            &&& s.reversed().dest_folder_overridden
            &&& s.with_maximum(max).dest_folder_overridden
            &&& s.help_toggled().dest_folder_overridden
            &&& s.refused(error).dest_folder_overridden
            &&& s.in_mode(mode).dest_folder_overridden
            &&& s.entered().dest_folder_overridden
        },
{
}

/// Reversing mirrors the selection inside the window; where every image is
/// shown, the image that was selected stays selected.
pub proof fn lemma_reverse_mirrors(s: Session)
    requires
        s.wf(),
        s.images.len() > 0,
    ensures
        s.reversed().index == s.viewable_window - s.index - 1,
        s.viewable_window == s.images.len() ==> s.reversed().images[s.reversed().index as int]
            == s.images[s.index as int],
{
}

/// A glob that matches nothing counts as several arguments where its text
/// holds a space, and as a path without images where it holds none.
pub proof fn lemma_empty_glob(path: Seq<char>, keep: Seq<bool>)
    ensures
        selection(path, Seq::empty(), keep) == if path.contains(' ') {
            Err::<Seq<Seq<char>>, ErrorView>(ErrorView::TooManyArguments)
        } else {
            Err(ErrorView::NoImagesFound { path })
        },
{
}

/// A glob that succeeds gives at least one image.
pub proof fn lemma_glob_is_never_empty<F: Fn(&String) -> bool>(
    path: Seq<char>,
    is_image: &F,
    images: Seq<Seq<char>>,
)
    requires
        may_glob_to(path, is_image, Ok(images)),
    ensures
        images.len() > 0,
{
}

} // verus!
