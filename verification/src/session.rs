//! The session as contracts speak of it, and what each command makes of it.

use crate::error::ErrorView;
use crate::path::joined;
use crate::text::{find, unescaped};
use vstd::prelude::*;

verus! {

/// What the screen is asked to show of command mode.
pub ghost enum ModeView {
    /// Browsing; no command is being typed.
    Normal,
    /// A command is being typed; the text is what was typed so far.
    Command(Seq<char>),
    /// The last command was turned down; the text says why.
    Error(Seq<char>),
    /// The program is to end.
    Exit,
}

/// The number of images shown at once, of `count` images, where the user
/// asked for at most `requested_max`: zero asks for no cap, and a cap above
/// `count` is none either.
pub open spec fn window(requested_max: nat, count: nat) -> nat {
    if requested_max == 0 || requested_max > count {
        count
    } else {
        requested_max
    }
}

/// The state of a browsing session.
pub ghost struct Session {
    /// The images, in browsing order.
    pub images: Seq<Seq<char>>,
    /// The position of the selected image.
    pub index: nat,
    /// The cap that the user asked for; zero for none.
    pub requested_max: nat,
    /// The number of images shown at once.
    pub viewable_window: nat,
    /// The directory that relative globs start from.
    pub base_dir: Seq<char>,
    /// The folder that kept images go to.
    pub dest_folder: Seq<char>,
    /// Whether the user chose the destination folder.
    pub dest_folder_overridden: bool,
    /// What the screen shows of command mode.
    pub mode: ModeView,
    /// Whether the information bar is shown.
    pub show_infobar: bool,
    /// Whether the help is shown.
    pub show_help: bool,
}

/// The name of the folder, inside the base directory, that kept images go
/// to unless the user chooses another.
pub open spec fn keep_folder() -> Seq<char> {
    seq!['k', 'e', 'e', 'p']
}

impl Session {
    /// The viewable window is what the cap and the number of images make
    /// it, and the selection lies inside it; without images it is zero.
    pub open spec fn wf(self) -> bool {
        &&& self.viewable_window == window(self.requested_max, self.images.len())
        &&& self.images.len() > 0 ==> self.index < self.viewable_window
        &&& self.images.len() == 0 ==> self.index == 0
    }

    /// Where the selection goes when `images` take the place of the present
    /// ones, `shown` of them being shown at once: to the first place in
    /// `images` of the image selected now, if it has one among those shown,
    /// and else to the front.
    pub open spec fn relocated(self, images: Seq<Seq<char>>, shown: nat) -> nat {
        if self.images.len() == 0 || self.index >= self.images.len() {
            0
        } else {
            let place = find(images, self.images[self.index as int]);
            if place < images.len() && place < shown {
                place as nat
            } else {
                0
            }
        }
    }

    /// The session with `images` in place of the present ones: the window
    /// follows their number and the selection follows the selected image.
    pub open spec fn showing(self, images: Seq<Seq<char>>) -> Session {
        let shown = window(self.requested_max, images.len());
        Session {
            images,
            index: self.relocated(images, shown),
            viewable_window: shown,
            ..self
        }
    }

    /// The session after a command was turned down for `error`: only the
    /// mode changes, to the line that tells the user why.
    pub open spec fn refused(self, error: ErrorView) -> Session {
        Session { mode: ModeView::Error(error.message_text()), ..self }
    }

    /// The session after a glob was loaded: `sorted` are the images that it
    /// matched, in the order in use, and `found_dir` is the directory that
    /// the glob is anchored at, if one was found. The destination folder
    /// follows the base directory unless the user chose one.
    pub open spec fn loaded(self, sorted: Seq<Seq<char>>, found_dir: Option<Seq<char>>) -> Session {
        let base_dir = match found_dir {
            Some(dir) => dir,
            None => self.base_dir,
        };
        Session {
            base_dir,
            dest_folder: if self.dest_folder_overridden {
                self.dest_folder
            } else {
                joined(base_dir, keep_folder())
            },
            ..self.showing(sorted)
        }
    }

    /// The session with its images in reverse order. The selection is
    /// mirrored inside the window: the first place becomes the last that is
    /// shown.
    pub open spec fn reversed(self) -> Session {
        Session {
            images: self.images.reverse(),
            index: if self.index < self.viewable_window {
                (self.viewable_window - self.index - 1) as nat
            } else {
                0
            },
            ..self
        }
    }

    /// The session with the destination folder that the user chose:
    /// `expanded` is the path with its references expanded.
    pub open spec fn with_dest_folder(self, expanded: Seq<char>) -> Session {
        Session { dest_folder: unescaped(expanded), dest_folder_overridden: true, ..self }
    }

    /// The session with the cap `max` on the images shown at once. A
    /// selection that the new window leaves out moves to the last place in it.
    pub open spec fn with_maximum(self, max: nat) -> Session {
        let shown = window(max, self.images.len());
        Session {
            requested_max: max,
            viewable_window: shown,
            index: if self.index < shown {
                self.index
            } else if shown == 0 {
                0
            } else {
                (shown - 1) as nat
            },
            ..self
        }
    }

    /// The session with the help shown if it was hidden, and hidden if it
    /// was shown.
    pub open spec fn help_toggled(self) -> Session {
        Session { show_help: !self.show_help, ..self }
    }

    /// The session as command mode finds it once a line was read: the
    /// information bar is shown and the mode is back to normal.
    pub open spec fn entered(self) -> Session {
        Session { show_infobar: true, mode: ModeView::Normal, ..self }
    }

    /// The session in the mode `mode`.
    pub open spec fn in_mode(self, mode: ModeView) -> Session {
        Session { mode, ..self }
    }
}

} // verus!
