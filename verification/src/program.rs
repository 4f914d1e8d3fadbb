//! The program's session and the commands that change it.

use crate::command::{argument_text, command_word, parse_user_input, Commands};
use crate::error::{CommandError, ErrorView};
use crate::globber::{glob_path, may_glob_to, outcome};
use crate::path::{
    child_path, dir_text, expand, expands_to_itself, find_new_base_dir, joined, may_anchor_at,
};
use crate::reader::{erase_last, type_text, typed, Action, Reading};
use crate::session::{keep_folder, window, ModeView, Session};
use crate::text::{find, parse_count, parsed_count, texts, unescape_spaces, unescaped};
use vstd::prelude::*;

verus! {

/// What the screen is asked to show of command mode.
#[derive(Debug, PartialEq, Eq)]
pub enum Mode {
    /// Browsing; no command is being typed.
    Normal,
    /// A command is being typed; the text is what was typed so far.
    Command(String),
    /// The last command was turned down; the text says why.
    Error(String),
    /// The program is to end.
    Exit,
}

impl View for Mode {
    type V = ModeView;

    open spec fn view(&self) -> ModeView {
        match *self {
            Mode::Normal => ModeView::Normal,
            Mode::Command(typed) => ModeView::Command(typed@),
            Mode::Error(line) => ModeView::Error(line@),
            Mode::Exit => ModeView::Exit,
        }
    }
}

/// The session of the program: its images, the selection among them, and
/// how they are ordered. `O` is the kind of order that the images can be
/// sorted by.
pub struct Program<O> {
    images: Vec<String>,
    index: usize,
    requested_max: usize,
    viewable_window: usize,
    base_dir: String,
    dest_folder: String,
    dest_folder_overridden: bool,
    sort_order: O,
    mode: Mode,
    show_infobar: bool,
    show_help: bool,
}

impl<O> View for Program<O> {
    type V = Session;

    closed spec fn view(&self) -> Session {
        Session {
            images: texts(self.images@),
            index: self.index as nat,
            requested_max: self.requested_max as nat,
            viewable_window: self.viewable_window as nat,
            base_dir: self.base_dir@,
            dest_folder: self.dest_folder@,
            dest_folder_overridden: self.dest_folder_overridden,
            mode: self.mode@,
            show_infobar: self.show_infobar,
            show_help: self.show_help,
        }
    }
}

/// The number of images shown at once, of `count` images under the cap
/// `requested_max`.
pub fn window_of(requested_max: usize, count: usize) -> (shown: usize)
    ensures
        shown == window(requested_max as nat, count as nat),
{
    if requested_max == 0 || requested_max > count {
        count
    } else {
        requested_max
    }
}

/// The first place of `target` in `images`, or their number where it is
/// not among them.
pub fn locate(images: &Vec<String>, target: &String) -> (place: usize)
    ensures
        place == find(texts(images@), target@),
        place <= images.len(),
{
    let n = images.len();
    let mut i: usize = 0;
    while i < n
        invariant
            n == images.len(),
            0 <= i <= n,
            crate::text::find_from(texts(images@), target@, i as int) == find(
                texts(images@),
                target@,
            ),
        decreases n - i,
    {
        if images[i] == *target {
            return i;
        }
        i += 1;
    }
    i
}

/// The list in reverse order.
pub fn reversed_list(list: Vec<String>) -> (turned: Vec<String>)
    ensures
        turned@ == list@.reverse(),
{
    let ghost whole = list@;
    let mut rest = list;
    let mut turned: Vec<String> = Vec::new();
    while rest.len() > 0
        invariant
            rest@ == whole.take(rest.len() as int),
            rest.len() <= whole.len(),
            turned@ == whole.subrange(rest.len() as int, whole.len() as int).reverse(),
        decreases rest.len(),
    {
        let ghost k = rest.len() as int;
        let last = rest.pop().unwrap();
        turned.push(last);
        assert(turned@ =~= whole.subrange(k - 1, whole.len() as int).reverse());
        assert(rest@ =~= whole.take(k - 1));
    }
    assert(whole.subrange(0, whole.len() as int) =~= whole);
    turned
}

impl<O> Program<O> {
    /// The order that the images are sorted by.
    pub closed spec fn order(&self) -> O {
        self.sort_order
    }

    /// A session of `images`, in the order given, with the first of them
    /// selected. `requested_max` caps the images shown at once, zero for no
    /// cap. Kept images go to `dest_folder`, or, where none is given, to the
    /// folder `keep` of `base_dir`.
    pub fn new(
        images: Vec<String>,
        sort_order: O,
        base_dir: String,
        requested_max: usize,
        dest_folder: Option<String>,
    ) -> (program: Self)
        ensures
            program@.wf(),
            program.order() == sort_order,
            program@ == (Session {
                images: texts(images@),
                index: 0,
                requested_max: requested_max as nat,
                viewable_window: window(requested_max as nat, images.len() as nat),
                base_dir: base_dir@,
                dest_folder: match dest_folder {
                    Some(folder) => folder@,
                    None => joined(base_dir@, keep_folder()),
                },
                dest_folder_overridden: dest_folder is Some,
                mode: ModeView::Normal,
                show_infobar: false,
                show_help: false,
            }),
    {
        let viewable_window = window_of(requested_max, images.len());
        let dest_folder_overridden = dest_folder.is_some();
        let dest_folder = match dest_folder {
            Some(folder) => folder,
            None => {
                proof {
                    reveal_strlit("keep");
                    assert("keep"@ =~= keep_folder());
                }
                child_path(base_dir.as_str(), "keep")
            },
        };
        Program {
            images,
            index: 0,
            requested_max,
            viewable_window,
            base_dir,
            dest_folder,
            dest_folder_overridden,
            sort_order,
            mode: Mode::Normal,
            show_infobar: false,
            show_help: false,
        }
    }

    /// The images, in browsing order.
    pub fn images(&self) -> (images: &Vec<String>)
        ensures
            texts(images@) == self@.images,
    {
        &self.images
    }

    /// The position of the selected image.
    pub fn index(&self) -> (index: usize)
        ensures
            index == self@.index,
    {
        self.index
    }

    /// The cap that the user asked for; zero for none.
    pub fn requested_max(&self) -> (max: usize)
        ensures
            max == self@.requested_max,
    {
        self.requested_max
    }

    /// The number of images shown at once.
    pub fn viewable_window(&self) -> (shown: usize)
        ensures
            shown == self@.viewable_window,
    {
        self.viewable_window
    }

    /// The directory that relative globs start from.
    pub fn base_dir(&self) -> (dir: &String)
        ensures
            dir@ == self@.base_dir,
    {
        &self.base_dir
    }

    /// The folder that kept images go to.
    pub fn dest_folder(&self) -> (folder: &String)
        ensures
            folder@ == self@.dest_folder,
    {
        &self.dest_folder
    }

    /// Whether the user chose the destination folder.
    pub fn dest_folder_overridden(&self) -> (chosen: bool)
        ensures
            chosen == self@.dest_folder_overridden,
    {
        self.dest_folder_overridden
    }

    /// The order that the images are sorted by.
    pub fn sort_order(&self) -> (order: &O)
        ensures
            *order == self.order(),
    {
        &self.sort_order
    }

    /// What the screen is asked to show of command mode.
    pub fn mode(&self) -> (mode: &Mode)
        ensures
            mode@ == self@.mode,
    {
        &self.mode
    }

    /// Whether the information bar is shown.
    pub fn show_infobar(&self) -> (shown: bool)
        ensures
            shown == self@.show_infobar,
    {
        self.show_infobar
    }

    /// Whether the help is shown.
    pub fn show_help(&self) -> (shown: bool)
        ensures
            shown == self@.show_help,
    {
        self.show_help
    }

    /// Selects the image at `index`, if it is among those shown.
    pub fn select(&mut self, index: usize) -> (moved: bool)
        requires
            old(self)@.wf(),
        ensures
            moved == (index < old(self)@.viewable_window),
            final(self).order() == old(self).order(),
            final(self)@ == if moved {
                Session { index: index as nat, ..old(self)@ }
            } else {
                old(self)@
            },
            final(self)@.wf(),
    {
        if index < self.viewable_window {
            self.index = index;
            true
        } else {
            false
        }
    }

    /// Turns a command down: the mode becomes the line that says why.
    fn refuse(&mut self, error: CommandError)
        ensures
            final(self).order() == old(self).order(),
            final(self)@ == old(self)@.refused(error@),
    {
        self.mode = Mode::Error(error.message());
    }

    /// The selected image, if there is one.
    fn selected(&self) -> (target: Option<String>)
        requires
            self@.wf(),
        ensures
            self@.images.len() == 0 ==> target is None,
            self@.images.len() > 0 ==> target is Some && target->Some_0@
                == self@.images[self@.index as int],
    {
        if self.images.len() > 0 {
            Some(self.images[self.index].clone())
        } else {
            None
        }
    }

    /// Puts `images` in the place of the present ones. `target` is the image
    /// that was selected in the session `before`, from which this one differs
    /// at most in its images.
    fn show(&mut self, target: Option<String>, images: Vec<String>, Ghost(before): Ghost<Session>)
        requires
            before.wf(),
            before.images.len() == 0 ==> target is None,
            before.images.len() > 0 ==> target is Some && target->Some_0@
                == before.images[before.index as int],
            before == (Session { images: before.images, ..old(self)@ }),
        ensures
            final(self).order() == old(self).order(),
            final(self)@ == before.showing(texts(images@)),
            final(self)@.wf(),
    {
        let shown = window_of(self.requested_max, images.len());
        let place = match target {
            Some(path) => {
                let place = locate(&images, &path);
                if place < images.len() && place < shown {
                    place
                } else {
                    0
                }
            },
            None => 0,
        };
        self.images = images;
        self.index = place;
        self.viewable_window = shown;
    }

    /// Reverses the order of the images, and mirrors the selection inside
    /// the window.
    pub fn reverse(&mut self)
        requires
            old(self)@.wf(),
        ensures
            final(self).order() == old(self).order(),
            final(self)@ == old(self)@.reversed(),
            final(self)@.wf(),
    {
        let mut images: Vec<String> = Vec::new();
        std::mem::swap(&mut images, &mut self.images);
        let ghost before = images@;
        self.images = reversed_list(images);
        assert(texts(before.reverse()) =~= texts(before).reverse());
        if self.index < self.viewable_window {
            self.index = self.viewable_window - self.index - 1;
        } else {
            self.index = 0;
        }
    }

    /// Sets the cap on the images shown at once to the count that `max`
    /// writes, zero lifting the cap. A `max` that writes no count is turned
    /// down.
    pub fn maximum_viewable(&mut self, max: &str)
        requires
            old(self)@.wf(),
        ensures
            final(self).order() == old(self).order(),
            final(self)@ == match parsed_count(max@) {
                Some(count) => old(self)@.with_maximum(count as nat),
                None => old(self)@.refused(ErrorView::NotACount { value: max@ }),
            },
            final(self)@.wf(),
    {
        match parse_count(max) {
            Some(count) => {
                self.requested_max = count;
                self.viewable_window = window_of(count, self.images.len());
                if self.viewable_window <= self.index {
                    self.index = if self.viewable_window == 0 {
                        0
                    } else {
                        self.viewable_window - 1
                    };
                }
            },
            None => {
                self.refuse(CommandError::NotACount { value: String::from_str(max) });
            },
        }
    }

    /// Sorts the images, by the order that `arguments` names or, where
    /// `arguments` is empty, by the order in use.
    ///
    /// `parse_order` reads an order from its name and `sorter` puts images
    /// into an order. An order that `parse_order` turns down leaves the
    /// session as it was, but for the mode, which shows what `parse_order`
    /// said. Else the order becomes the one in use, the images are what
    /// `sorter` returns, and the selection follows the selected image.
    pub fn sort<P: Fn(&String) -> Result<O, String>, S: Fn(&O, Vec<String>) -> Vec<String>>(
        &mut self,
        arguments: String,
        parse_order: &P,
        sorter: &S,
    )
        requires
            old(self)@.wf(),
            forall|text: &String| call_requires(parse_order, (text,)),
            forall|order: &O, images: Vec<String>| call_requires(sorter, (order, images)),
        ensures
            final(self)@.wf(),
            may_sort(
                old(self)@,
                old(self).order(),
                arguments@,
                parse_order,
                sorter,
                final(self)@,
                final(self).order(),
            ),
    {
        let ghost before = self@;
        if !arguments.as_str().is_empty() {
            match parse_order(&arguments) {
                Ok(order) => {
                    self.sort_order = order;
                },
                Err(message) => {
                    self.refuse(CommandError::InvalidSortOrder { message });
                    assert(call_ensures(parse_order, (&arguments,), Err::<O, String>(message)));
                    return ;
                },
            }
        }
        let target = self.selected();
        let mut given: Vec<String> = Vec::new();
        std::mem::swap(&mut given, &mut self.images);
        let sorted = sorter(&self.sort_order, given);
        let ghost sorted_text = texts(sorted@);
        assert(sorts(sorter, self.order(), before.images, sorted_text));
        self.show(target, sorted, Ghost(before));
        assert(sorted_with(before, sorter, self.order(), self@));
        proof {
            if arguments@.len() > 0 {
                assert(call_ensures(parse_order, (&arguments,), Ok::<O, String>(self.order())));
            }
        }
    }

    /// Takes `images` as the new images of the session, sorted by the order
    /// in use, and `found_dir`, if there is one, as its base directory. The
    /// selection follows the selected image, and the destination folder
    /// follows the base directory unless the user chose one.
    pub fn load<S: Fn(&O, Vec<String>) -> Vec<String>>(
        &mut self,
        images: Vec<String>,
        found_dir: Option<String>,
        sorter: &S,
    )
        requires
            old(self)@.wf(),
            forall|order: &O, images: Vec<String>| call_requires(sorter, (order, images)),
        ensures
            final(self)@.wf(),
            final(self).order() == old(self).order(),
            may_load(
                old(self)@,
                old(self).order(),
                sorter,
                texts(images@),
                dir_text(found_dir),
                final(self)@,
            ),
    {
        let ghost before = self@;
        let target = self.selected();
        let sorted = sorter(&self.sort_order, images);
        let ghost sorted_text = texts(sorted@);
        assert(sorts(sorter, self.order(), texts(images@), sorted_text));
        self.show(target, sorted, Ghost(before));
        match found_dir {
            Some(dir) => {
                self.base_dir = dir;
            },
            None => {},
        }
        if !self.dest_folder_overridden {
            proof {
                reveal_strlit("keep");
                assert("keep"@ =~= keep_folder());
            }
            self.dest_folder = child_path(self.base_dir.as_str(), "keep");
        }
        assert(self@ == before.loaded(sorted_text, dir_text(found_dir)));
    }

    /// Loads the images that the glob `path_to_newglob` matches.
    ///
    /// A glob that fails, or that matches no image, leaves the session as it
    /// was, but for the mode, which says why. Else the images that it
    /// matched are loaded, with the nearest existing directory at or above
    /// the glob, its escaped spaces made plain, as the base directory, if
    /// there is one.
    pub fn newglob<S: Fn(&O, Vec<String>) -> Vec<String>, F: Fn(&String) -> bool>(
        &mut self,
        path_to_newglob: &str,
        sorter: &S,
        is_image: &F,
    )
        requires
            old(self)@.wf(),
            forall|order: &O, images: Vec<String>| call_requires(sorter, (order, images)),
            forall|path: &String| call_requires(is_image, (path,)),
        ensures
            final(self)@.wf(),
            final(self).order() == old(self).order(),
            may_newglob(
                old(self)@,
                old(self).order(),
                path_to_newglob@,
                sorter,
                is_image,
                final(self)@,
            ),
    {
        let ghost before = self@;
        let found = glob_path(path_to_newglob, is_image);
        let ghost globbed = outcome(found);
        match found {
            Ok(new_images) => {
                let found_dir = find_new_base_dir(unescape_spaces(path_to_newglob).as_str());
                self.load(new_images, found_dir, sorter);
                assert(may_load(
                    before,
                    self.order(),
                    sorter,
                    globbed->Ok_0,
                    dir_text(found_dir),
                    self@,
                ));
            },
            Err(error) => {
                self.refuse(error);
            },
        }
        assert(may_glob_to(path_to_newglob@, is_image, globbed));
    }

    /// Takes `expanded`, with its escaped spaces made plain, as the folder
    /// that kept images go to, from now on whatever the base directory.
    pub fn choose_dest_folder(&mut self, expanded: &str)
        ensures
            final(self).order() == old(self).order(),
            final(self)@ == old(self)@.with_dest_folder(expanded@),
            old(self)@.wf() ==> final(self)@.wf(),
    {
        self.dest_folder = unescape_spaces(expanded);
        self.dest_folder_overridden = true;
    }

    /// Sets the folder that kept images go to: `arguments` with its
    /// references expanded and its escaped spaces made plain. A reference to
    /// a variable that cannot be looked up leaves the session as it was, but
    /// for the mode, which says so.
    pub fn set_dest_folder(&mut self, arguments: &str)
        ensures
            final(self).order() == old(self).order(),
            may_set_dest_folder(old(self)@, arguments@, final(self)@),
            old(self)@.wf() ==> final(self)@.wf(),
    {
        match expand(arguments) {
            Ok(path) => {
                self.choose_dest_folder(path.as_str());
                assert(self@ == old(self)@.with_dest_folder(path@));
            },
            Err(error) => {
                self.refuse(error);
                assert(self@ == old(self)@.refused(error@));
            },
        }
    }

    /// Shows the help if it was hidden, and hides it if it was shown.
    pub fn toggle_help(&mut self)
        ensures
            final(self).order() == old(self).order(),
            final(self)@ == old(self)@.help_toggled(),
            old(self)@.wf() ==> final(self)@.wf(),
    {
        self.show_help = !self.show_help;
    }

    /// Asks for the program to end.
    pub fn quit(&mut self)
        ensures
            final(self).order() == old(self).order(),
            final(self)@ == old(self)@.in_mode(ModeView::Exit),
            old(self)@.wf() ==> final(self)@.wf(),
    {
        self.mode = Mode::Exit;
    }
}

impl<O> Program<O> {
    /// Enters command mode: the information bar is shown, and the mode
    /// shows the command line, which is empty.
    pub fn enter_command_mode(&mut self)
        ensures
            final(self).order() == old(self).order(),
            final(self)@ == (Session {
                show_infobar: true,
                mode: ModeView::Command(Seq::empty()),
                ..old(self)@
            }),
            old(self)@.wf() ==> final(self)@.wf(),
    {
        self.show_infobar = true;
        self.mode = Mode::Command(String::new());
    }

    /// Takes one input event into the command line `input`, which command
    /// mode was entered for with the key `cmd`.
    ///
    /// Typed text goes to the end of the line, and a backspace takes its
    /// last character off; either way the mode shows the new line, which is
    /// to be drawn. A backspace on an empty line, or the event that leaves
    /// command mode, ends the reading with the line as it is. Any other
    /// event changes nothing.
    pub fn get_command(&mut self, cmd: char, input: &mut String, action: &Action) -> (reading:
        Reading)
        ensures
            final(self).order() == old(self).order(),
            reading == reading_after(old(input)@, *action),
            final(input)@ == line_after(old(input)@, cmd, *action),
            final(self)@ == if reading == Reading::Render {
                old(self)@.in_mode(ModeView::Command(final(input)@))
            } else {
                old(self)@
            },
            old(self)@.wf() ==> final(self)@.wf(),
    {
        match action {
            Action::Backspace => {
                if input.as_str().is_empty() {
                    return Reading::Done;
                }
                erase_last(input);
                self.mode = Mode::Command(input.clone());
                Reading::Render
            },
            Action::KeyboardInput(text) => {
                type_text(input, text.as_str(), cmd);
                self.mode = Mode::Command(input.clone());
                Reading::Render
            },
            Action::SwitchNormalMode => Reading::Done,
            Action::Other => Reading::Wait,
        }
    }

    /// Runs the command line `input`, as read in command mode.
    ///
    /// The information bar is shown and the mode goes back to normal. An
    /// empty line does no more. Else the line is split into its command and
    /// its argument, and the command is run: each changes the session as its
    /// own function states, or leaves it and puts the reason in the mode. A
    /// line that names no command, or that lacks the argument that its
    /// command needs, is turned down in the same way.
    pub fn run_command_mode<
        P: Fn(&String) -> Result<O, String>,
        S: Fn(&O, Vec<String>) -> Vec<String>,
        F: Fn(&String) -> bool,
    >(&mut self, input: String, parse_order: &P, sorter: &S, is_image: &F)
        requires
            old(self)@.wf(),
            forall|text: &String| call_requires(parse_order, (text,)),
            forall|order: &O, images: Vec<String>| call_requires(sorter, (order, images)),
            forall|path: &String| call_requires(is_image, (path,)),
        ensures
            final(self)@.wf(),
            may_run(
                old(self)@,
                old(self).order(),
                input@,
                parse_order,
                sorter,
                is_image,
                final(self)@,
                final(self).order(),
            ),
    {
        self.show_infobar = true;
        self.mode = Mode::Normal;
        if input.as_str().is_empty() {
            return ;
        }
        let (command, arguments) = match parse_user_input(input) {
            Ok((command, arguments)) => (command, arguments),
            Err(error) => {
                self.refuse(error);
                return ;
            },
        };
        match command {
            Commands::NewGlob => {
                if arguments.as_str().is_empty() {
                    self.refuse(CommandError::MissingGlob);
                    return ;
                }
                self.newglob(arguments.as_str(), sorter, is_image);
            },
            Commands::Help => {
                self.toggle_help();
            },
            Commands::Quit => {
                self.quit();
            },
            Commands::Reverse => {
                self.reverse();
            },
            Commands::DestFolder => {
                if arguments.as_str().is_empty() {
                    self.refuse(CommandError::MissingDestFolder);
                    return ;
                }
                self.set_dest_folder(arguments.as_str());
            },
            Commands::MaximumImages => {
                if arguments.as_str().is_empty() {
                    self.refuse(CommandError::MissingMaximum);
                    return ;
                }
                self.maximum_viewable(arguments.as_str());
            },
            Commands::Sort => {
                self.sort(arguments, parse_order, sorter);
            },
        }
    }
}

/// What the reader does after `action`, the line being `line`.
pub open spec fn reading_after(line: Seq<char>, action: Action) -> Reading {
    match action {
        Action::Backspace => if line.len() == 0 {
            Reading::Done
        } else {
            Reading::Render
        },
        Action::KeyboardInput(_) => Reading::Render,
        Action::SwitchNormalMode => Reading::Done,
        Action::Other => Reading::Wait,
    }
}

/// The line after `action`, command mode having been entered with the key `cmd`.
pub open spec fn line_after(line: Seq<char>, cmd: char, action: Action) -> Seq<char> {
    match action {
        Action::Backspace => if line.len() == 0 {
            line
        } else {
            line.drop_last()
        },
        Action::KeyboardInput(text) => typed(line, text@, cmd),
        Action::SwitchNormalMode => line,
        Action::Other => line,
    }
}

/// Whether `command`, given `arguments`, may take the session `before`,
/// sorted by `order`, to the session `after`, sorted by `order_after`.
pub open spec fn may_dispatch<
    O,
    P: Fn(&String) -> Result<O, String>,
    S: Fn(&O, Vec<String>) -> Vec<String>,
    F: Fn(&String) -> bool,
>(
    before: Session,
    order: O,
    command: Commands,
    arguments: Seq<char>,
    parse_order: &P,
    sorter: &S,
    is_image: &F,
    after: Session,
    order_after: O,
) -> bool {
    match command {
        Commands::Sort => may_sort(before, order, arguments, parse_order, sorter, after, order_after),
        Commands::NewGlob => order_after == order && if arguments.len() == 0 {
            after == before.refused(ErrorView::MissingGlob)
        } else {
            may_newglob(before, order, arguments, sorter, is_image, after)
        },
        Commands::Help => order_after == order && after == before.help_toggled(),
        Commands::Quit => order_after == order && after == before.in_mode(ModeView::Exit),
        Commands::Reverse => order_after == order && after == before.reversed(),
        Commands::DestFolder => order_after == order && if arguments.len() == 0 {
            after == before.refused(ErrorView::MissingDestFolder)
        } else {
            may_set_dest_folder(before, arguments, after)
        },
        Commands::MaximumImages => order_after == order && after == if arguments.len() == 0 {
            before.refused(ErrorView::MissingMaximum)
        } else {
            match parsed_count(arguments) {
                Some(count) => before.with_maximum(count as nat),
                None => before.refused(ErrorView::NotACount { value: arguments }),
            }
        },
    }
}

/// Whether running the line `input` may take the session `before`, sorted
/// by `order`, to the session `after`, sorted by `order_after`.
pub open spec fn may_run<
    O,
    P: Fn(&String) -> Result<O, String>,
    S: Fn(&O, Vec<String>) -> Vec<String>,
    F: Fn(&String) -> bool,
>(
    before: Session,
    order: O,
    input: Seq<char>,
    parse_order: &P,
    sorter: &S,
    is_image: &F,
    after: Session,
    order_after: O,
) -> bool {
    if input.len() == 0 {
        order_after == order && after == before.entered()
    } else {
        match Commands::named(command_word(input)) {
            Some(command) => may_dispatch(
                before.entered(),
                order,
                command,
                argument_text(input),
                parse_order,
                sorter,
                is_image,
                after,
                order_after,
            ),
            None => order_after == order && after == before.entered().refused(
                ErrorView::UnknownCommand { token: command_word(input) },
            ),
        }
    }
}

/// Whether `sorted` is an order that `sorter` may put `images` into when
/// asked to sort them by `order`.
pub open spec fn sorts<O, S: Fn(&O, Vec<String>) -> Vec<String>>(
    sorter: &S,
    order: O,
    images: Seq<Seq<char>>,
    sorted: Seq<Seq<char>>,
) -> bool {
    exists|given: Vec<String>, back: Vec<String>|
        texts(given@) == images && texts(back@) == sorted && #[trigger] call_ensures(
            sorter,
            (&order, given),
            back,
        )
}

/// Whether `after` is `before` with its images as `sorter` may sort them by
/// `order`.
pub open spec fn sorted_with<O, S: Fn(&O, Vec<String>) -> Vec<String>>(
    before: Session,
    sorter: &S,
    order: O,
    after: Session,
) -> bool {
    exists|sorted: Seq<Seq<char>>| #[trigger]
        sorts(sorter, order, before.images, sorted) && after == before.showing(sorted)
}

/// Whether the sort command, given `arguments`, may take the session
/// `before`, sorted by `order`, to the session `after`, sorted by
/// `order_after`.
///
/// Without arguments the order stays and the images are sorted by it. With
/// arguments, `parse_order` reads an order from them: the images are sorted
/// by it and it becomes the order in use; where it reads none, the order
/// stays and the command is turned down with what `parse_order` said.
pub open spec fn may_sort<
    O,
    P: Fn(&String) -> Result<O, String>,
    S: Fn(&O, Vec<String>) -> Vec<String>,
>(
    before: Session,
    order: O,
    arguments: Seq<char>,
    parse_order: &P,
    sorter: &S,
    after: Session,
    order_after: O,
) -> bool {
    if arguments.len() == 0 {
        order_after == order && sorted_with(before, sorter, order, after)
    } else {
        exists|text: String, parsed: Result<O, String>|
            text@ == arguments && #[trigger] call_ensures(parse_order, (&text,), parsed)
                && match parsed {
                Ok(chosen) => order_after == chosen && sorted_with(before, sorter, chosen, after),
                Err(message) => order_after == order && after == before.refused(
                    ErrorView::InvalidSortOrder { message: message@ },
                ),
            }
    }
}

/// Whether loading `images`, with `found_dir` as the directory found for
/// them, may take the session `before`, sorted by `order`, to `after`.
pub open spec fn may_load<O, S: Fn(&O, Vec<String>) -> Vec<String>>(
    before: Session,
    order: O,
    sorter: &S,
    images: Seq<Seq<char>>,
    found_dir: Option<Seq<char>>,
    after: Session,
) -> bool {
    exists|sorted: Seq<Seq<char>>| #[trigger]
        sorts(sorter, order, images, sorted) && after == before.loaded(sorted, found_dir)
}

/// Whether the command that loads the glob `path` may take the session
/// `before`, sorted by `order`, to `after`: the glob comes to an error and
/// is turned down with it, or it comes to images that `is_image` accepts,
/// which are loaded, with the directory that the glob, its escaped spaces
/// made plain, can be anchored at.
pub open spec fn may_newglob<
    O,
    S: Fn(&O, Vec<String>) -> Vec<String>,
    F: Fn(&String) -> bool,
>(before: Session, order: O, path: Seq<char>, sorter: &S, is_image: &F, after: Session) -> bool {
    exists|globbed: Result<Seq<Seq<char>>, ErrorView>| #[trigger]
        may_glob_to(path, is_image, globbed) && match globbed {
            Ok(images) => exists|found_dir: Option<Seq<char>>| #[trigger]
                may_load(before, order, sorter, images, found_dir, after) && may_anchor_at(
                    unescaped(path),
                    found_dir,
                ),
            Err(error) => after == before.refused(error),
        }
}

/// Whether the command that sets the destination folder to `arguments` may
/// take the session `before` to `after`: the folder is the expansion of
/// `arguments`, which for a path with nothing to expand is the path itself;
/// or the command is turned down for a variable that cannot be looked up,
/// which takes a `$` in `arguments`.
pub open spec fn may_set_dest_folder(before: Session, arguments: Seq<char>, after: Session) -> bool {
    ||| exists|expanded: Seq<char>|
        after == #[trigger] before.with_dest_folder(expanded) && (expands_to_itself(arguments)
            ==> expanded == arguments)
    ||| exists|error: ErrorView|
        after == #[trigger] before.refused(error) && error is UndefinedVariable
            && crate::path::has_variable(arguments)
}

} // verus!
