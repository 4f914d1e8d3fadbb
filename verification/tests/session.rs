use command_mode::program::{Mode, Program};
use command_mode::reader::{Action, Reading};

#[derive(Clone, Copy, Debug, PartialEq)]
enum Order {
    Ascending,
    Descending,
}

fn parse_order(name: &String) -> Result<Order, String> {
    match name.as_str() {
        "up" => Ok(Order::Ascending),
        "down" => Ok(Order::Descending),
        _ => Err(format!("\"{}\" is no order; try up or down", name)),
    }
}

fn sorter(order: &Order, mut images: Vec<String>) -> Vec<String> {
    images.sort();
    if *order == Order::Descending {
        images.reverse();
    }
    images
}

fn as_given(_: &Order, images: Vec<String>) -> Vec<String> {
    images
}

fn any_file(_: &String) -> bool {
    true
}

fn list(names: &[&str]) -> Vec<String> {
    names.iter().map(|name| name.to_string()).collect()
}

fn letters(count: usize) -> Vec<String> {
    (0..count).map(|i| format!("/pics/{:02}.png", i)).collect()
}

fn session(names: &[&str]) -> Program<Order> {
    Program::new(list(names), Order::Ascending, "/pics".to_string(), 0, None)
}

fn run(program: &mut Program<Order>, line: &str) {
    program.run_command_mode(line.to_string(), &parse_order, &sorter, &any_file);
}

#[test]
fn new_session_selects_the_first_image() {
    let program = session(&["a", "b", "c"]);
    assert_eq!(program.images(), &list(&["a", "b", "c"]));
    assert_eq!(program.index(), 0);
    assert_eq!(program.requested_max(), 0);
    assert_eq!(program.viewable_window(), 3);
    assert_eq!(program.base_dir(), "/pics");
    assert_eq!(program.dest_folder(), "/pics/keep");
    assert!(!program.dest_folder_overridden());
    assert_eq!(program.sort_order(), &Order::Ascending);
    assert_eq!(program.mode(), &Mode::Normal);
    assert!(!program.show_help());
    assert!(!program.show_infobar());
}

#[test]
fn new_session_takes_a_cap_and_a_destination() {
    let program =
        Program::new(letters(10), Order::Ascending, "/pics/".to_string(), 4, Some("/out".to_string()));
    assert_eq!(program.viewable_window(), 4);
    assert_eq!(program.requested_max(), 4);
    assert_eq!(program.dest_folder(), "/out");
    assert!(program.dest_folder_overridden());
    let capped_above =
        Program::new(letters(3), Order::Ascending, "/pics/".to_string(), 4, None);
    assert_eq!(capped_above.viewable_window(), 3);
    assert_eq!(capped_above.dest_folder(), "/pics/keep");
    let empty = Program::new(Vec::new(), Order::Ascending, String::new(), 4, None);
    assert_eq!(empty.viewable_window(), 0);
    assert_eq!(empty.index(), 0);
    assert_eq!(empty.dest_folder(), "keep");
}

#[test]
fn selection_stays_inside_the_window() {
    let mut program = Program::new(letters(10), Order::Ascending, "/pics".to_string(), 4, None);
    assert!(program.select(3));
    assert_eq!(program.index(), 3);
    assert!(!program.select(4));
    assert_eq!(program.index(), 3);
    assert!(!program.select(usize::MAX));
    assert_eq!(program.index(), 3);
    let mut empty = Program::new(Vec::new(), Order::Ascending, String::new(), 0, None);
    assert!(!empty.select(0));
}

#[test]
fn maximum_clamps_the_window_and_the_selection() {
    let mut program = Program::new(letters(10), Order::Ascending, "/pics".to_string(), 0, None);
    assert!(program.select(7));
    program.maximum_viewable("3");
    assert_eq!(program.viewable_window(), 3);
    assert_eq!(program.requested_max(), 3);
    assert_eq!(program.index(), 2);
    assert_eq!(program.mode(), &Mode::Normal);
}

#[test]
fn maximum_leaves_a_selection_inside_the_window() {
    let mut program = Program::new(letters(10), Order::Ascending, "/pics".to_string(), 0, None);
    assert!(program.select(1));
    program.maximum_viewable("3");
    assert_eq!(program.viewable_window(), 3);
    assert_eq!(program.index(), 1);
    program.maximum_viewable("2");
    assert_eq!(program.index(), 1);
    program.maximum_viewable("1");
    assert_eq!(program.index(), 0);
}

#[test]
fn maximum_of_zero_lifts_the_cap() {
    let mut program = Program::new(letters(10), Order::Ascending, "/pics".to_string(), 3, None);
    assert!(program.select(2));
    program.maximum_viewable("0");
    assert_eq!(program.viewable_window(), 10);
    assert_eq!(program.requested_max(), 0);
    assert_eq!(program.index(), 2);
}

#[test]
fn maximum_above_the_number_of_images_shows_all() {
    let mut program = Program::new(letters(10), Order::Ascending, "/pics".to_string(), 3, None);
    program.maximum_viewable("11");
    assert_eq!(program.viewable_window(), 10);
    assert_eq!(program.requested_max(), 11);
    program.maximum_viewable("10");
    assert_eq!(program.viewable_window(), 10);
}

#[test]
fn maximum_on_an_empty_session_keeps_the_selection_at_the_front() {
    let mut program = Program::new(Vec::new(), Order::Ascending, "/pics".to_string(), 0, None);
    program.maximum_viewable("3");
    assert_eq!(program.viewable_window(), 0);
    assert_eq!(program.index(), 0);
    assert_eq!(program.requested_max(), 3);
}

#[test]
fn maximum_that_is_no_count_is_turned_down() {
    let mut program = Program::new(letters(10), Order::Ascending, "/pics".to_string(), 4, None);
    assert!(program.select(3));
    program.maximum_viewable("three");
    assert_eq!(program.mode(), &Mode::Error("\"three\" is not a positive integer".to_string()));
    assert_eq!(program.viewable_window(), 4);
    assert_eq!(program.requested_max(), 4);
    assert_eq!(program.index(), 3);
    program.maximum_viewable("-3");
    assert_eq!(program.mode(), &Mode::Error("\"-3\" is not a positive integer".to_string()));
    assert_eq!(program.viewable_window(), 4);
}

#[test]
fn reverse_mirrors_the_selection() {
    let mut program = session(&["a", "b", "c", "d"]);
    program.reverse();
    assert_eq!(program.images(), &list(&["d", "c", "b", "a"]));
    assert_eq!(program.index(), 3);
    assert_eq!(program.viewable_window(), 4);
    program.reverse();
    assert_eq!(program.images(), &list(&["a", "b", "c", "d"]));
    assert_eq!(program.index(), 0);
}

#[test]
fn reverse_mirrors_inside_the_window() {
    let mut program =
        Program::new(list(&["a", "b", "c", "d", "e"]), Order::Ascending, "/p".to_string(), 3, None);
    assert!(program.select(2));
    program.reverse();
    assert_eq!(program.images(), &list(&["e", "d", "c", "b", "a"]));
    assert_eq!(program.index(), 0);
    assert!(program.select(1));
    program.reverse();
    assert_eq!(program.index(), 1);
}

#[test]
fn reverse_of_an_empty_session_does_nothing() {
    let mut program = Program::new(Vec::new(), Order::Ascending, "/p".to_string(), 0, None);
    program.reverse();
    assert_eq!(program.images().len(), 0);
    assert_eq!(program.index(), 0);
    assert_eq!(program.viewable_window(), 0);
}

#[test]
fn sort_follows_the_selected_image() {
    let mut program = session(&["c", "a", "b"]);
    assert!(program.select(2));
    program.sort(String::new(), &parse_order, &sorter);
    assert_eq!(program.images(), &list(&["a", "b", "c"]));
    assert_eq!(program.index(), 1);
    assert_eq!(program.sort_order(), &Order::Ascending);
}

#[test]
fn sort_by_a_new_order_keeps_that_order() {
    let mut program = session(&["c", "a", "b"]);
    program.sort("down".to_string(), &parse_order, &sorter);
    assert_eq!(program.images(), &list(&["c", "b", "a"]));
    assert_eq!(program.index(), 0);
    assert_eq!(program.sort_order(), &Order::Descending);
    program.sort(String::new(), &parse_order, &sorter);
    assert_eq!(program.images(), &list(&["c", "b", "a"]));
    assert_eq!(program.sort_order(), &Order::Descending);
    program.sort("up".to_string(), &parse_order, &sorter);
    assert_eq!(program.images(), &list(&["a", "b", "c"]));
    assert_eq!(program.index(), 2);
}

#[test]
fn sort_twice_changes_nothing_more() {
    let mut program = session(&["d", "b", "a", "c", "b"]);
    assert!(program.select(1));
    program.sort(String::new(), &parse_order, &sorter);
    let images = program.images().clone();
    let index = program.index();
    assert_eq!(images, list(&["a", "b", "b", "c", "d"]));
    assert_eq!(index, 1);
    program.sort(String::new(), &parse_order, &sorter);
    assert_eq!(program.images(), &images);
    assert_eq!(program.index(), index);
    assert_eq!(program.images()[program.index()], "b");
}

#[test]
fn sort_moves_to_the_front_when_the_image_leaves_the_window() {
    let mut program =
        Program::new(list(&["a", "z", "b", "c"]), Order::Ascending, "/p".to_string(), 2, None);
    assert!(program.select(1));
    program.sort(String::new(), &parse_order, &sorter);
    assert_eq!(program.images(), &list(&["a", "b", "c", "z"]));
    assert_eq!(program.index(), 0);
    assert_eq!(program.viewable_window(), 2);
}

#[test]
fn sort_by_an_unknown_order_is_turned_down() {
    let mut program = session(&["c", "a", "b"]);
    assert!(program.select(2));
    program.sort("sideways".to_string(), &parse_order, &sorter);
    assert_eq!(
        program.mode(),
        &Mode::Error("\"sideways\" is no order; try up or down".to_string())
    );
    assert_eq!(program.images(), &list(&["c", "a", "b"]));
    assert_eq!(program.index(), 2);
    assert_eq!(program.sort_order(), &Order::Ascending);
}

#[test]
fn sort_of_an_empty_session_does_nothing() {
    let mut program = Program::new(Vec::new(), Order::Ascending, "/p".to_string(), 0, None);
    program.sort("down".to_string(), &parse_order, &sorter);
    assert_eq!(program.images().len(), 0);
    assert_eq!(program.index(), 0);
    assert_eq!(program.sort_order(), &Order::Descending);
}

#[test]
fn load_keeps_the_selected_image_selected() {
    let mut program = session(&["a", "b", "c"]);
    assert!(program.select(1));
    program.load(list(&["c", "b"]), Some("/other".to_string()), &sorter);
    assert_eq!(program.images(), &list(&["b", "c"]));
    assert_eq!(program.index(), 0);
    assert_eq!(program.base_dir(), "/other");
    assert_eq!(program.dest_folder(), "/other/keep");
    assert_eq!(program.viewable_window(), 2);
}

#[test]
fn load_finds_the_selected_image_where_the_order_puts_it() {
    let mut program = session(&["a", "b", "c"]);
    assert!(program.select(1));
    program.load(list(&["c", "b"]), None, &as_given);
    assert_eq!(program.images(), &list(&["c", "b"]));
    assert_eq!(program.index(), 1);
    assert_eq!(program.base_dir(), "/pics");
    assert_eq!(program.dest_folder(), "/pics/keep");
}

#[test]
fn load_without_the_selected_image_selects_the_first() {
    let mut program = session(&["a", "b", "c"]);
    assert!(program.select(1));
    program.load(list(&["c", "a"]), None, &sorter);
    assert_eq!(program.images(), &list(&["a", "c"]));
    assert_eq!(program.index(), 0);
}

#[test]
fn load_keeps_the_cap() {
    let mut program =
        Program::new(list(&["a", "b", "c"]), Order::Ascending, "/p".to_string(), 2, None);
    assert!(program.select(1));
    program.load(list(&["e", "d", "c", "b", "a"]), None, &sorter);
    assert_eq!(program.viewable_window(), 2);
    assert_eq!(program.requested_max(), 2);
    assert_eq!(program.index(), 1);
    program.load(list(&["x"]), None, &sorter);
    assert_eq!(program.viewable_window(), 1);
    assert_eq!(program.requested_max(), 2);
    assert_eq!(program.index(), 0);
}

#[test]
fn load_moves_to_the_front_when_the_image_is_outside_the_window() {
    let mut program =
        Program::new(list(&["m", "z"]), Order::Ascending, "/p".to_string(), 2, None);
    assert!(program.select(1));
    program.load(list(&["z", "a", "b"]), None, &sorter);
    assert_eq!(program.images(), &list(&["a", "b", "z"]));
    assert_eq!(program.index(), 0);
}

#[test]
fn chosen_destination_outlives_a_new_glob() {
    let mut program = session(&["a", "b", "c"]);
    program.set_dest_folder("/x");
    assert_eq!(program.dest_folder(), "/x");
    assert!(program.dest_folder_overridden());
    program.load(list(&["d"]), Some("/elsewhere".to_string()), &sorter);
    assert_eq!(program.base_dir(), "/elsewhere");
    assert_eq!(program.dest_folder(), "/x");
    assert!(program.dest_folder_overridden());
}

#[test]
fn destination_is_expanded_and_unescaped() {
    let mut program = session(&["a"]);
    program.set_dest_folder("${SURELY_NOT_DEFINED_ANYWHERE_7:-/out}/my\\ keep");
    assert_eq!(program.dest_folder(), "/out/my keep");
    assert_eq!(program.mode(), &Mode::Normal);
    program.choose_dest_folder("/plain\\ one");
    assert_eq!(program.dest_folder(), "/plain one");
}

#[test]
fn destination_with_an_undefined_variable_is_turned_down() {
    let mut program = session(&["a"]);
    program.set_dest_folder("$SURELY_NOT_DEFINED_ANYWHERE_7/out");
    assert_eq!(
        program.mode(),
        &Mode::Error("\"SURELY_NOT_DEFINED_ANYWHERE_7\": environment variable not found".to_string())
    );
    assert_eq!(program.dest_folder(), "/pics/keep");
    assert!(!program.dest_folder_overridden());
}

#[test]
fn newglob_loads_what_the_glob_matches() {
    let mut program = session(&["a", "b", "c"]);
    program.newglob("/etc/passw?", &sorter, &any_file);
    assert_eq!(program.images(), &list(&["/etc/passwd"]));
    assert_eq!(program.index(), 0);
    assert_eq!(program.viewable_window(), 1);
    assert_eq!(program.base_dir(), "/etc");
    assert_eq!(program.dest_folder(), "/etc/keep");
    assert_eq!(program.mode(), &Mode::Normal);
}

#[test]
fn newglob_of_a_directory_loads_its_images() {
    let mut program = session(&["/etc/passwd", "b"]);
    program.newglob("/etc", &sorter, &|path: &String| path == "/etc/passwd" || path == "/etc/group");
    assert_eq!(program.images(), &list(&["/etc/group", "/etc/passwd"]));
    assert_eq!(program.index(), 1);
    assert_eq!(program.base_dir(), "/etc");
}

#[test]
fn newglob_that_fails_leaves_the_session() {
    let mut program = session(&["a", "b", "c"]);
    assert!(program.select(2));
    program.newglob("/surely/not/there/*.png", &sorter, &any_file);
    assert_eq!(
        program.mode(),
        &Mode::Error("Path \"/surely/not/there/*.png\" had no images".to_string())
    );
    assert_eq!(program.images(), &list(&["a", "b", "c"]));
    assert_eq!(program.index(), 2);
    assert_eq!(program.base_dir(), "/pics");
    assert_eq!(program.dest_folder(), "/pics/keep");
    program.newglob("a.jpg b.jpg", &sorter, &any_file);
    assert_eq!(
        program.mode(),
        &Mode::Error("Newglob accepts only one argument, but more were provided".to_string())
    );
    assert_eq!(program.images(), &list(&["a", "b", "c"]));
}

#[test]
fn typed_text_is_added_to_the_line() {
    let mut program = session(&["a"]);
    let mut line = String::new();
    let step = program.get_command(':', &mut line, &Action::KeyboardInput("s".to_string()));
    assert_eq!(step, Reading::Render);
    assert_eq!(line, "s");
    assert_eq!(program.mode(), &Mode::Command("s".to_string()));
    let step = program.get_command(':', &mut line, &Action::KeyboardInput("ort".to_string()));
    assert_eq!(step, Reading::Render);
    assert_eq!(line, "sort");
    assert_eq!(program.mode(), &Mode::Command("sort".to_string()));
}

#[test]
fn entry_key_at_the_front_is_dropped() {
    let mut program = session(&["a"]);
    let mut line = String::new();
    let step = program.get_command(':', &mut line, &Action::KeyboardInput(":".to_string()));
    assert_eq!(step, Reading::Render);
    assert_eq!(line, "");
    assert_eq!(program.mode(), &Mode::Command(String::new()));
    program.get_command(':', &mut line, &Action::KeyboardInput(":q".to_string()));
    assert_eq!(line, "q");
    program.get_command(':', &mut line, &Action::KeyboardInput(":".to_string()));
    assert_eq!(line, "q:");
    let mut search = String::new();
    program.get_command('/', &mut search, &Action::KeyboardInput("/:a".to_string()));
    assert_eq!(search, ":a");
}

#[test]
fn backspace_takes_the_last_character() {
    let mut program = session(&["a"]);
    let mut line = "soü".to_string();
    let step = program.get_command(':', &mut line, &Action::Backspace);
    assert_eq!(step, Reading::Render);
    assert_eq!(line, "so");
    assert_eq!(program.mode(), &Mode::Command("so".to_string()));
    program.get_command(':', &mut line, &Action::Backspace);
    let step = program.get_command(':', &mut line, &Action::Backspace);
    assert_eq!(step, Reading::Render);
    assert_eq!(line, "");
    assert_eq!(program.mode(), &Mode::Command(String::new()));
}

#[test]
fn backspace_on_an_empty_line_ends_the_reading() {
    let mut program = session(&["a"]);
    let mut line = String::new();
    let step = program.get_command(':', &mut line, &Action::Backspace);
    assert_eq!(step, Reading::Done);
    assert_eq!(line, "");
    assert_eq!(program.mode(), &Mode::Normal);
}

#[test]
fn leaving_ends_the_reading_with_the_line_as_it_is() {
    let mut program = session(&["a"]);
    let mut line = "sor".to_string();
    let step = program.get_command(':', &mut line, &Action::SwitchNormalMode);
    assert_eq!(step, Reading::Done);
    assert_eq!(line, "sor");
    assert_eq!(program.mode(), &Mode::Normal);
}

#[test]
fn other_events_change_nothing() {
    let mut program = session(&["a"]);
    let mut line = "sor".to_string();
    let step = program.get_command(':', &mut line, &Action::Other);
    assert_eq!(step, Reading::Wait);
    assert_eq!(line, "sor");
    assert_eq!(program.mode(), &Mode::Normal);
}

#[test]
fn empty_line_only_returns_to_normal_mode() {
    let mut program = session(&["b", "a"]);
    let mut line = String::new();
    program.get_command(':', &mut line, &Action::KeyboardInput("x".to_string()));
    program.get_command(':', &mut line, &Action::Backspace);
    run(&mut program, "");
    assert_eq!(program.mode(), &Mode::Normal);
    assert!(program.show_infobar());
    assert_eq!(program.images(), &list(&["b", "a"]));
}

#[test]
fn unknown_command_is_shown_as_an_error() {
    let mut program = session(&["b", "a"]);
    run(&mut program, "bogus 3");
    assert_eq!(program.mode(), &Mode::Error("No such command \"bogus\"".to_string()));
    assert_eq!(program.images(), &list(&["b", "a"]));
    assert!(program.show_infobar());
}

#[test]
fn quit_asks_for_the_end() {
    let mut program = session(&["b", "a"]);
    run(&mut program, "q");
    assert_eq!(program.mode(), &Mode::Exit);
    let mut program = session(&["b", "a"]);
    run(&mut program, "quit");
    assert_eq!(program.mode(), &Mode::Exit);
}

#[test]
fn help_is_shown_and_hidden_in_turn() {
    let mut program = session(&["b", "a"]);
    run(&mut program, "?");
    assert!(program.show_help());
    assert_eq!(program.mode(), &Mode::Normal);
    run(&mut program, "help");
    assert!(!program.show_help());
    program.toggle_help();
    assert!(program.show_help());
}

#[test]
fn commands_that_need_an_argument_say_so() {
    let mut program = session(&["b", "a"]);
    run(&mut program, "ng");
    assert_eq!(
        program.mode(),
        &Mode::Error("Command \"newglob\" or \":ng\" requires a glob".to_string())
    );
    run(&mut program, "newglob ");
    assert_eq!(
        program.mode(),
        &Mode::Error("Command \"newglob\" or \":ng\" requires a glob".to_string())
    );
    run(&mut program, "df");
    assert_eq!(
        program.mode(),
        &Mode::Error("Command \":destfolder\" or \":d\" requires a path".to_string())
    );
    run(&mut program, "m");
    assert_eq!(
        program.mode(),
        &Mode::Error(
            "Command \":max\" or \":m\" requires a new maximum number of files to display"
                .to_string()
        )
    );
    assert_eq!(program.images(), &list(&["b", "a"]));
    assert_eq!(program.dest_folder(), "/pics/keep");
    assert_eq!(program.requested_max(), 0);
}

#[test]
fn each_command_is_run_from_its_line() {
    let mut program = session(&["b", "d", "a", "c"]);
    run(&mut program, "sort");
    assert_eq!(program.images(), &list(&["a", "b", "c", "d"]));
    assert_eq!(program.index(), 1);
    run(&mut program, "r");
    assert_eq!(program.images(), &list(&["d", "c", "b", "a"]));
    assert_eq!(program.index(), 2);
    run(&mut program, "max 2");
    assert_eq!(program.viewable_window(), 2);
    assert_eq!(program.index(), 1);
    run(&mut program, "sort down");
    assert_eq!(program.images(), &list(&["d", "c", "b", "a"]));
    assert_eq!(program.sort_order(), &Order::Descending);
    assert_eq!(program.index(), 1);
    run(&mut program, "df /x/y\\ z");
    assert_eq!(program.dest_folder(), "/x/y z");
    run(&mut program, "ng /etc/passwd");
    assert_eq!(program.images(), &list(&["/etc/passwd"]));
    assert_eq!(program.viewable_window(), 1);
    assert_eq!(program.requested_max(), 2);
    assert_eq!(program.index(), 0);
    assert_eq!(program.base_dir(), "/etc");
    assert_eq!(program.dest_folder(), "/x/y z");
    assert_eq!(program.mode(), &Mode::Normal);
}

#[test]
fn error_is_cleared_by_the_next_command() {
    let mut program = session(&["b", "a"]);
    run(&mut program, "m many");
    assert_eq!(program.mode(), &Mode::Error("\"many\" is not a positive integer".to_string()));
    run(&mut program, "r");
    assert_eq!(program.mode(), &Mode::Normal);
    assert_eq!(program.images(), &list(&["a", "b"]));
}

#[test]
fn entering_command_mode_shows_an_empty_line() {
    let mut program = session(&["b", "a"]);
    program.enter_command_mode();
    assert!(program.show_infobar());
    assert_eq!(program.mode(), &Mode::Command(String::new()));
    assert_eq!(program.images(), &list(&["b", "a"]));
    run(&mut program, "");
    assert_eq!(program.mode(), &Mode::Normal);
}
