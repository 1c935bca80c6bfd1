use dualpane::app_state::{Action, ActiveBlock, AppState};
use dualpane::cursor::Command;
use dualpane::dir_block::DirBlock;
use dualpane::file_block::FilesBlock;
use dualpane::input::{input_for_key, Input, Key, PAGE_SIZE};
use dualpane::listing::{EntryKind, Walked};
use dualpane::style::{active_block_style, border_style};

/// A directory tree held in memory, which counts how often it is walked.
struct FakeDisk {
    tree: Vec<(&'static str, Vec<&'static str>, Vec<&'static str>)>,
    walks: usize,
    walked: Vec<String>,
}

impl FakeDisk {
    fn new(tree: Vec<(&'static str, Vec<&'static str>, Vec<&'static str>)>) -> FakeDisk {
        FakeDisk { tree, walks: 0, walked: Vec::new() }
    }

    fn walk(&mut self, path: &str) -> Vec<Walked> {
        self.walks += 1;
        self.walked.push(path.to_string());
        for (dir, dirs, files) in &self.tree {
            if *dir == path {
                let mut walk =
                    vec![Walked::Found { path: path.to_string(), depth: 0, kind: EntryKind::Directory }];
                for child in dirs {
                    walk.push(Walked::Found {
                        path: child.to_string(),
                        depth: 1,
                        kind: EntryKind::Directory,
                    });
                }
                for child in files {
                    walk.push(Walked::Found {
                        path: child.to_string(),
                        depth: 1,
                        kind: EntryKind::File,
                    });
                }
                return walk;
            }
        }
        vec![Walked::Failed]
    }
}

fn open(disk: &mut FakeDisk, root: &str) -> AppState {
    let dir_block = DirBlock::new(root.to_string(), &disk.walk(root));
    let selected = dir_block.selected_path().clone();
    let files_block = FilesBlock::new(selected.clone(), &disk.walk(&selected));
    AppState::new(dir_block, files_block)
}

/// What a host does with the answer of the session.
fn settle(disk: &mut FakeDisk, state: &mut AppState, action: Action) -> bool {
    match action {
        Action::Idle => false,
        Action::Quit => true,
        Action::Relist(path) => {
            let walk = disk.walk(&path);
            state.on_dir_change(&walk);
            false
        }
    }
}

fn press(disk: &mut FakeDisk, state: &mut AppState, input: Input) -> bool {
    let action = state.handle(input);
    settle(disk, state, action)
}

fn texts(paths: &[&str]) -> Vec<String> {
    paths.iter().map(|path| path.to_string()).collect()
}

fn project_disk() -> FakeDisk {
    FakeDisk::new(vec![
        ("root", vec!["docs", "src"], vec![]),
        ("docs", vec![], vec!["readme.md"]),
        ("src", vec![], vec!["a.rs", "b.rs", "c.rs"]),
    ])
}

fn letters_disk() -> FakeDisk {
    FakeDisk::new(vec![
        ("top", vec!["a", "b"], vec!["top.txt"]),
        ("a", vec![], vec!["a1", "a2", "a3"]),
        ("b", vec!["b/sub"], vec!["b1", "b2"]),
    ])
}

#[test]
fn browsing_a_small_project() {
    let mut disk = project_disk();
    let mut state = open(&mut disk, "root");

    assert_eq!(state.active_block(), ActiveBlock::Dir);
    assert_eq!(state.dir_block().entries(), &texts(&["docs", "src"]));
    assert_eq!(state.dir_block().selected_index(), 0);
    assert_eq!(state.selected_dir(), "docs");
    assert_eq!(state.files_block().entries(), &texts(&["readme.md"]));
    assert_eq!(state.files_block().selected_index(), 0);

    let action = state.navigate(Command::Down);
    assert_eq!(action, Action::Relist("src".to_string()));
    assert_eq!(state.dir_block().selected_index(), 1);
    assert_eq!(state.selected_dir(), "src");
    settle(&mut disk, &mut state, action);
    assert_eq!(state.files_block().entries(), &texts(&["a.rs", "b.rs", "c.rs"]));
    assert_eq!(state.files_block().selected_index(), 0);

    state.switch_block();
    assert_eq!(state.active_block(), ActiveBlock::Files);
    let action = state.navigate(Command::PageDown(50));
    assert_eq!(action, Action::Idle);
    assert_eq!(state.files_block().selected_index(), 2);
    assert_eq!(state.selected_file(), Some(&"c.rs".to_string()));
    assert_eq!(state.dir_block().selected_index(), 1);
    assert_eq!(state.files_block().entries(), &texts(&["a.rs", "b.rs", "c.rs"]));
}

#[test]
fn moving_to_another_directory_rebuilds_the_file_pane() {
    let mut disk = letters_disk();
    let mut state = open(&mut disk, "top");
    assert_eq!(state.files_block().entries(), &texts(&["a1", "a2", "a3"]));

    state.switch_block();
    state.navigate(Command::Down);
    state.navigate(Command::Down);
    assert_eq!(state.files_block().selected_index(), 2);
    state.switch_block();

    let action = state.down();
    assert_eq!(action, Action::Relist("b".to_string()));
    // Until the host hands in the listing, nothing of `a` is shown any more.
    assert_eq!(state.files_block().entries().len(), 0);
    assert_eq!(state.files_block().selected_index(), 0);
    assert_eq!(state.files_block().source_path(), "b");

    settle(&mut disk, &mut state, action);
    assert_eq!(state.files_block().entries(), &texts(&["b1", "b2"]));
    assert_eq!(state.files_block().selected_index(), 0);
    assert_eq!(state.files_block().source_path(), "b");
    assert_eq!(state.dir_block().entries(), &texts(&["a", "b"]));
    assert_eq!(state.dir_block().selected_index(), 1);
    assert!(!state.files_block().is_active());
}

#[test]
fn clamped_move_does_not_walk_the_disk_again() {
    let mut disk = letters_disk();
    let mut state = open(&mut disk, "top");
    assert_eq!(disk.walks, 2);

    assert!(!press(&mut disk, &mut state, Input::MoveDown));
    assert_eq!(disk.walks, 3);
    assert_eq!(disk.walked, texts(&["top", "a", "b"]));

    state.switch_block();
    state.down();
    assert_eq!(state.files_block().selected_index(), 1);
    state.switch_block();

    // Already on the last directory: nothing changes and nothing is listed.
    for _ in 0..5 {
        let action = state.down();
        assert_eq!(action, Action::Idle);
        settle(&mut disk, &mut state, action);
        assert_eq!(disk.walks, 3);
        assert_eq!(state.dir_block().selected_index(), 1);
        assert_eq!(state.files_block().entries(), &texts(&["b1", "b2"]));
        assert_eq!(state.files_block().selected_index(), 1);
    }
    assert_eq!(state.page_down(50), Action::Idle);
    assert_eq!(disk.walks, 3);

    assert!(!press(&mut disk, &mut state, Input::MoveUp));
    assert_eq!(disk.walks, 4);
    for _ in 0..5 {
        assert_eq!(state.up(), Action::Idle);
        assert_eq!(state.page_up(50), Action::Idle);
        assert_eq!(state.dir_block().selected_index(), 0);
        assert_eq!(state.files_block().entries(), &texts(&["a1", "a2", "a3"]));
    }
    assert_eq!(disk.walks, 4);
}

#[test]
fn paging_in_the_directory_pane_asks_for_a_listing_too() {
    let mut disk = FakeDisk::new(vec![
        ("r", vec!["d0", "d1", "d2", "d3", "d4"], vec![]),
        ("d0", vec![], vec!["f0"]),
        ("d3", vec![], vec!["f3a", "f3b"]),
        ("d4", vec![], vec!["f4"]),
    ]);
    let mut state = open(&mut disk, "r");
    let action = state.page_down(3);
    assert_eq!(action, Action::Relist("d3".to_string()));
    settle(&mut disk, &mut state, action);
    assert_eq!(state.files_block().entries(), &texts(&["f3a", "f3b"]));

    let action = state.page_down(3);
    assert_eq!(action, Action::Relist("d4".to_string()));
    settle(&mut disk, &mut state, action);
    assert_eq!(state.dir_block().selected_index(), 4);
    assert_eq!(state.files_block().entries(), &texts(&["f4"]));

    let action = state.page_up(50);
    assert_eq!(action, Action::Relist("d0".to_string()));
    settle(&mut disk, &mut state, action);
    assert_eq!(state.dir_block().selected_index(), 0);
    assert_eq!(state.files_block().entries(), &texts(&["f0"]));
}

#[test]
fn navigation_in_the_file_pane_never_asks_for_a_listing() {
    let mut disk = letters_disk();
    let mut state = open(&mut disk, "top");
    state.switch_block();
    let walks = disk.walks;
    let commands = [
        Command::Down,
        Command::Down,
        Command::Down,
        Command::Up,
        Command::PageDown(2),
        Command::PageUp(1),
        Command::PageUp(50),
    ];
    let expected = [1usize, 2, 2, 1, 2, 1, 0];
    for (command, index) in commands.into_iter().zip(expected) {
        let action = state.navigate(command);
        assert_eq!(action, Action::Idle);
        settle(&mut disk, &mut state, action);
        assert_eq!(state.files_block().selected_index(), index);
        assert_eq!(state.dir_block().selected_index(), 0);
        assert_eq!(state.files_block().entries(), &texts(&["a1", "a2", "a3"]));
    }
    assert_eq!(disk.walks, walks);
}

#[test]
fn switching_focus_toggles_between_the_panes() {
    let mut disk = letters_disk();
    let mut state = open(&mut disk, "top");
    assert_eq!(state.active_block(), ActiveBlock::Dir);
    assert!(state.get_dir_widget().is_active);
    assert!(!state.get_files_widget().is_active);
    assert!(state.dir_block().is_active());
    assert!(!state.files_block().is_active());
    assert_eq!(state.get_dir_widget().border_style, active_block_style());
    assert_eq!(state.get_files_widget().border_style, border_style());

    state.switch_block();
    assert_eq!(state.active_block(), ActiveBlock::Files);
    assert!(!state.get_dir_widget().is_active);
    assert!(state.get_files_widget().is_active);
    assert_eq!(state.get_dir_widget().border_style, border_style());
    assert_eq!(state.get_files_widget().border_style, active_block_style());

    state.switch_block();
    assert_eq!(state.active_block(), ActiveBlock::Dir);
    assert!(state.get_dir_widget().is_active);
    assert!(!state.get_files_widget().is_active);

    assert_eq!(state.handle(Input::SwitchFocus), Action::Idle);
    assert_eq!(state.active_block(), ActiveBlock::Files);
    assert_eq!(state.dir_block().selected_index(), 0);
    assert_eq!(state.files_block().entries(), &texts(&["a1", "a2", "a3"]));
}

#[test]
fn widget_data_shows_both_panes() {
    let mut disk = letters_disk();
    let mut state = open(&mut disk, "top");
    let action = state.down();
    settle(&mut disk, &mut state, action);
    state.switch_block();
    state.down();

    let dirs = state.get_dir_widget();
    assert_eq!(dirs.title.content, "Dir");
    assert_eq!(dirs.highlight_symbol, "##");
    assert_eq!(dirs.entries, &texts(&["a", "b"]));
    assert_eq!(dirs.selected_index, 1);
    assert!(!dirs.is_active);
    let files = state.get_files_widget();
    assert_eq!(files.title.content, "Files");
    assert_eq!(files.highlight_symbol, ">>");
    assert_eq!(files.entries, &texts(&["b1", "b2"]));
    assert_eq!(files.selected_index, 1);
    assert!(files.is_active);
}

#[test]
fn activate_block_gives_the_focus_to_the_named_pane() {
    let mut disk = letters_disk();
    let mut state = open(&mut disk, "top");
    state.activate_block(ActiveBlock::Dir);
    assert_eq!(state.active_block(), ActiveBlock::Dir);
    assert!(state.dir_block().is_active());
    assert!(!state.files_block().is_active());

    state.activate_block(ActiveBlock::Files);
    assert_eq!(state.active_block(), ActiveBlock::Files);
    assert!(!state.dir_block().is_active());
    assert!(state.files_block().is_active());
    state.down();
    assert_eq!(state.files_block().selected_index(), 1);

    state.activate_block(ActiveBlock::Files);
    assert_eq!(state.active_block(), ActiveBlock::Files);
    assert!(!state.dir_block().is_active());
    assert!(state.files_block().is_active());
    assert_eq!(state.files_block().selected_index(), 1);
    assert_eq!(state.files_block().entries(), &texts(&["a1", "a2", "a3"]));

    state.activate_block(ActiveBlock::Dir);
    assert_eq!(state.active_block(), ActiveBlock::Dir);
    assert!(state.dir_block().is_active());
    assert!(!state.files_block().is_active());
    assert_eq!(state.files_block().selected_index(), 1);
    assert_eq!(state.dir_block().selected_index(), 0);
    assert_eq!(disk.walks, 2);
}

#[test]
fn session_without_directories_shows_the_files_of_the_root() {
    let mut disk = FakeDisk::new(vec![("lonely", vec![], vec!["one", "two"])]);
    let mut state = open(&mut disk, "lonely");
    assert_eq!(disk.walked, texts(&["lonely", "lonely"]));
    assert_eq!(state.dir_block().entries().len(), 0);
    assert_eq!(state.selected_dir(), "lonely");
    assert_eq!(state.files_block().entries(), &texts(&["one", "two"]));

    for input in [Input::MoveDown, Input::MoveUp, Input::PageDown, Input::PageUp] {
        assert_eq!(state.handle(input), Action::Idle);
        assert_eq!(state.dir_block().selected_index(), 0);
        assert_eq!(state.files_block().entries(), &texts(&["one", "two"]));
    }
    assert_eq!(disk.walks, 2);
}

#[test]
fn directory_that_cannot_be_listed_leaves_an_empty_file_pane() {
    let mut disk = FakeDisk::new(vec![
        ("r", vec!["ok", "gone"], vec![]),
        ("ok", vec![], vec!["f1", "f2"]),
    ]);
    let mut state = open(&mut disk, "r");
    state.switch_block();
    state.down();
    state.switch_block();
    assert!(!press(&mut disk, &mut state, Input::MoveDown));
    assert_eq!(state.selected_dir(), "gone");
    assert_eq!(state.files_block().entries().len(), 0);
    assert_eq!(state.files_block().selected_index(), 0);
    assert_eq!(state.selected_file(), None);

    state.switch_block();
    for input in [Input::MoveDown, Input::PageDown, Input::MoveUp, Input::PageUp] {
        assert!(!press(&mut disk, &mut state, input));
        assert_eq!(state.files_block().selected_index(), 0);
    }
    state.switch_block();
    assert!(!press(&mut disk, &mut state, Input::MoveUp));
    assert_eq!(state.files_block().entries(), &texts(&["f1", "f2"]));
}

#[test]
fn same_path_under_two_indices_is_not_listed_again() {
    let mut disk = FakeDisk::new(vec![
        ("r", vec!["same", "same", "other"], vec![]),
        ("same", vec![], vec!["s1", "s2"]),
        ("other", vec![], vec!["o1"]),
    ]);
    let mut state = open(&mut disk, "r");
    state.switch_block();
    state.down();
    state.switch_block();
    let walks = disk.walks;

    let action = state.down();
    assert_eq!(action, Action::Idle);
    assert_eq!(state.dir_block().selected_index(), 1);
    assert_eq!(state.files_block().entries(), &texts(&["s1", "s2"]));
    assert_eq!(state.files_block().selected_index(), 1);
    assert_eq!(disk.walks, walks);

    let action = state.down();
    assert_eq!(action, Action::Relist("other".to_string()));
    settle(&mut disk, &mut state, action);
    assert_eq!(state.files_block().entries(), &texts(&["o1"]));
    assert_eq!(state.files_block().selected_index(), 0);
}

#[test]
fn inputs_map_to_commands_with_the_page_size() {
    let dirs: Vec<String> = (0..120).map(|i| format!("d{}", i)).collect();
    let mut walk = vec![Walked::Found { path: "r".to_string(), depth: 0, kind: EntryKind::Directory }];
    for dir in &dirs {
        walk.push(Walked::Found { path: dir.clone(), depth: 1, kind: EntryKind::Directory });
    }
    let nothing: Vec<Walked> = Vec::new();
    let dir_block = DirBlock::new("r".to_string(), &walk);
    let files_block = FilesBlock::new("d0".to_string(), &nothing);
    let mut state = AppState::new(dir_block, files_block);

    assert_eq!(PAGE_SIZE, 50);
    assert_eq!(state.handle(Input::PageDown), Action::Relist("d50".to_string()));
    assert_eq!(state.dir_block().selected_index(), 50);
    assert_eq!(state.handle(Input::MoveDown), Action::Relist("d51".to_string()));
    assert_eq!(state.handle(Input::PageDown), Action::Relist("d101".to_string()));
    assert_eq!(state.handle(Input::PageDown), Action::Relist("d119".to_string()));
    assert_eq!(state.handle(Input::PageDown), Action::Idle);
    assert_eq!(state.handle(Input::MoveUp), Action::Relist("d118".to_string()));
    assert_eq!(state.handle(Input::PageUp), Action::Relist("d68".to_string()));
    assert_eq!(state.handle(Input::PageUp), Action::Relist("d18".to_string()));
    assert_eq!(state.handle(Input::PageUp), Action::Relist("d0".to_string()));
    assert_eq!(state.handle(Input::PageUp), Action::Idle);
    assert_eq!(state.dir_block().selected_index(), 0);
}

#[test]
fn quit_leaves_the_session_as_it_is() {
    let mut disk = letters_disk();
    let mut state = open(&mut disk, "top");
    state.switch_block();
    state.down();
    assert!(press(&mut disk, &mut state, Input::Quit));
    assert_eq!(state.handle(Input::Quit), Action::Quit);
    assert_eq!(state.active_block(), ActiveBlock::Files);
    assert_eq!(state.files_block().selected_index(), 1);
    assert_eq!(state.dir_block().selected_index(), 0);
}

#[test]
fn keys_are_bound_to_inputs() {
    assert_eq!(input_for_key(Key::Char('q')), Some(Input::Quit));
    assert_eq!(input_for_key(Key::Char('n')), Some(Input::MoveDown));
    assert_eq!(input_for_key(Key::Char('p')), Some(Input::MoveUp));
    assert_eq!(input_for_key(Key::PageDown), Some(Input::PageDown));
    assert_eq!(input_for_key(Key::PageUp), Some(Input::PageUp));
    assert_eq!(input_for_key(Key::Left), Some(Input::SwitchFocus));
    assert_eq!(input_for_key(Key::Right), Some(Input::SwitchFocus));
    assert_eq!(input_for_key(Key::Other), None);
    assert_eq!(input_for_key(Key::Char('x')), None);
    assert_eq!(input_for_key(Key::Char('Q')), None);
    assert_eq!(input_for_key(Key::Char('N')), None);
}

#[test]
fn key_presses_drive_the_session() {
    let mut disk = project_disk();
    let mut state = open(&mut disk, "root");

    let action = state.on_key(Key::Char('n'));
    assert_eq!(action, Action::Relist("src".to_string()));
    settle(&mut disk, &mut state, action);
    assert_eq!(state.on_key(Key::Char('n')), Action::Idle);
    assert_eq!(state.on_key(Key::Char('z')), Action::Idle);
    assert_eq!(state.on_key(Key::Other), Action::Idle);
    assert_eq!(state.dir_block().selected_index(), 1);

    assert_eq!(state.on_key(Key::Right), Action::Idle);
    assert_eq!(state.active_block(), ActiveBlock::Files);
    assert_eq!(state.on_key(Key::PageDown), Action::Idle);
    assert_eq!(state.files_block().selected_index(), 2);
    assert_eq!(state.on_key(Key::Char('p')), Action::Idle);
    assert_eq!(state.files_block().selected_index(), 1);
    assert_eq!(state.on_key(Key::PageUp), Action::Idle);
    assert_eq!(state.files_block().selected_index(), 0);
    assert_eq!(state.on_key(Key::Left), Action::Idle);
    assert_eq!(state.active_block(), ActiveBlock::Dir);

    let action = state.on_key(Key::Char('p'));
    assert_eq!(action, Action::Relist("docs".to_string()));
    settle(&mut disk, &mut state, action);
    assert_eq!(state.files_block().entries(), &texts(&["readme.md"]));
    assert_eq!(state.on_key(Key::Char('q')), Action::Quit);
}

#[test]
fn file_pane_always_belongs_to_the_designated_directory() {
    let mut disk = FakeDisk::new(vec![
        ("r", vec!["d0", "d1", "d2", "d3"], vec!["r.txt"]),
        ("d0", vec![], vec!["d0/a", "d0/b"]),
        ("d1", vec!["d1/sub"], vec![]),
        ("d2", vec![], vec!["d2/a", "d2/b", "d2/c", "d2/d"]),
    ]);
    let mut state = open(&mut disk, "r");
    let inputs = [
        Input::MoveUp,
        Input::MoveDown,
        Input::PageUp,
        Input::PageDown,
        Input::SwitchFocus,
    ];
    let mut seed: u64 = 0x9e37_79b9_7f4a_7c15;
    for _ in 0..600 {
        seed = seed.wrapping_mul(6364136223846793005).wrapping_add(1442695040888963407);
        let input = inputs[((seed >> 33) % 5) as usize];
        assert!(!press(&mut disk, &mut state, input));

        let dirs = state.dir_block();
        let files = state.files_block();
        assert!(dirs.selected_index() < dirs.entries().len());
        assert_eq!(files.source_path(), state.selected_dir());
        let expected: Vec<String> = match files.source_path().as_str() {
            "d0" => texts(&["d0/a", "d0/b"]),
            "d2" => texts(&["d2/a", "d2/b", "d2/c", "d2/d"]),
            _ => texts(&[]),
        };
        assert_eq!(files.entries(), &expected);
        if files.entries().is_empty() {
            assert_eq!(files.selected_index(), 0);
        } else {
            assert!(files.selected_index() < files.entries().len());
        }
        assert_eq!(dirs.is_active(), state.active_block() == ActiveBlock::Dir);
        assert_eq!(files.is_active(), state.active_block() == ActiveBlock::Files);
    }
}
