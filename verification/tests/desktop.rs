use titanium_os::desktop::{screen_layout, taskbar_areas, Action, Area, Desktop, Event, TaskbarArea, Theme};
use titanium_os::input::Key;

fn key(d: &mut Desktop, k: Key) -> Action {
    d.handle_event(Event::Key(k), &Vec::new())
}

fn is_continue(a: &Action) -> bool {
    matches!(a, Action::Continue)
}

fn is_exit(a: &Action) -> bool {
    matches!(a, Action::Exit)
}

#[test]
fn new_desktop() {
    let d = Desktop::new();
    assert_eq!(d.current_tab, 0);
    assert_eq!(d.theme, Theme::Black);
    assert_eq!(d.target_fps, 60);
    assert_eq!(d.input_buffer, "");
    assert_eq!(
        d.console_history,
        vec!["Welcome to TitaniumOS Terminal!", "Type 'help' for a list of commands.", ""]
    );
    assert_eq!((d.fps, d.frame_count), (0, 0));
}

#[test]
fn arrows_move_between_tabs() {
    let mut d = Desktop::new();
    assert!(is_continue(&key(&mut d, Key::Right)));
    assert_eq!(d.current_tab, 1);
    assert!(is_continue(&key(&mut d, Key::Right)));
    assert_eq!(d.current_tab, 2);
    assert!(is_continue(&key(&mut d, Key::Left)));
    assert_eq!(d.current_tab, 1);
    assert!(is_continue(&key(&mut d, Key::Left)));
    assert_eq!(d.current_tab, 0);
    assert!(is_continue(&key(&mut d, Key::Left)));
    assert_eq!(d.current_tab, 2);
}

#[test]
fn right_from_settings_exits() {
    let mut d = Desktop::new();
    d.current_tab = 2;
    assert!(is_exit(&key(&mut d, Key::Right)));
    assert_eq!(d.current_tab, 3);
}

#[test]
fn esc_exits_from_any_tab() {
    for tab in 0..3 {
        let mut d = Desktop::new();
        d.current_tab = tab;
        assert!(is_exit(&key(&mut d, Key::Esc)));
        assert_eq!(d.current_tab, tab);
    }
}

#[test]
fn console_typing_and_backspace() {
    let mut d = Desktop::new();
    key(&mut d, Key::Right);
    for c in "lsx".chars() {
        assert!(is_continue(&key(&mut d, Key::Char(c))));
    }
    key(&mut d, Key::Backspace);
    assert_eq!(d.input_buffer, "ls");
    let mut other = Desktop::new();
    key(&mut other, Key::Char('a'));
    assert_eq!(other.input_buffer, "");
}

#[test]
fn enter_runs_the_trimmed_command() {
    let mut d = Desktop::new();
    d.current_tab = 1;
    for c in "  uname -a ".chars() {
        key(&mut d, Key::Char(c));
    }
    match key(&mut d, Key::Enter) {
        Action::RunCommand(c) => assert_eq!(c, "uname -a"),
        _ => panic!("expected a command"),
    }
    assert_eq!(d.console_history.len(), 4);
    assert_eq!(d.console_history[3], "guest@titanium_os:~#   uname -a ");
    d.finish_command(0, &String::from("Linux\r\nx86_64\n"));
    assert_eq!(&d.console_history[3..], &["guest@titanium_os:~#   uname -a ", "Linux", "x86_64", ""]);
    assert_eq!(d.input_buffer, "");
}

#[test]
fn enter_on_blank_input_does_nothing() {
    let mut d = Desktop::new();
    d.current_tab = 1;
    key(&mut d, Key::Char(' '));
    key(&mut d, Key::Char('\t'));
    assert!(is_continue(&key(&mut d, Key::Enter)));
    assert_eq!(d.console_history.len(), 3);
    assert_eq!(d.input_buffer, " \t");
}

#[test]
fn status_two_clears_the_console() {
    let mut d = Desktop::new();
    d.current_tab = 1;
    key(&mut d, Key::Char('c'));
    assert!(matches!(key(&mut d, Key::Enter), Action::RunCommand(_)));
    d.finish_command(2, &String::from("ignored"));
    assert_eq!(d.console_history, vec![""]);
    assert_eq!(d.input_buffer, "");
}

#[test]
fn settings_keys() {
    let mut d = Desktop::new();
    d.current_tab = 2;
    key(&mut d, Key::Char('1'));
    assert_eq!(d.theme, Theme::Blue);
    key(&mut d, Key::Char('3'));
    assert_eq!(d.theme, Theme::DarkGray);
    key(&mut d, Key::Char('2'));
    assert_eq!(d.theme, Theme::Black);
    key(&mut d, Key::Char('4'));
    assert_eq!(d.target_fps, 30);
    key(&mut d, Key::Char('6'));
    assert_eq!(d.target_fps, 144);
    key(&mut d, Key::Char('7'));
    assert_eq!(d.target_fps, 9999);
    assert_eq!(d.frame_limit(), None);
    key(&mut d, Key::Char('5'));
    assert_eq!(d.target_fps, 60);
    assert_eq!(d.frame_limit(), Some(60));
    key(&mut d, Key::Char('9'));
    assert_eq!(d.target_fps, 60);
}

#[test]
fn settings_keys_only_on_settings_tab() {
    let mut d = Desktop::new();
    key(&mut d, Key::Char('1'));
    key(&mut d, Key::Char('7'));
    assert_eq!(d.theme, Theme::Black);
    assert_eq!(d.target_fps, 60);
}

#[test]
fn taskbar_entries() {
    let areas = taskbar_areas(1, 20);
    assert_eq!(
        areas,
        vec![
            TaskbarArea { start_x: 3, end_x: 15, y: 21 },
            TaskbarArea { start_x: 16, end_x: 28, y: 21 },
            TaskbarArea { start_x: 29, end_x: 42, y: 21 },
            TaskbarArea { start_x: 43, end_x: 56, y: 21 },
        ]
    );
}

#[test]
fn clicks_on_the_taskbar() {
    let areas = taskbar_areas(1, 20);
    let mut d = Desktop::new();
    assert!(is_continue(&d.handle_event(Event::LeftClick { column: 16, row: 21 }, &areas)));
    assert_eq!(d.current_tab, 1);
    assert!(is_continue(&d.handle_event(Event::LeftClick { column: 41, row: 21 }, &areas)));
    assert_eq!(d.current_tab, 2);
    assert!(is_continue(&d.handle_event(Event::LeftClick { column: 15, row: 21 }, &areas)));
    assert_eq!(d.current_tab, 2);
    assert!(is_continue(&d.handle_event(Event::LeftClick { column: 5, row: 20 }, &areas)));
    assert_eq!(d.current_tab, 2);
    assert!(is_continue(&d.handle_event(Event::LeftClick { column: 3, row: 21 }, &areas)));
    assert_eq!(d.current_tab, 0);
    assert!(is_exit(&d.handle_event(Event::LeftClick { column: 55, row: 21 }, &areas)));
    assert!(is_continue(&d.handle_event(Event::Other, &areas)));
}

#[test]
fn screen_layout_of_a_terminal() {
    let l = screen_layout(Area { x: 0, y: 0, width: 80, height: 24 });
    assert_eq!(l.main, Area { x: 1, y: 1, width: 78, height: 19 });
    assert_eq!(l.taskbar, Area { x: 1, y: 20, width: 78, height: 3 });
    assert_eq!(l.tab_areas, Some(taskbar_areas(1, 20)));
}

#[test]
fn frames_are_counted_per_second() {
    let mut d = Desktop::new();
    assert!(!d.begin_frame(false));
    assert!(!d.begin_frame(false));
    assert_eq!((d.fps, d.frame_count), (0, 2));
    assert!(d.begin_frame(true));
    assert_eq!((d.fps, d.frame_count), (3, 0));
    d.begin_frame(false);
    assert_eq!((d.fps, d.frame_count), (3, 1));
}

#[test]
fn console_text_ends_with_the_prompt() {
    let mut d = Desktop::new();
    d.current_tab = 1;
    key(&mut d, Key::Char('p'));
    assert_eq!(
        d.console_text(),
        "Welcome to TitaniumOS Terminal!\nType 'help' for a list of commands.\n\nguest@titanium_os:~# p"
    );
    d.console_history.clear();
    assert_eq!(d.console_text(), "guest@titanium_os:~# p");
}

#[test]
fn settings_and_taskbar_texts() {
    let mut d = Desktop::new();
    let expected = " 🛠️ Settings Menu\n\n [Background Color] Press:\n 1 -> Deep Blue\n 2 -> Classic Black\n 3 -> Slate Gray\n\n [Frame Rate Limiter / Display Hz] Press:\n 4 -> Set to 30 Hz (Power Save)\n 5 -> Set to 60 Hz (Standard)\n 6 -> Set to 144 Hz (Gaming)\n 7 -> Uncapped (Max Performance)\n\n Current Limiter Status: 60 Hz\n\n System Info Summary:\n Host: Hybrid Linux Environment";
    assert_eq!(d.settings_text(), expected);
    assert_eq!(d.taskbar_title(), " Taskbar | FPS: 0 | Limit: 60Hz ");
    d.target_fps = 9999;
    d.fps = 57;
    assert!(d.settings_text().contains("Current Limiter Status: UNLIMITED\n"));
    assert_eq!(d.taskbar_title(), " Taskbar | FPS: 57 | Limit: NoneHz ");
}

#[test]
fn home_text_shows_banner_and_welcome() {
    let ascii_art = r#"
  _________________________ 
  _______   _
 |__   __| |-|         / __ \ / ____|
    | |    |_|         | |  | | (___  
    | |    | |         | |  | |\___ \ 
    | |    | |         | |__| |____) |
    |_|    |_|          \____/|_____/ 
    
    
    
    
    
      "#;
    let expected = format!(
        "{}\n\n 📁 Documents   🎮 Games\n\n Welcome to your desktop!\n Use Left/Right arrows or click the Taskbar to navigate.",
        ascii_art
    );
    assert_eq!(Desktop::new().home_text(), expected);
}

#[test]
fn layout_rows_for_every_height() {
    for &y in &[0u16, 4, 65530, 65535] {
        for height in (0u16..40).chain([1000, 65535]) {
            let l = screen_layout(Area { x: 3, y, width: 10, height });
            if height < 2 {
                assert_eq!(l.main, Area { x: 0, y: 0, width: 0, height: 0 });
                assert_eq!(l.taskbar, Area { x: 0, y: 0, width: 0, height: 0 });
                continue;
            }
            let top = y.saturating_add(1);
            let bottom = (top as u32 + height as u32 - 2).min(65535) as u16;
            let avail = bottom - top;
            let main = if avail >= 4 { avail - 3 } else { avail.min(1) };
            assert_eq!(l.main, Area { x: 4, y: top, width: 8, height: main });
            assert_eq!(l.taskbar, Area { x: 4, y: top + main, width: 8, height: avail - main });
        }
    }
}
