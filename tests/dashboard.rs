use procdash::config::{build_processes, Config, ProcessConfig};
use procdash::dashboard::{handle_key, Action, App, View};
use procdash::keybinds::{get_keybinds, keybind_for, Keybind, KeybindContext, KeybindType};
use procdash::util::Key;

#[test]
fn keybind_constructors_set_context() {
    let k = Keybind::new(KeybindType::Start, "Start");
    assert_eq!(k.t, KeybindType::Start);
    assert_eq!(k.name, "Start");
    assert_eq!(k.context, KeybindContext::Main);
    let l = Keybind::new_logs(KeybindType::Escape, "Escape");
    assert_eq!(l.context, KeybindContext::Logs);
}

#[test]
fn keybind_table_matches_lookup() {
    let all = get_keybinds();
    assert_eq!(all.len(), 9);
    for (k, b) in &all {
        let found = keybind_for(k).unwrap();
        assert_eq!(found.t, b.t);
        assert_eq!(found.name, b.name);
    }
    assert!(keybind_for(&Key::Char('z')).is_none());
    assert_eq!(keybind_for(&Key::Enter).unwrap().name, "View Logs");
}

#[test]
fn navigation_wraps() {
    let mut app = App::new(3);
    assert_eq!(handle_key(&mut app, Key::Up), Action::Nothing);
    assert_eq!(app.selected(), 2);
    handle_key(&mut app, Key::Down);
    assert_eq!(app.selected(), 0);
    handle_key(&mut app, Key::Down);
    assert_eq!(app.selected(), 1);
}

#[test]
fn process_actions_use_selection() {
    let mut app = App::new(2);
    handle_key(&mut app, Key::Down);
    assert_eq!(handle_key(&mut app, Key::Char('s')), Action::Start(1));
    assert_eq!(handle_key(&mut app, Key::Char('x')), Action::Stop(1));
    assert_eq!(handle_key(&mut app, Key::Char('r')), Action::Restart(1));
}

#[test]
fn empty_list_asks_nothing() {
    let mut app = App::new(0);
    assert_eq!(handle_key(&mut app, Key::Char('s')), Action::Nothing);
    assert_eq!(handle_key(&mut app, Key::Up), Action::Nothing);
    assert_eq!(app.selected(), 0);
}

#[test]
fn quit_needs_confirmation() {
    let mut app = App::new(1);
    handle_key(&mut app, Key::Char('q'));
    assert_eq!(app.view, View::QuitConfirm);
    assert_eq!(handle_key(&mut app, Key::Char('n')), Action::Nothing);
    assert_eq!(app.view, View::List);
    handle_key(&mut app, Key::Char('q'));
    assert_eq!(handle_key(&mut app, Key::Char('y')), Action::Quit);
}

#[test]
fn log_view_scrolls_and_escapes() {
    let mut app = App::new(1);
    handle_key(&mut app, Key::Enter);
    assert_eq!(app.view, View::Logs);
    handle_key(&mut app, Key::Up);
    assert_eq!(app.log_scroll, 0);
    handle_key(&mut app, Key::Down);
    handle_key(&mut app, Key::Down);
    handle_key(&mut app, Key::Up);
    assert_eq!(app.log_scroll, 1);
    handle_key(&mut app, Key::Esc);
    assert_eq!(app.view, View::List);
}

#[test]
fn registry_follows_config() {
    let config = Config {
        processes: vec![
            ProcessConfig {
                name: "a".to_string(),
                cmd: vec!["sleep".to_string(), "1".to_string()],
                cwd: Some("/tmp".to_string()),
                port: Some(3000),
            },
            ProcessConfig { name: "b".to_string(), cmd: vec![], cwd: None, port: None },
        ],
    };
    let ps = build_processes(&config);
    assert_eq!(ps.len(), 2);
    assert_eq!(ps[0].name, "a");
    assert_eq!(ps[0].command, vec!["sleep".to_string(), "1".to_string()]);
    assert_eq!(ps[0].cwd.as_deref(), Some("/tmp"));
    assert_eq!(ps[0].port, Some(3000));
    assert_eq!(ps[1].name, "b");
    assert!(!ps[1].is_running());
}
