use sysoracle::rules::is_rule_file;
use sysoracle::scheduler::{clamp_selection, Command, Scheduler};

#[test]
fn selection_clamps_when_list_shrinks() {
    let mut s = Scheduler::new();
    s.selected = 5;
    s.begin_tick(3);
    assert_eq!(s.selected, 2);
    assert!(s.running);
}

#[test]
fn clamp_selection_values() {
    assert_eq!(clamp_selection(5, 3), 2);
    assert_eq!(clamp_selection(1, 3), 1);
    assert_eq!(clamp_selection(4, 0), 0);
}

#[test]
fn navigation_stays_in_bounds() {
    let mut s = Scheduler::new();
    s.handle(Command::SelectPrevious, 3);
    assert_eq!(s.selected, 0);
    s.handle(Command::SelectNext, 3);
    s.handle(Command::SelectNext, 3);
    s.handle(Command::SelectNext, 3);
    assert_eq!(s.selected, 2);
    s.handle(Command::SelectPrevious, 3);
    assert_eq!(s.selected, 1);
    s.handle(Command::SelectNext, 0);
    assert_eq!(s.selected, 0);
}

#[test]
fn quit_terminates_and_reload_does_nothing() {
    let mut s = Scheduler::new();
    s.selected = 1;
    s.handle(Command::Reload, 4);
    assert!(s.running);
    assert_eq!(s.selected, 1);
    s.handle(Command::Quit, 4);
    assert!(!s.running);
    assert_eq!(s.selected, 1);
}

#[test]
fn rule_files_by_extension() {
    assert!(is_rule_file("cpu.lua"));
    assert!(is_rule_file("a.b.lua"));
    assert!(is_rule_file("..lua"));
    assert!(!is_rule_file(".lua"));
    assert!(!is_rule_file("lua"));
    assert!(!is_rule_file("notes.txt"));
    assert!(!is_rule_file("cpu.lua.bak"));
    assert!(!is_rule_file("cpu.LUA"));
}
