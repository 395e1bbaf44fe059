use notepad::Event;
use notepad::MyApp;
use notepad::Tab;

fn untitled() -> Tab {
    Tab { opened_file: None, content: String::new() }
}

#[test]
fn starts_with_one_untitled_tab() {
    let app = MyApp::default();
    assert_eq!(app.tab_count(), 1);
    assert_eq!(app.current_tab(), 0);
    assert!(app.is_dark_mode());
    assert_eq!(*app.tab(0), untitled());
    assert_eq!(app.active_tab(), Some(&untitled()));
}

#[test]
fn new_tab_twice_then_close_last_then_close_first() {
    let mut app = MyApp::default();
    app.new_tab();
    app.new_tab();
    assert_eq!(app.tab_count(), 3);
    assert_eq!(app.current_tab(), 2);
    app.remove_tab(2);
    assert_eq!(app.tab_count(), 2);
    assert_eq!(app.current_tab(), 1);
    app.remove_tab(0);
    assert_eq!(app.tab_count(), 1);
    assert_eq!(app.current_tab(), 0);
}

#[test]
fn new_tab_is_empty_and_active() {
    let mut app = MyApp::default();
    app.set_content("first".to_string());
    app.new_tab();
    assert_eq!(app.current_tab(), 1);
    assert_eq!(*app.tab(1), untitled());
    assert_eq!(app.tab(0).content, "first");
}

fn three_marked_tabs() -> MyApp {
    let mut app = MyApp::default();
    app.set_content("a".to_string());
    app.new_tab();
    app.set_content("b".to_string());
    app.new_tab();
    app.set_content("c".to_string());
    app
}

#[test]
fn closing_the_active_tab_activates_the_one_before() {
    let mut app = three_marked_tabs();
    app.activate_tab(1);
    app.remove_tab(1);
    assert_eq!(app.tab_count(), 2);
    assert_eq!(app.current_tab(), 0);
    assert_eq!(app.active_tab().unwrap().content, "a");
    assert_eq!(app.tab(1).content, "c");
}

#[test]
fn closing_the_active_first_tab_keeps_index_zero() {
    let mut app = three_marked_tabs();
    app.activate_tab(0);
    app.remove_tab(0);
    assert_eq!(app.tab_count(), 2);
    assert_eq!(app.current_tab(), 0);
    assert_eq!(app.active_tab().unwrap().content, "b");
}

#[test]
fn closing_a_tab_before_the_active_one_moves_the_index_down() {
    let mut app = three_marked_tabs();
    assert_eq!(app.current_tab(), 2);
    app.remove_tab(0);
    assert_eq!(app.current_tab(), 1);
    assert_eq!(app.active_tab().unwrap().content, "c");
}

#[test]
fn closing_a_tab_behind_the_active_one_leaves_the_index() {
    let mut app = three_marked_tabs();
    app.activate_tab(0);
    app.remove_tab(2);
    assert_eq!(app.current_tab(), 0);
    assert_eq!(app.active_tab().unwrap().content, "a");
    assert_eq!(app.tab_count(), 2);
    assert_eq!(app.tab(1).content, "b");
}

#[test]
fn closing_the_last_tab_leaves_no_document() {
    let mut app = MyApp::default();
    app.remove_tab(0);
    assert_eq!(app.tab_count(), 0);
    assert_eq!(app.current_tab(), 0);
    assert_eq!(app.active_tab(), None);
    assert_eq!(app.title(), "Notepad");
}

#[test]
fn new_tab_after_all_were_closed() {
    let mut app = MyApp::default();
    app.remove_tab(0);
    app.new_tab();
    assert_eq!(app.tab_count(), 1);
    assert_eq!(app.current_tab(), 0);
    assert_eq!(app.active_tab(), Some(&untitled()));
}

#[test]
fn active_index_stays_in_range_over_many_steps() {
    let mut app = MyApp::default();
    let mut seed: u32 = 12345;
    for _ in 0..2000 {
        seed = seed.wrapping_mul(1664525).wrapping_add(1013904223);
        let count = app.tab_count();
        if count == 0 || (seed >> 16) % 3 == 0 {
            app.new_tab();
        } else {
            let index = ((seed >> 8) as usize) % count;
            app.remove_tab(index);
        }
        if app.tab_count() > 0 {
            assert!(app.current_tab() < app.tab_count());
        }
    }
}

#[test]
fn activate_tab_changes_only_the_index() {
    let mut app = three_marked_tabs();
    app.activate_tab(1);
    assert_eq!(app.current_tab(), 1);
    assert_eq!(app.tab_count(), 3);
    assert_eq!(app.tab(0).content, "a");
    assert_eq!(app.tab(1).content, "b");
    assert_eq!(app.tab(2).content, "c");
    assert!(app.is_dark_mode());
}

#[test]
fn toggle_theme_flips_and_flips_back() {
    let mut app = MyApp::default();
    assert!(app.is_dark_mode());
    app.toggle_theme();
    assert!(!app.is_dark_mode());
    app.toggle_theme();
    assert!(app.is_dark_mode());
    assert_eq!(app.tab_count(), 1);
}

#[test]
fn set_content_replaces_the_active_text_only() {
    let mut app = three_marked_tabs();
    app.activate_tab(1);
    app.set_content("edited".to_string());
    assert_eq!(app.tab(0).content, "a");
    assert_eq!(app.tab(1).content, "edited");
    assert_eq!(app.tab(2).content, "c");
    assert_eq!(app.tab(1).opened_file, None);
}

#[test]
fn set_content_without_a_tab_does_nothing() {
    let mut app = MyApp::default();
    app.remove_tab(0);
    app.set_content("lost".to_string());
    assert_eq!(app.tab_count(), 0);
}

#[test]
fn tab_events_do_what_the_methods_do() {
    let mut by_event = MyApp::default();
    let mut by_call = MyApp::default();
    by_event.handle(Event::NewTab);
    by_call.new_tab();
    by_event.handle(Event::NewTab);
    by_call.new_tab();
    by_event.handle(Event::ActivateTab(1));
    by_call.activate_tab(1);
    by_event.handle(Event::CloseTab(1));
    by_call.remove_tab(1);
    by_event.handle(Event::ToggleTheme);
    by_call.toggle_theme();
    assert_eq!(by_event.tab_count(), by_call.tab_count());
    assert_eq!(by_event.tab_count(), 2);
    assert_eq!(by_event.current_tab(), by_call.current_tab());
    assert_eq!(by_event.current_tab(), 0);
    assert_eq!(by_event.is_dark_mode(), by_call.is_dark_mode());
    assert!(!by_event.is_dark_mode());
}
