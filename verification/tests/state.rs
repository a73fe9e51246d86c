use brewtui::app::{Action, App, AppPackages, AppPackagesUpdate, AppScreen};
use brewtui::event_loop::{poll_timeout, tick_elapsed, EventLoop, TICK_RATE_NANOS};
use brewtui::homebrew::{Package, PackageInstalled};
use brewtui::keyboard_events::{KeyboardEvent, RawEvent};

fn packages(count: usize) -> Vec<Package> {
    let mut items = Vec::new();
    for index in 0..count {
        items.push(Package {
            name: format!("package{}", index),
            tap: String::from("homebrew/core"),
            desc: String::from("a package"),
            installed: vec![PackageInstalled { version: String::from("1.0"), time: 0 }],
        });
    }
    items
}

fn loaded(count: usize) -> App<u32> {
    let mut app = App::new();
    app.load_packages(packages(count));
    app
}

#[test]
fn new_app_is_on_init_screen() {
    let app: App<u32> = App::new();
    assert_eq!(app.screen, AppScreen::Init);
    assert!(app.packages.is_none());
    assert!(app.update.is_none());
    assert!(!app.quitting);
}

#[test]
fn new_update_holds_what_it_is_given() {
    let update = AppPackagesUpdate::new(vec![1u8, 2, 3], 77u32);
    assert_eq!(update.progress, vec![1u8, 2, 3]);
    assert_eq!(update.process, 77);
}

#[test]
fn new_listing_holds_the_items_in_order() {
    let listing = AppPackages::new(packages(3));
    assert_eq!(listing.scroll, 0);
    let names: Vec<&str> = listing.items.iter().map(|item| item.name.as_str()).collect();
    assert_eq!(names, vec!["package0", "package1", "package2"]);
}

#[test]
fn listing_arrival_switches_to_main_screen() {
    let app = loaded(4);
    assert_eq!(app.screen, AppScreen::Main);
    let listing = app.packages.as_ref().unwrap();
    assert_eq!(listing.items.len(), 4);
    assert_eq!(listing.items[3].name, "package3");
    assert_eq!(listing.scroll, 0);
    assert!(app.update.is_none());
    assert!(!app.quitting);
}

#[test]
fn quit_asks_to_leave_and_changes_nothing() {
    let mut app = loaded(10);
    app.packages.as_mut().unwrap().scroll = 3;
    assert_eq!(app.dispatch(KeyboardEvent::Quit, 20), Action::Quit);
    assert_eq!(app.packages.as_ref().unwrap().scroll, 3);
    assert_eq!(app.screen, AppScreen::Main);
    assert!(app.update.is_none());
    assert!(!app.quitting);
    let mut fresh: App<u32> = App::new();
    assert_eq!(fresh.dispatch(KeyboardEvent::Quit, 20), Action::Quit);
    assert_eq!(fresh.screen, AppScreen::Init);
}

#[test]
fn scroll_commands_move_the_listing() {
    let mut app = loaded(100);
    assert_eq!(app.dispatch(KeyboardEvent::ScrollEnd, 20), Action::Continue);
    assert_eq!(app.packages.as_ref().unwrap().scroll, 82);
    assert_eq!(app.dispatch(KeyboardEvent::ScrollPageUp, 20), Action::Continue);
    assert_eq!(app.packages.as_ref().unwrap().scroll, 62);
    assert_eq!(app.dispatch(KeyboardEvent::ScrollUp, 20), Action::Continue);
    assert_eq!(app.packages.as_ref().unwrap().scroll, 61);
    assert_eq!(app.dispatch(KeyboardEvent::ScrollDown, 20), Action::Continue);
    assert_eq!(app.packages.as_ref().unwrap().scroll, 62);
    assert_eq!(app.dispatch(KeyboardEvent::ScrollStart, 20), Action::Continue);
    assert_eq!(app.packages.as_ref().unwrap().scroll, 0);
    assert_eq!(app.dispatch(KeyboardEvent::ScrollPageDown, 20), Action::Continue);
    assert_eq!(app.packages.as_ref().unwrap().scroll, 20);
    assert_eq!(app.packages.as_ref().unwrap().items.len(), 100);
    assert_eq!(app.screen, AppScreen::Main);
}

#[test]
fn viewport_height_is_taken_afresh_each_time() {
    let mut app = loaded(100);
    app.dispatch(KeyboardEvent::ScrollEnd, 20);
    assert_eq!(app.packages.as_ref().unwrap().scroll, 82);
    app.dispatch(KeyboardEvent::ScrollEnd, 50);
    assert_eq!(app.packages.as_ref().unwrap().scroll, 52);
    app.dispatch(KeyboardEvent::ScrollPageUp, 10);
    assert_eq!(app.packages.as_ref().unwrap().scroll, 42);
}

#[test]
fn other_changes_nothing() {
    let mut app = loaded(10);
    app.packages.as_mut().unwrap().scroll = 4;
    assert_eq!(app.dispatch(KeyboardEvent::Other, 5), Action::Continue);
    assert_eq!(app.packages.as_ref().unwrap().scroll, 4);
    assert!(app.update.is_none());
}

#[test]
fn scroll_without_listing_changes_nothing() {
    let commands = [
        KeyboardEvent::ScrollDown,
        KeyboardEvent::ScrollUp,
        KeyboardEvent::ScrollPageDown,
        KeyboardEvent::ScrollPageUp,
        KeyboardEvent::ScrollEnd,
        KeyboardEvent::ScrollStart,
    ];
    for command in commands {
        let mut app: App<u32> = App::new();
        assert_eq!(app.dispatch(command, 20), Action::Continue);
        assert_eq!(app.screen, AppScreen::Init);
        assert!(app.packages.is_none());
        assert!(app.update.is_none());
        assert!(!app.quitting);
        assert!(app.well_formed());
        app.start_update(6);
        app.push_progress(1);
        assert_eq!(app.dispatch(command, 20), Action::Continue);
        assert_eq!(app.update.as_ref().unwrap().process, 6);
        assert_eq!(app.update.as_ref().unwrap().progress, vec![1u8]);
        assert!(app.packages.is_none());
    }
}

#[test]
fn update_starts_an_upgrade_once() {
    let mut app = loaded(10);
    assert_eq!(app.dispatch(KeyboardEvent::Update, 20), Action::StartUpgrade);
    assert!(app.update.is_none());
    app.start_update(41);
    assert_eq!(app.update.as_ref().unwrap().process, 41);
    assert!(app.update.as_ref().unwrap().progress.is_empty());
    assert_eq!(app.dispatch(KeyboardEvent::Update, 20), Action::Continue);
    assert_eq!(app.update.as_ref().unwrap().process, 41);
    assert!(app.update.as_ref().unwrap().progress.is_empty());
    assert_eq!(app.packages.as_ref().unwrap().scroll, 0);
}

#[test]
fn second_update_keeps_the_gathered_output() {
    let mut app = loaded(10);
    assert_eq!(app.dispatch(KeyboardEvent::Update, 20), Action::StartUpgrade);
    app.start_update(5);
    app.push_progress(b'o');
    app.push_progress(b'k');
    assert_eq!(app.dispatch(KeyboardEvent::Update, 20), Action::Continue);
    assert_eq!(app.update.as_ref().unwrap().progress, b"ok".to_vec());
    assert_eq!(app.update.as_ref().unwrap().process, 5);
}

#[test]
fn update_works_before_the_listing_arrives() {
    let mut app: App<u32> = App::new();
    assert_eq!(app.dispatch(KeyboardEvent::Update, 20), Action::StartUpgrade);
    app.start_update(9);
    assert_eq!(app.screen, AppScreen::Init);
    assert!(app.packages.is_none());
    app.load_packages(packages(2));
    assert_eq!(app.screen, AppScreen::Main);
    assert_eq!(app.update.as_ref().unwrap().process, 9);
}

#[test]
fn progress_is_appended_in_order() {
    let mut app = loaded(1);
    app.start_update(1);
    for byte in b"==> Upgrading\n" {
        app.push_progress(*byte);
    }
    assert_eq!(app.update.as_ref().unwrap().progress, b"==> Upgrading\n".to_vec());
    assert_eq!(app.update.as_ref().unwrap().process, 1);
    assert_eq!(app.packages.as_ref().unwrap().items.len(), 1);
}

#[test]
fn close_stops_a_running_upgrade() {
    let mut app = loaded(10);
    assert_eq!(app.dispatch(KeyboardEvent::Close, 20), Action::Continue);
    app.start_update(3);
    app.push_progress(7);
    assert_eq!(app.dispatch(KeyboardEvent::Close, 20), Action::StopUpgrade);
    assert_eq!(app.update.as_ref().unwrap().process, 3);
    assert_eq!(app.update.as_ref().unwrap().progress, vec![7u8]);
    app.finish_update();
    assert!(app.update.is_none());
    assert_eq!(app.screen, AppScreen::Main);
    assert_eq!(app.packages.as_ref().unwrap().items.len(), 10);
    assert_eq!(app.dispatch(KeyboardEvent::Close, 20), Action::Continue);
    assert_eq!(app.dispatch(KeyboardEvent::Update, 20), Action::StartUpgrade);
}

#[test]
fn finish_without_upgrade_changes_nothing() {
    let mut app = loaded(2);
    app.finish_update();
    assert!(app.update.is_none());
    assert_eq!(app.screen, AppScreen::Main);
    assert_eq!(app.packages.as_ref().unwrap().items.len(), 2);
}

#[test]
fn event_loop_decodes_and_applies() {
    let mut app = loaded(100);
    let mut turns = EventLoop::new();
    assert_eq!(turns.prev_event, None);
    assert_eq!(turns.on_event(&mut app, RawEvent::shifted('G'), 20), Action::Continue);
    assert_eq!(app.packages.as_ref().unwrap().scroll, 82);
    assert_eq!(turns.prev_event, Some(RawEvent::shifted('G')));
    assert_eq!(turns.on_event(&mut app, RawEvent::ctrl('u'), 20), Action::Continue);
    assert_eq!(app.packages.as_ref().unwrap().scroll, 62);
    assert_eq!(turns.on_event(&mut app, RawEvent::plain('g'), 20), Action::Continue);
    assert_eq!(app.packages.as_ref().unwrap().scroll, 62);
    assert_eq!(turns.prev_event, Some(RawEvent::plain('g')));
    assert_eq!(turns.on_event(&mut app, RawEvent::plain('g'), 20), Action::Continue);
    assert_eq!(app.packages.as_ref().unwrap().scroll, 0);
    assert_eq!(turns.prev_event, None);
    assert_eq!(turns.on_event(&mut app, RawEvent::ctrl('d'), 20), Action::Continue);
    assert_eq!(app.packages.as_ref().unwrap().scroll, 20);
    assert_eq!(turns.on_event(&mut app, RawEvent::plain('g'), 20), Action::Continue);
    assert_eq!(app.packages.as_ref().unwrap().scroll, 20);
    assert_eq!(turns.on_event(&mut app, RawEvent::plain('q'), 20), Action::Quit);
    assert_eq!(turns.prev_event, Some(RawEvent::plain('q')));
}

#[test]
fn event_loop_three_g_in_a_row() {
    let mut app = loaded(100);
    app.packages.as_mut().unwrap().scroll = 30;
    let mut turns = EventLoop::new();
    let g = RawEvent::plain('g');
    turns.on_event(&mut app, g, 20);
    assert_eq!(app.packages.as_ref().unwrap().scroll, 30);
    turns.on_event(&mut app, g, 20);
    assert_eq!(app.packages.as_ref().unwrap().scroll, 0);
    app.packages.as_mut().unwrap().scroll = 30;
    turns.on_event(&mut app, g, 20);
    assert_eq!(app.packages.as_ref().unwrap().scroll, 30);
    assert_eq!(turns.prev_event, Some(g));
}

#[test]
fn event_loop_two_updates_in_a_row() {
    let mut app = loaded(3);
    let mut turns = EventLoop::new();
    let update = RawEvent::shifted('U');
    assert_eq!(turns.on_event(&mut app, update, 20), Action::StartUpgrade);
    app.start_update(11);
    assert_eq!(turns.on_event(&mut app, update, 20), Action::Continue);
    assert_eq!(app.update.as_ref().unwrap().process, 11);
    assert!(app.update.as_ref().unwrap().progress.is_empty());
    assert_eq!(turns.on_event(&mut app, RawEvent::escape(), 20), Action::StopUpgrade);
    app.finish_update();
    assert!(app.update.is_none());
    assert_eq!(turns.on_event(&mut app, RawEvent::escape(), 20), Action::Continue);
}

#[test]
fn event_loop_remembers_a_scroll_without_listing() {
    let mut app: App<u32> = App::new();
    let mut turns = EventLoop::new();
    let g = RawEvent::plain('g');
    let j = RawEvent::plain('j');
    assert_eq!(turns.on_event(&mut app, g, 20), Action::Continue);
    assert_eq!(turns.prev_event, Some(g));
    assert_eq!(turns.on_event(&mut app, j, 20), Action::Continue);
    assert_eq!(turns.prev_event, Some(j));
    assert_eq!(app.screen, AppScreen::Init);
    assert!(app.packages.is_none());
    app.load_packages(packages(100));
    app.packages.as_mut().unwrap().scroll = 30;
    assert_eq!(turns.on_event(&mut app, g, 20), Action::Continue);
    assert_eq!(app.packages.as_ref().unwrap().scroll, 30);
    assert_eq!(turns.prev_event, Some(g));
    assert_eq!(turns.on_event(&mut app, g, 20), Action::Continue);
    assert_eq!(app.packages.as_ref().unwrap().scroll, 0);
    assert_eq!(turns.prev_event, None);
}

#[test]
fn event_loop_three_g_before_the_listing() {
    let mut app: App<u32> = App::new();
    let mut turns = EventLoop::new();
    let g = RawEvent::plain('g');
    assert_eq!(turns.on_event(&mut app, g, 20), Action::Continue);
    assert_eq!(turns.prev_event, Some(g));
    assert_eq!(turns.on_event(&mut app, g, 20), Action::Continue);
    assert_eq!(turns.prev_event, None);
    assert_eq!(turns.on_event(&mut app, g, 20), Action::Continue);
    assert_eq!(turns.prev_event, Some(g));
    assert!(app.packages.is_none());
    app.load_packages(packages(100));
    app.packages.as_mut().unwrap().scroll = 30;
    assert_eq!(turns.on_event(&mut app, RawEvent::Other, 20), Action::Continue);
    assert_eq!(turns.prev_event, Some(RawEvent::Other));
    assert_eq!(turns.on_event(&mut app, g, 20), Action::Continue);
    assert_eq!(app.packages.as_ref().unwrap().scroll, 30);
}

#[test]
fn tick_is_a_quarter_of_a_second() {
    assert_eq!(TICK_RATE_NANOS, 250_000_000);
}

#[test]
fn poll_waits_for_the_rest_of_the_tick() {
    assert_eq!(poll_timeout(TICK_RATE_NANOS, 0), 250_000_000);
    assert_eq!(poll_timeout(TICK_RATE_NANOS, 100_000_000), 150_000_000);
    assert_eq!(poll_timeout(TICK_RATE_NANOS, 249_999_999), 1);
    assert_eq!(poll_timeout(TICK_RATE_NANOS, 250_000_000), 0);
    assert_eq!(poll_timeout(TICK_RATE_NANOS, 250_000_001), 0);
    assert_eq!(poll_timeout(TICK_RATE_NANOS, u128::MAX), 0);
    assert_eq!(poll_timeout(u64::MAX, 1), u64::MAX - 1);
    assert_eq!(poll_timeout(0, 0), 0);
}

#[test]
fn tick_is_over_once_its_length_has_passed() {
    assert!(!tick_elapsed(TICK_RATE_NANOS, 0));
    assert!(!tick_elapsed(TICK_RATE_NANOS, 249_999_999));
    assert!(tick_elapsed(TICK_RATE_NANOS, 250_000_000));
    assert!(tick_elapsed(TICK_RATE_NANOS, u128::MAX));
    assert!(tick_elapsed(0, 0));
}

#[test]
fn well_formed_ties_listing_to_main_screen() {
    let mut app: App<u32> = App::new();
    assert!(app.well_formed());
    app.screen = AppScreen::Main;
    assert!(!app.well_formed());
    app.screen = AppScreen::Init;
    app.start_update(2);
    assert!(app.well_formed());
    app.load_packages(packages(3));
    assert!(app.well_formed());
    app.dispatch(KeyboardEvent::ScrollEnd, 1);
    assert!(app.well_formed());
    app.screen = AppScreen::Init;
    assert!(!app.well_formed());
}
