use lazydb::geometry::Rect;
use lazydb::tab_bar::{tab_bar, tab_title, ConsoleTarget, ProfileFacts, TabFacts, TabItem, TabTarget};

fn profiles() -> Vec<ProfileFacts> {
    vec![ProfileFacts { id: 7, name: "prod".to_owned() }]
}

#[test]
fn tab_titles_name_their_connection() {
    let console = |target| TabFacts::Console { title: "Query 1".to_owned(), target };
    assert_eq!(tab_title(&console(None), &profiles()), "Query 1 @Unbound");
    assert_eq!(tab_title(&console(Some(ConsoleTarget { profile: 7, valid: true })), &profiles()), "Query 1 @prod");
    assert_eq!(tab_title(&console(Some(ConsoleTarget { profile: 7, valid: false })), &profiles()), "Query 1 @Invalid:prod");
    assert_eq!(tab_title(&console(Some(ConsoleTarget { profile: 8, valid: true })), &profiles()), "Query 1 @Invalid target");
    assert_eq!(tab_title(&TabFacts::RedisBrowser { database: 3, profile: 7 }, &profiles()), "db3@prod");
    assert_eq!(tab_title(&TabFacts::PrincipalDdl { name: "alice".to_owned(), profile: 9 }, &profiles()), "alice@Invalid target");
    assert_eq!(tab_title(&TabFacts::Dashboard { title: "Metrics".to_owned(), profile: None }, &profiles()), "Metrics @Unbound");
    assert_eq!(tab_title(&TabFacts::Relation { title: "users".to_owned(), profile: 7 }, &profiles()), "users @prod");
    let long = TabFacts::Relation { title: "x".repeat(60), profile: 7 };
    assert_eq!(tab_title(&long, &profiles()), "x".repeat(48));
}

fn items() -> Vec<TabItem> {
    vec![
        TabItem { icon: "D".to_owned(), title: "q1 @local".to_owned(), marker: "x ".to_owned(), can_close: true },
        TabItem { icon: "T".to_owned(), title: "users @local".to_owned(), marker: "x ".to_owned(), can_close: true },
    ]
}

#[test]
fn tabs_that_fit_are_drawn_whole_with_their_click_regions() {
    let bar = tab_bar(&items(), 1, Rect::new(0, 0, 80, 1)).unwrap();
    assert!(!bar.viewport.overflowed);
    assert_eq!((bar.viewport.start, bar.viewport.end), (0, 2));
    assert!(bar.arrows.is_none());
    assert_eq!(bar.cells[0].prefix, " D ");
    assert_eq!(bar.cells[0].title, "q1 @local");
    assert_eq!(bar.cells[0].suffix, " ");
    assert!(!bar.cells[0].active && bar.cells[1].active);
    let hits: Vec<(Rect, TabTarget)> = bar.hits.iter().map(|h| (h.area, h.target)).collect();
    assert_eq!(
        hits,
        vec![
            (Rect::new(0, 0, 13, 1), TabTarget::Tab(0)),
            (Rect::new(13, 0, 2, 1), TabTarget::CloseTab(0)),
            (Rect::new(15, 0, 16, 1), TabTarget::Tab(1)),
            (Rect::new(31, 0, 2, 1), TabTarget::CloseTab(1)),
        ]
    );
}

#[test]
fn overflowing_tabs_keep_the_active_one_and_add_arrows() {
    let bar = tab_bar(&items(), 1, Rect::new(0, 0, 20, 1)).unwrap();
    assert!(bar.viewport.overflowed);
    assert_eq!((bar.viewport.start, bar.viewport.end), (1, 2));
    assert_eq!(bar.tabs_area, Rect::new(1, 0, 18, 1));
    assert_eq!(bar.arrows, Some((Rect::new(0, 0, 1, 1), true, Rect::new(19, 0, 1, 1), false)));
    let hits: Vec<(Rect, TabTarget)> = bar.hits.iter().map(|h| (h.area, h.target)).collect();
    assert_eq!(
        hits,
        vec![
            (Rect::new(1, 0, 16, 1), TabTarget::Tab(1)),
            (Rect::new(17, 0, 2, 1), TabTarget::CloseTab(1)),
            (Rect::new(0, 0, 1, 1), TabTarget::ScrollLeft(0)),
        ]
    );
}

#[test]
fn a_tab_too_narrow_for_its_label_is_cut() {
    let bar = tab_bar(&items(), 0, Rect::new(0, 0, 12, 1)).unwrap();
    assert_eq!((bar.viewport.start, bar.viewport.end), (0, 1));
    assert_eq!(bar.cells[0].prefix, " D ");
    assert_eq!(bar.cells[0].title, "q1 …");
    assert_eq!(bar.cells[0].suffix, "");
}
