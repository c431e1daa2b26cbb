use manga_tui::backend::fetch::{
    ChapterData, ChapterPages, ChapterPagesResponse, Command, ErrorKind, FetchOrigin, MangaItem,
};
use manga_tui::backend::tui::{Action, Events, KeyCode, KeyEvent, CONTROL};
use manga_tui::view::app::{App, AppState, PageShown, Screen, PAGE_PERCENT, TOP_TABS_PERCENT};
use manga_tui::view::pages::reader::PageSlot;
use manga_tui::view::pages::search::{InputMode, SearchStatus};
use manga_tui::view::pages::SelectedTabs;
use tokio::sync::mpsc::unbounded_channel;

fn item(id: &str, title: &str) -> MangaItem {
    MangaItem {
        id: String::from(id),
        title: String::from(title),
        description: String::new(),
        tags: Vec::new(),
        img_url: None,
        status: String::new(),
        content_rating: String::new(),
        author: None,
    }
}

fn chapter(pages: usize) -> ChapterPagesResponse {
    let mut data = Vec::new();
    let mut data_saver = Vec::new();
    for i in 1..=pages {
        data.push(format!("full{}.png", i));
        data_saver.push(format!("low{}.jpg", i));
    }
    ChapterPagesResponse {
        base_url: String::from("https://cdn.example"),
        chapter: ChapterPages { hash: String::from("h"), data, data_saver },
    }
}

fn key(code: KeyCode) -> Events {
    Events::Key(KeyEvent::new(code, 0))
}

fn on_detail() -> App {
    let mut app = App::new();
    app.handle_events(Events::GoToMangaPage(item("m1", "One")));
    let _ = app.take_commands();
    app
}

fn on_reader(pages: usize) -> App {
    let mut app = on_detail();
    app.handle_events(Events::ReadChapter(chapter(pages)));
    let _ = app.take_commands();
    app
}

#[test]
fn the_controller_starts_on_the_search_tab() {
    let app = App::new();
    assert_eq!(app.state(), AppState::Runnning);
    assert!(app.is_running());
    assert_eq!(app.current_tab(), SelectedTabs::Search);
    assert!(app.manga_page().is_none());
    assert!(app.manga_reader_page().is_none());
    assert_eq!(app.pending_events(), 0);
    assert_eq!(app.pending_actions(), 0);
}

#[test]
fn quit_ends_the_loop_from_every_tab() {
    let mut app = App::new();
    app.update(Action::Quit);
    assert_eq!(app.state(), AppState::Done);
    let mut app = on_detail();
    app.update(Action::Quit);
    assert_eq!(app.state(), AppState::Done);
    let mut app = on_reader(3);
    app.update(Action::Quit);
    assert_eq!(app.state(), AppState::Done);
    assert!(!app.is_running());
}

#[test]
fn a_queued_quit_ends_the_loop_within_one_tick() {
    let mut app = on_reader(3);
    app.post_action(Action::Quit);
    app.post_event(Events::Tick);
    assert!(!app.tick());
    assert_eq!(app.state(), AppState::Done);
}

#[test]
fn the_quit_chord_ends_the_loop_within_one_tick() {
    let mut app = on_detail();
    app.post_event(Events::Key(KeyEvent::new(KeyCode::Char('c'), CONTROL)));
    assert!(!app.tick());
    assert_eq!(app.state(), AppState::Done);
    assert_eq!(app.current_tab(), SelectedTabs::MangaTab);
}

#[test]
fn the_quit_chord_is_text_while_typing() {
    let mut app = App::new();
    app.post_event(key(KeyCode::Char('s')));
    assert!(app.tick());
    assert_eq!(app.search_page().input_mode(), InputMode::Typing);
    app.post_event(Events::Key(KeyEvent::new(KeyCode::Char('c'), CONTROL)));
    assert!(app.tick());
    assert_eq!(app.state(), AppState::Runnning);
    assert_eq!(app.search_page().query(), "c");
}

#[test]
fn a_controller_that_is_done_does_nothing() {
    let mut app = App::new();
    app.update(Action::Quit);
    app.post_event(Events::GoToMangaPage(item("m1", "One")));
    app.post_action(Action::NextTab);
    assert!(!app.tick());
    assert_eq!(app.pending_events(), 1);
    assert_eq!(app.pending_actions(), 1);
    assert_eq!(app.current_tab(), SelectedTabs::Search);
    assert!(app.manga_page().is_none());
}

#[test]
fn one_event_and_one_action_per_tick() {
    let mut app = App::new();
    app.post_event(Events::Tick);
    app.post_event(Events::Tick);
    app.post_event(Events::GoToMangaPage(item("m1", "One")));
    app.post_action(Action::NextTab);
    app.post_action(Action::NextTab);
    assert!(app.tick());
    assert_eq!(app.pending_events(), 2);
    assert_eq!(app.pending_actions(), 1);
    assert!(app.tick());
    assert_eq!(app.pending_events(), 1);
    assert_eq!(app.pending_actions(), 0);
    assert_eq!(app.current_tab(), SelectedTabs::Search);
    assert!(app.tick());
    assert_eq!(app.pending_events(), 0);
    assert_eq!(app.current_tab(), SelectedTabs::MangaTab);
    assert!(app.tick());
    assert_eq!(app.current_tab(), SelectedTabs::MangaTab);
}

#[test]
fn opening_a_result_brings_the_detail_page() {
    let mut app = App::new();
    app.handle_events(Events::GoToMangaPage(item("m1", "One")));
    assert_eq!(app.current_tab(), SelectedTabs::MangaTab);
    assert_eq!(app.manga_page().unwrap().id(), "m1");
    let commands = app.take_commands();
    assert_eq!(commands.len(), 2);
    assert!(matches!(&commands[0], Command::MangaChapters { .. }));
    assert!(matches!(&commands[1], Command::LoadHistory { .. }));
    assert!(app.take_commands().is_empty());
    app.handle_events(Events::GoToMangaPage(item("m2", "Two")));
    assert_eq!(app.manga_page().unwrap().id(), "m2");
    assert_eq!(app.manga_page().unwrap().title(), "Two");
}

#[test]
fn opening_a_chapter_brings_the_reader() {
    let mut app = on_detail();
    app.handle_events(Events::ReadChapter(chapter(12)));
    assert_eq!(app.current_tab(), SelectedTabs::ReaderTab);
    let reader = app.manga_reader_page().unwrap();
    assert_eq!(reader.page_count(), 12);
    assert_eq!(reader.current_page(), 1);
    assert_eq!(reader.generation(), 0);
    assert!(matches!(reader.slot(1), Some(PageSlot::Requested)));
    assert!(matches!(reader.slot(4), Some(PageSlot::Missing)));
    let commands = app.take_commands();
    assert_eq!(commands.len(), 3);
    assert!(matches!(&commands[0], Command::ChapterPage { generation: 0, position: 1, .. }));
    assert!(matches!(&commands[2], Command::ChapterPage { generation: 0, position: 3, .. }));
    assert_eq!(app.manga_page().unwrap().id(), "m1");
}

#[test]
fn every_reader_gets_a_tag_of_its_own() {
    let mut app = on_reader(3);
    assert_eq!(app.manga_reader_page().unwrap().generation(), 0);
    app.handle_events(Events::ReadChapter(chapter(4)));
    assert_eq!(app.manga_reader_page().unwrap().generation(), 1);
    assert_eq!(app.manga_reader_page().unwrap().page_count(), 4);
    app.handle_events(Events::GoBackMangaPage);
    app.handle_events(Events::ReadChapter(chapter(5)));
    assert_eq!(app.manga_reader_page().unwrap().generation(), 2);
}

#[test]
fn going_back_destroys_the_reader_and_keeps_the_detail_page() {
    let mut app = on_detail();
    app.handle_events(Events::ChaptersLoaded {
        manga_id: String::from("m1"),
        chapters: vec![
            ChapterData { id: String::from("c1"), title: String::from("Ch1") },
            ChapterData { id: String::from("c2"), title: String::from("Ch2") },
        ],
    });
    app.post_event(key(KeyCode::Down));
    assert!(app.tick());
    assert_eq!(app.manga_page().unwrap().selected(), 1);
    app.handle_events(Events::ReadChapter(chapter(3)));
    assert_eq!(app.current_tab(), SelectedTabs::ReaderTab);
    app.handle_events(Events::GoBackMangaPage);
    assert_eq!(app.current_tab(), SelectedTabs::MangaTab);
    assert!(app.manga_reader_page().is_none());
    let page = app.manga_page().unwrap();
    assert_eq!(page.id(), "m1");
    assert_eq!(page.chapters().len(), 2);
    assert_eq!(page.selected(), 1);
}

#[test]
fn going_back_without_a_detail_page_leads_to_the_search_tab() {
    let mut app = App::new();
    app.handle_events(Events::ReadChapter(chapter(3)));
    assert_eq!(app.current_tab(), SelectedTabs::ReaderTab);
    app.handle_events(Events::GoBackMangaPage);
    assert_eq!(app.current_tab(), SelectedTabs::Search);
    assert!(app.manga_reader_page().is_none());
    let mut app = App::new();
    app.handle_events(Events::GoBackMangaPage);
    assert_eq!(app.current_tab(), SelectedTabs::Search);
}

#[test]
fn returning_to_the_search_page_destroys_the_other_pages() {
    let mut app = on_reader(3);
    app.handle_events(Events::GoSearchPage);
    assert_eq!(app.current_tab(), SelectedTabs::Search);
    assert!(app.manga_page().is_none());
    assert!(app.manga_reader_page().is_none());
    let mut app = on_reader(3);
    app.update(Action::GoToSearchPage);
    assert_eq!(app.current_tab(), SelectedTabs::Search);
    assert!(app.manga_page().is_none());
    assert!(app.manga_reader_page().is_none());
}

#[test]
fn the_search_page_keeps_its_state_through_navigation() {
    let mut app = App::new();
    app.handle_events(Events::SearchCompleted {
        request: 0,
        mangas: vec![item("m1", "One"), item("m2", "Two")],
    });
    app.post_event(key(KeyCode::Down));
    assert!(app.tick());
    assert_eq!(app.search_page().selected(), 1);
    app.handle_events(Events::GoToMangaPage(item("m2", "Two")));
    app.handle_events(Events::ReadChapter(chapter(3)));
    app.handle_events(Events::GoBackMangaPage);
    app.handle_events(Events::GoSearchPage);
    assert_eq!(app.current_tab(), SelectedTabs::Search);
    assert_eq!(app.search_page().result_count(), 2);
    assert_eq!(app.search_page().selected(), 1);
    assert_eq!(app.search_page().results()[1].id, "m2");
}

#[test]
fn the_tabs_cycle_among_the_pages_that_are_there() {
    let mut app = App::new();
    app.next_tab();
    assert_eq!(app.current_tab(), SelectedTabs::Search);
    app.previous_tab();
    assert_eq!(app.current_tab(), SelectedTabs::Search);
    let mut app = on_detail();
    app.next_tab();
    assert_eq!(app.current_tab(), SelectedTabs::Search);
    app.next_tab();
    assert_eq!(app.current_tab(), SelectedTabs::MangaTab);
    app.previous_tab();
    assert_eq!(app.current_tab(), SelectedTabs::Search);
    app.update(Action::PreviousTab);
    assert_eq!(app.current_tab(), SelectedTabs::MangaTab);
    assert_eq!(app.manga_page().unwrap().id(), "m1");
}

#[test]
fn the_tabs_never_select_the_reader() {
    let mut app = on_reader(3);
    app.handle_events(Events::GoToMangaPage(item("m2", "Two")));
    assert_eq!(app.current_tab(), SelectedTabs::MangaTab);
    assert!(app.manga_reader_page().is_some());
    for _ in 0..4 {
        app.next_tab();
        assert_ne!(app.current_tab(), SelectedTabs::ReaderTab);
        app.previous_tab();
        assert_ne!(app.current_tab(), SelectedTabs::ReaderTab);
        app.update(Action::NextTab);
        assert_ne!(app.current_tab(), SelectedTabs::ReaderTab);
    }
    let mut app = on_reader(3);
    app.next_tab();
    assert_eq!(app.current_tab(), SelectedTabs::ReaderTab);
    app.previous_tab();
    assert_eq!(app.current_tab(), SelectedTabs::ReaderTab);
}

#[test]
fn a_result_for_a_destroyed_reader_is_dropped() {
    let mut app = on_reader(3);
    let generation = app.manga_reader_page().unwrap().generation();
    app.handle_events(Events::GoBackMangaPage);
    assert!(app.manga_reader_page().is_none());
    app.handle_events(Events::PageLoaded { generation, position: 1, image: vec![1, 2, 3] });
    assert!(app.manga_reader_page().is_none());
    assert_eq!(app.current_tab(), SelectedTabs::MangaTab);
    let page = app.manga_page().unwrap();
    assert_eq!(page.id(), "m1");
    assert_eq!(page.notice(), None);
    assert!(page.is_loading());
    assert!(page.cover().is_none());
    assert_eq!(page.pending_actions(), 0);
    assert_eq!(app.search_page().status(), SearchStatus::Idle);
    assert_eq!(app.pending_events(), 0);
    assert_eq!(app.pending_actions(), 0);
    assert!(app.take_commands().is_empty());
    app.handle_events(Events::FetchFailed {
        origin: FetchOrigin::Page { generation, position: 1 },
        reason: ErrorKind::NetworkError,
    });
    assert_eq!(app.manga_page().unwrap().notice(), None);
}

#[test]
fn a_result_for_a_replaced_reader_is_dropped() {
    let mut app = on_reader(3);
    let old = app.manga_reader_page().unwrap().generation();
    app.handle_events(Events::ReadChapter(chapter(3)));
    let _ = app.take_commands();
    app.handle_events(Events::PageLoaded { generation: old, position: 1, image: vec![1] });
    assert!(matches!(app.manga_reader_page().unwrap().slot(1), Some(PageSlot::Requested)));
    let new = app.manga_reader_page().unwrap().generation();
    assert_ne!(old, new);
    app.handle_events(Events::PageLoaded { generation: new, position: 1, image: vec![1] });
    assert!(matches!(app.manga_reader_page().unwrap().slot(1), Some(PageSlot::Loaded(_))));
    app.handle_events(Events::FetchFailed {
        origin: FetchOrigin::Page { generation: new, position: 2 },
        reason: ErrorKind::DecodeError,
    });
    assert!(matches!(
        app.manga_reader_page().unwrap().slot(2),
        Some(PageSlot::Failed(ErrorKind::DecodeError))
    ));
}

#[test]
fn failures_reach_the_page_in_view_that_asked() {
    let mut app = App::new();
    app.handle_events(Events::FetchFailed {
        origin: FetchOrigin::Search { request: 0 },
        reason: ErrorKind::NetworkError,
    });
    assert_eq!(app.search_page().status(), SearchStatus::Failed(ErrorKind::NetworkError));
    let mut app = on_detail();
    app.handle_events(Events::FetchFailed {
        origin: FetchOrigin::Search { request: 0 },
        reason: ErrorKind::NetworkError,
    });
    assert_eq!(app.search_page().status(), SearchStatus::Idle);
    assert_eq!(app.manga_page().unwrap().notice(), None);
    app.handle_events(Events::FetchFailed {
        origin: FetchOrigin::Chapters { manga_id: String::from("m1") },
        reason: ErrorKind::DecodeError,
    });
    assert_eq!(app.manga_page().unwrap().notice(), Some(ErrorKind::DecodeError));
    app.handle_events(Events::FetchFailed {
        origin: FetchOrigin::ChapterPages {
            manga_id: String::from("other"),
            chapter_id: String::from("c1"),
        },
        reason: ErrorKind::NotFound,
    });
    assert_eq!(app.manga_page().unwrap().notice(), Some(ErrorKind::DecodeError));
    app.handle_events(Events::FetchFailed {
        origin: FetchOrigin::History,
        reason: ErrorKind::PersistenceUnavailable,
    });
    assert_eq!(app.manga_page().unwrap().notice(), Some(ErrorKind::DecodeError));
    assert_eq!(app.current_tab(), SelectedTabs::MangaTab);
    assert!(app.is_running());
}

#[test]
fn results_without_their_page_are_dropped() {
    let mut app = App::new();
    app.handle_events(Events::ChaptersLoaded { manga_id: String::from("m1"), chapters: Vec::new() });
    app.handle_events(Events::CoverLoaded { manga_id: String::from("m1"), image: vec![1] });
    app.handle_events(Events::FetchFailed {
        origin: FetchOrigin::Cover { manga_id: String::from("m1") },
        reason: ErrorKind::NetworkError,
    });
    assert!(app.manga_page().is_none());
    assert_eq!(app.current_tab(), SelectedTabs::Search);
    assert_eq!(app.search_page().status(), SearchStatus::Idle);
}

#[test]
fn only_the_page_in_view_takes_input_and_applies_actions() {
    let mut app = App::new();
    app.post_event(key(KeyCode::Char('s')));
    app.post_event(Events::GoToMangaPage(item("m1", "One")));
    app.post_action(Action::NextTab);
    assert!(app.tick());
    assert_eq!(app.search_page().input_mode(), InputMode::Typing);
    assert!(app.tick());
    assert_eq!(app.current_tab(), SelectedTabs::MangaTab);
    app.post_event(key(KeyCode::Char('x')));
    assert!(app.tick());
    assert_eq!(app.search_page().query(), "");
    assert_eq!(app.search_page().pending_actions(), 0);
}

#[test]
fn a_page_out_of_view_keeps_its_waiting_action() {
    let mut app = on_detail();
    app.update(Action::NextTab);
    assert_eq!(app.current_tab(), SelectedTabs::Search);
    app.post_event(key(KeyCode::Char('s')));
    app.post_action(Action::NextTab);
    assert!(app.tick());
    assert_eq!(app.current_tab(), SelectedTabs::MangaTab);
    assert_eq!(app.search_page().pending_actions(), 1);
    assert_eq!(app.search_page().input_mode(), InputMode::Idle);
    assert!(app.tick());
    assert!(app.tick());
    assert_eq!(app.search_page().pending_actions(), 1);
    app.update(Action::NextTab);
    assert!(app.tick());
    assert_eq!(app.search_page().pending_actions(), 0);
    assert_eq!(app.search_page().input_mode(), InputMode::Typing);
}

#[test]
fn a_search_runs_from_key_to_result() {
    let mut app = App::new();
    for code in [KeyCode::Char('s'), KeyCode::Char('o'), KeyCode::Char('p'), KeyCode::Enter] {
        app.post_event(key(code));
    }
    for _ in 0..4 {
        assert!(app.tick());
    }
    let commands = app.take_commands();
    assert_eq!(commands.len(), 1);
    match &commands[0] {
        Command::SearchMangas { request, term, page } => {
            assert_eq!(*request, 1);
            assert_eq!(term, "op");
            assert_eq!(*page, 1);
        }
        _ => panic!("expected a search"),
    }
    assert_eq!(app.search_page().status(), SearchStatus::Loading);
    app.post_event(Events::SearchCompleted { request: 1, mangas: vec![item("m1", "One")] });
    assert!(app.tick());
    assert_eq!(app.search_page().result_count(), 1);
    app.post_event(key(KeyCode::Enter));
    assert!(app.tick());
    assert_eq!(app.pending_events(), 1);
    assert_eq!(app.current_tab(), SelectedTabs::Search);
    assert!(app.tick());
    assert_eq!(app.current_tab(), SelectedTabs::MangaTab);
    assert_eq!(app.manga_page().unwrap().title(), "One");
}

#[test]
fn the_reader_turns_pages_through_the_loop() {
    let mut app = on_reader(12);
    app.post_event(key(KeyCode::Down));
    assert!(app.tick());
    assert_eq!(app.manga_reader_page().unwrap().current_page(), 2);
    let commands = app.take_commands();
    assert_eq!(commands.len(), 1);
    assert!(matches!(&commands[0], Command::ChapterPage { position: 4, .. }));
    app.post_event(key(KeyCode::Backspace));
    assert!(app.tick());
    assert_eq!(app.current_tab(), SelectedTabs::ReaderTab);
    assert!(app.tick());
    assert_eq!(app.current_tab(), SelectedTabs::MangaTab);
    assert!(app.manga_reader_page().is_none());
}

#[test]
fn the_tab_bar_names_the_manga_on_the_detail_tab() {
    let app = App::new();
    let tabs = app.render_top_tabs();
    assert_eq!(tabs.titles, vec![String::from("Search")]);
    assert_eq!(tabs.selected, 0);
    let mut app = on_detail();
    let tabs = app.render_top_tabs();
    assert_eq!(tabs.titles, vec![String::from("Search"), String::from("One")]);
    assert_eq!(tabs.selected, 1);
    app.next_tab();
    let tabs = app.render_top_tabs();
    assert_eq!(tabs.titles, vec![String::from("Search")]);
    assert_eq!(tabs.selected, 0);
    let app = on_reader(3);
    assert_eq!(app.render_top_tabs().selected, 2);
    assert_eq!(app.render_top_tabs().titles.len(), 1);
}

#[test]
fn the_screen_follows_the_tab_in_view() {
    let app = App::new();
    assert_eq!(app.render(), Screen::Tabbed { top_tabs: 6, page: 94, shown: PageShown::Search });
    assert_eq!(app.render_pages(), PageShown::Search);
    assert_eq!(TOP_TABS_PERCENT + PAGE_PERCENT, 100);
    let app = on_detail();
    assert_eq!(app.render(), Screen::Tabbed { top_tabs: 6, page: 94, shown: PageShown::Manga });
    assert_eq!(app.render_manga_page().unwrap().id(), "m1");
    assert_eq!(app.render_search_page().result_count(), 0);
    let app = on_reader(3);
    assert_eq!(app.render(), Screen::Reader);
    assert_eq!(app.render_pages(), PageShown::Nothing);
}

#[test]
fn stale_results_are_told_apart_before_they_are_handled() {
    let mut app = on_reader(3);
    let generation = app.manga_reader_page().unwrap().generation();
    let live = Events::PageLoaded { generation, position: 1, image: vec![1] };
    assert_eq!(app.stale_result(&live), None);
    let other = Events::PageLoaded { generation: generation + 5, position: 1, image: vec![1] };
    assert_eq!(app.stale_result(&other), Some(ErrorKind::StaleResult));
    let feed = Events::ChaptersLoaded { manga_id: String::from("m1"), chapters: Vec::new() };
    assert_eq!(app.stale_result(&feed), Some(ErrorKind::StaleResult));
    let read = Events::HistoryLoaded { manga_id: String::from("m1"), chapters_read: Vec::new() };
    assert_eq!(app.stale_result(&read), Some(ErrorKind::StaleResult));
    let search = Events::SearchCompleted { request: 0, mangas: Vec::new() };
    assert_eq!(app.stale_result(&search), Some(ErrorKind::StaleResult));
    let detail = on_detail();
    assert_eq!(detail.stale_result(&feed), None);
    assert_eq!(detail.stale_result(&read), None);
    assert_eq!(detail.stale_result(&search), Some(ErrorKind::StaleResult));
    assert_eq!(detail.stale_result(&live), Some(ErrorKind::StaleResult));
    let feed = Events::ChaptersLoaded { manga_id: String::from("m9"), chapters: Vec::new() };
    assert_eq!(detail.stale_result(&feed), Some(ErrorKind::StaleResult));
    let cover = Events::CoverLoaded { manga_id: String::from("m9"), image: Vec::new() };
    assert_eq!(detail.stale_result(&cover), Some(ErrorKind::StaleResult));
    let cover = Events::CoverLoaded { manga_id: String::from("m1"), image: Vec::new() };
    assert_eq!(detail.stale_result(&cover), None);
    let fresh = App::new();
    assert_eq!(fresh.stale_result(&search), None);
    let search = Events::SearchCompleted { request: 3, mangas: Vec::new() };
    assert_eq!(fresh.stale_result(&search), Some(ErrorKind::StaleResult));
    let failed = Events::FetchFailed {
        origin: FetchOrigin::Page { generation, position: 2 },
        reason: ErrorKind::NetworkError,
    };
    assert_eq!(app.stale_result(&failed), None);
    let written =
        Events::FetchFailed { origin: FetchOrigin::History, reason: ErrorKind::PersistenceUnavailable };
    assert_eq!(app.stale_result(&written), None);
    assert_eq!(app.stale_result(&Events::Tick), None);
    assert_eq!(app.stale_result(&Events::GoBackMangaPage), None);
    app.handle_events(Events::GoBackMangaPage);
    assert_eq!(app.stale_result(&live), Some(ErrorKind::StaleResult));
    assert_eq!(app.stale_result(&failed), Some(ErrorKind::StaleResult));
    app.handle_events(Events::GoSearchPage);
    let feed = Events::ChaptersLoaded { manga_id: String::from("m1"), chapters: Vec::new() };
    assert_eq!(app.stale_result(&feed), Some(ErrorKind::StaleResult));
}

#[test]
fn the_chapters_read_before_reach_the_detail_page() {
    let mut app = on_detail();
    app.handle_events(Events::HistoryLoaded {
        manga_id: String::from("m1"),
        chapters_read: vec![String::from("c1")],
    });
    assert_eq!(app.manga_page().unwrap().read_chapters(), &vec![String::from("c1")]);
    app.handle_events(Events::HistoryLoaded {
        manga_id: String::from("m2"),
        chapters_read: Vec::new(),
    });
    assert_eq!(app.manga_page().unwrap().read_chapters().len(), 1);
}

#[test]
fn events_are_received_from_the_channel_in_order() {
    let (tx, mut rx) = unbounded_channel::<Events>();
    let mut app = App::new();
    assert!(!app.receive(&mut rx));
    assert_eq!(app.pending_events(), 0);
    assert!(tx.send(Events::GoToMangaPage(item("m1", "One"))).is_ok());
    assert!(tx.send(Events::GoSearchPage).is_ok());
    assert!(app.receive(&mut rx));
    assert_eq!(app.pending_events(), 1);
    assert!(app.receive(&mut rx));
    assert_eq!(app.pending_events(), 2);
    assert!(!app.receive(&mut rx));
    assert!(app.tick());
    assert_eq!(app.current_tab(), SelectedTabs::MangaTab);
    assert!(app.tick());
    assert_eq!(app.current_tab(), SelectedTabs::Search);
    assert!(app.manga_page().is_none());
    drop(tx);
    assert!(!app.receive(&mut rx));
    assert_eq!(app.pending_events(), 0);
}

#[test]
fn the_controller_stays_well_formed() {
    let mut app = App::new();
    assert!(app.well_formed());
    app.handle_events(Events::GoBackMangaPage);
    assert!(app.well_formed());
    app.handle_events(Events::ReadChapter(chapter(0)));
    assert!(app.well_formed());
    assert!(app.manga_reader_page().unwrap().well_formed());
    app.handle_events(Events::GoToMangaPage(item("m1", "One")));
    assert!(app.well_formed());
    assert!(app.manga_page().unwrap().well_formed());
    app.handle_events(Events::ReadChapter(chapter(3)));
    app.post_event(key(KeyCode::Down));
    app.post_action(Action::NextTab);
    assert!(app.tick());
    assert!(app.well_formed());
    app.update(Action::GoToSearchPage);
    assert!(app.well_formed());
    assert!(app.search_page().well_formed());
    app.update(Action::Quit);
    assert!(app.well_formed());
}

#[test]
fn what_a_poll_gave_joins_the_queue() {
    let mut app = App::new();
    assert!(!app.take_received(None));
    assert_eq!(app.pending_events(), 0);
    assert!(app.take_received(Some(Events::GoToMangaPage(item("m1", "One")))));
    assert!(app.take_received(Some(Events::Tick)));
    assert_eq!(app.pending_events(), 2);
    assert!(!app.take_received(None));
    assert_eq!(app.pending_events(), 2);
    assert!(app.tick());
    assert_eq!(app.current_tab(), SelectedTabs::MangaTab);
    assert_eq!(app.pending_events(), 1);
}

#[test]
fn an_answer_for_a_page_out_of_view_is_dropped() {
    let mut app = App::new();
    for code in [KeyCode::Char('s'), KeyCode::Enter] {
        app.post_event(key(code));
        assert!(app.tick());
    }
    assert_eq!(app.search_page().status(), SearchStatus::Loading);
    app.handle_events(Events::GoToMangaPage(item("m1", "One")));
    assert_eq!(app.current_tab(), SelectedTabs::MangaTab);
    app.post_event(Events::SearchCompleted { request: 1, mangas: vec![item("m2", "Two")] });
    assert!(app.tick());
    assert_eq!(app.current_tab(), SelectedTabs::MangaTab);
    assert_eq!(app.search_page().status(), SearchStatus::Loading);
    assert_eq!(app.search_page().result_count(), 0);
    app.next_tab();
    assert_eq!(app.current_tab(), SelectedTabs::Search);
    app.handle_events(Events::ChaptersLoaded {
        manga_id: String::from("m1"),
        chapters: vec![ChapterData { id: String::from("c1"), title: String::from("Ch1") }],
    });
    app.handle_events(Events::CoverLoaded { manga_id: String::from("m1"), image: vec![1] });
    app.handle_events(Events::HistoryLoaded {
        manga_id: String::from("m1"),
        chapters_read: vec![String::from("c1")],
    });
    app.handle_events(Events::FetchFailed {
        origin: FetchOrigin::Chapters { manga_id: String::from("m1") },
        reason: ErrorKind::NetworkError,
    });
    let page = app.manga_page().unwrap();
    assert!(page.chapters().is_empty());
    assert!(page.is_loading());
    assert!(page.cover().is_none());
    assert!(page.read_chapters().is_empty());
    assert_eq!(page.notice(), None);
    app.handle_events(Events::SearchCompleted { request: 1, mangas: vec![item("m2", "Two")] });
    assert_eq!(app.search_page().result_count(), 1);
    assert_eq!(app.search_page().status(), SearchStatus::Idle);
}

#[test]
fn a_reader_out_of_view_takes_no_page() {
    let mut app = on_reader(3);
    let generation = app.manga_reader_page().unwrap().generation();
    app.handle_events(Events::GoToMangaPage(item("m2", "Two")));
    assert_eq!(app.current_tab(), SelectedTabs::MangaTab);
    assert!(app.manga_reader_page().is_some());
    app.handle_events(Events::PageLoaded { generation, position: 1, image: vec![1] });
    app.handle_events(Events::FetchFailed {
        origin: FetchOrigin::Page { generation, position: 2 },
        reason: ErrorKind::NetworkError,
    });
    let reader = app.manga_reader_page().unwrap();
    assert!(matches!(reader.slot(1), Some(PageSlot::Requested)));
    assert!(matches!(reader.slot(2), Some(PageSlot::Requested)));
}
