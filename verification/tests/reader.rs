use manga_tui::backend::fetch::{ChapterPages, ChapterPagesResponse, Command, ErrorKind};
use manga_tui::backend::tui::{Events, InputEvent, KeyCode, KeyEvent};
use manga_tui::view::pages::reader::{
    count_positions, MangaReader, PageQuality, PageSlot, ReaderAction, LOW_FIDELITY_PAGES,
    PREFETCH_WINDOW,
};

fn names(prefix: &str, count: usize) -> Vec<String> {
    let mut out = Vec::new();
    for i in 1..=count {
        out.push(format!("{}{}.jpg", prefix, i));
    }
    out
}

fn chapter(low: usize, full: usize) -> ChapterPagesResponse {
    ChapterPagesResponse {
        base_url: String::from("https://cdn.example"),
        chapter: ChapterPages {
            hash: String::from("abc123"),
            data: names("full", full),
            data_saver: names("low", low),
        },
    }
}

fn key(code: KeyCode) -> InputEvent {
    InputEvent::Key(KeyEvent::new(code, 0))
}

fn positions(commands: &Vec<Command>) -> Vec<usize> {
    let mut out = Vec::new();
    for command in commands {
        match command {
            Command::ChapterPage { position, .. } => out.push(*position),
            _ => panic!("a reader asks for page images only"),
        }
    }
    out
}

#[test]
fn twelve_positions_split_after_the_fifth() {
    let reader = MangaReader::new(1, chapter(12, 12));
    assert_eq!(reader.page_count(), 12);
    for position in 1..=5usize {
        let source = reader.resolve(position).unwrap();
        assert_eq!(source.quality, PageQuality::Low);
        assert_eq!(source.file_name, format!("low{}.jpg", position));
    }
    for position in 6..=12usize {
        let source = reader.resolve(position).unwrap();
        assert_eq!(source.quality, PageQuality::Full);
        assert_eq!(source.file_name, format!("full{}.jpg", position));
    }
}

#[test]
fn longer_low_list_still_splits_after_the_fifth() {
    let reader = MangaReader::new(1, chapter(7, 12));
    assert_eq!(reader.resolve(5).unwrap().quality, PageQuality::Low);
    assert_eq!(reader.resolve(6).unwrap().quality, PageQuality::Full);
    assert_eq!(reader.resolve(7).unwrap().file_name, "full7.jpg");
}

#[test]
fn three_positions_are_all_low() {
    let reader = MangaReader::new(1, chapter(3, 3));
    assert_eq!(reader.page_count(), 3);
    for position in 1..=3usize {
        let source = reader.resolve(position).unwrap();
        assert_eq!(source.quality, PageQuality::Low);
        assert_eq!(source.file_name, format!("low{}.jpg", position));
    }
}

#[test]
fn positions_without_a_low_entry_fall_back_to_full() {
    let reader = MangaReader::new(1, chapter(1, 3));
    assert_eq!(reader.page_count(), 3);
    assert_eq!(reader.resolve(1).unwrap().quality, PageQuality::Low);
    assert_eq!(reader.resolve(1).unwrap().file_name, "low1.jpg");
    assert_eq!(reader.resolve(2).unwrap().quality, PageQuality::Full);
    assert_eq!(reader.resolve(2).unwrap().file_name, "full2.jpg");
    assert_eq!(reader.resolve(3).unwrap().quality, PageQuality::Full);
    assert_eq!(reader.resolve(3).unwrap().file_name, "full3.jpg");
}

#[test]
fn low_names_past_the_fifth_add_no_position() {
    let reader = MangaReader::new(1, chapter(8, 6));
    assert_eq!(reader.page_count(), 6);
    assert_eq!(reader.resolve(5).unwrap().quality, PageQuality::Low);
    assert_eq!(reader.resolve(5).unwrap().file_name, "low5.jpg");
    assert_eq!(reader.resolve(6).unwrap().quality, PageQuality::Full);
    assert_eq!(reader.resolve(6).unwrap().file_name, "full6.jpg");
    assert!(reader.resolve(7).is_none());
    assert!(reader.resolve(8).is_none());
    let reader = MangaReader::new(1, chapter(6, 5));
    assert_eq!(reader.page_count(), 5);
    for position in 1..=5usize {
        assert_eq!(reader.resolve(position).unwrap().quality, PageQuality::Low);
    }
    assert!(reader.resolve(6).is_none());
}

#[test]
fn first_positions_without_a_full_entry_fall_back_to_low() {
    let reader = MangaReader::new(1, chapter(4, 2));
    assert_eq!(reader.page_count(), 4);
    for position in 1..=4usize {
        let source = reader.resolve(position).unwrap();
        assert_eq!(source.quality, PageQuality::Low);
        assert_eq!(source.file_name, format!("low{}.jpg", position));
    }
    let reader = MangaReader::new(1, chapter(8, 0));
    assert_eq!(reader.page_count(), 5);
    assert_eq!(reader.resolve(5).unwrap().file_name, "low5.jpg");
    assert!(reader.resolve(6).is_none());
}

#[test]
fn the_number_of_positions() {
    assert_eq!(count_positions(0, 0), 0);
    assert_eq!(count_positions(12, 12), 12);
    assert_eq!(count_positions(6, 5), 5);
    assert_eq!(count_positions(5, 12), 12);
    assert_eq!(count_positions(1, 3), 3);
    assert_eq!(count_positions(3, 1), 3);
    assert_eq!(count_positions(9, 2), 5);
    assert_eq!(count_positions(usize::MAX, 7), 7);
}

#[test]
fn no_low_list_reads_everything_in_full() {
    let reader = MangaReader::new(1, chapter(0, 4));
    for position in 1..=4usize {
        assert_eq!(reader.resolve(position).unwrap().quality, PageQuality::Full);
    }
}

#[test]
fn positions_outside_the_chapter_have_no_source() {
    let reader = MangaReader::new(1, chapter(3, 3));
    assert!(reader.resolve(0).is_none());
    assert!(reader.resolve(4).is_none());
    assert!(reader.slot(0).is_none());
    assert!(reader.slot(4).is_none());
}

#[test]
fn empty_chapter_has_no_position() {
    let mut reader = MangaReader::new(1, chapter(0, 0));
    assert_eq!(reader.page_count(), 0);
    assert_eq!(reader.current_page(), 0);
    reader.update(ReaderAction::NextPage);
    assert_eq!(reader.current_page(), 0);
    reader.update(ReaderAction::PreviousPage);
    assert_eq!(reader.current_page(), 0);
    assert!(reader.request_window(0).is_empty());
    assert!(reader.request_window(1).is_empty());
}

#[test]
fn the_constants_of_the_policy() {
    assert_eq!(LOW_FIDELITY_PAGES, 5);
    assert_eq!(PREFETCH_WINDOW, 2);
}

#[test]
fn turning_pages_is_clamped() {
    let mut reader = MangaReader::new(1, chapter(3, 3));
    assert_eq!(reader.current_page(), 1);
    reader.update(ReaderAction::PreviousPage);
    assert_eq!(reader.current_page(), 1);
    reader.update(ReaderAction::NextPage);
    assert_eq!(reader.current_page(), 2);
    reader.update(ReaderAction::NextPage);
    assert_eq!(reader.current_page(), 3);
    reader.update(ReaderAction::NextPage);
    assert_eq!(reader.current_page(), 3);
    reader.update(ReaderAction::PreviousPage);
    assert_eq!(reader.current_page(), 2);
}

#[test]
fn a_window_is_requested_once() {
    let mut reader = MangaReader::new(7, chapter(12, 12));
    let first = reader.request_window(1);
    assert_eq!(positions(&first), vec![1, 2, 3]);
    assert!(matches!(reader.slot(1), Some(PageSlot::Requested)));
    assert!(matches!(reader.slot(3), Some(PageSlot::Requested)));
    assert!(matches!(reader.slot(4), Some(PageSlot::Missing)));
    let again = reader.request_window(1);
    assert!(again.is_empty());
    let shifted = reader.request_window(2);
    assert_eq!(positions(&shifted), vec![4]);
}

#[test]
fn a_window_stops_at_the_last_position() {
    let mut reader = MangaReader::new(7, chapter(12, 12));
    assert_eq!(positions(&reader.request_window(11)), vec![11, 12]);
    assert!(reader.request_window(13).is_empty());
    assert_eq!(positions(&reader.request_window(0)), vec![1, 2]);
}

#[test]
fn page_commands_name_the_endpoint_of_the_quality() {
    let mut reader = MangaReader::new(9, chapter(12, 12));
    let commands = reader.request_window(5);
    assert_eq!(commands.len(), 3);
    match &commands[0] {
        Command::ChapterPage { generation, position, endpoint, file_name } => {
            assert_eq!(*generation, 9);
            assert_eq!(*position, 5);
            assert_eq!(endpoint, "https://cdn.example/data-saver/abc123");
            assert_eq!(file_name, "low5.jpg");
        }
        _ => panic!("expected a page command"),
    }
    match &commands[1] {
        Command::ChapterPage { generation, position, endpoint, file_name } => {
            assert_eq!(*generation, 9);
            assert_eq!(*position, 6);
            assert_eq!(endpoint, "https://cdn.example/data/abc123");
            assert_eq!(file_name, "full6.jpg");
        }
        _ => panic!("expected a page command"),
    }
}

#[test]
fn a_tick_requests_the_window_in_view() {
    let mut reader = MangaReader::new(1, chapter(12, 12));
    let reply = reader.handle_events(InputEvent::Tick);
    assert!(reply.event.is_none());
    assert!(reply.action.is_none());
    assert_eq!(positions(&reply.commands), vec![1, 2, 3]);
    let reply = reader.handle_events(InputEvent::Tick);
    assert!(reply.commands.is_empty());
}

#[test]
fn a_page_key_queues_the_turn_and_requests_ahead() {
    let mut reader = MangaReader::new(1, chapter(12, 12));
    let _ = reader.handle_events(InputEvent::Tick);
    let reply = reader.handle_events(key(KeyCode::Char('j')));
    assert_eq!(positions(&reply.commands), vec![4]);
    assert_eq!(reader.pending_actions(), 1);
    assert_eq!(reader.current_page(), 1);
    assert!(reader.update_pending());
    assert_eq!(reader.current_page(), 2);
    assert_eq!(reader.pending_actions(), 0);
    assert!(!reader.update_pending());
    let _ = reader.handle_events(key(KeyCode::Up));
    assert!(reader.update_pending());
    assert_eq!(reader.current_page(), 1);
    let _ = reader.handle_events(key(KeyCode::Down));
    let _ = reader.handle_events(key(KeyCode::Char('k')));
    assert_eq!(reader.pending_actions(), 2);
    assert!(reader.update_pending());
    assert_eq!(reader.current_page(), 2);
    assert!(reader.update_pending());
    assert_eq!(reader.current_page(), 1);
}

#[test]
fn backspace_asks_to_leave_the_reader() {
    let mut reader = MangaReader::new(1, chapter(3, 3));
    let reply = reader.handle_events(key(KeyCode::Backspace));
    assert!(matches!(reply.event, Some(Events::GoBackMangaPage)));
    assert!(reply.commands.is_empty());
    assert_eq!(reader.pending_actions(), 0);
}

#[test]
fn other_keys_are_ignored_by_the_reader() {
    let mut reader = MangaReader::new(1, chapter(3, 3));
    let reply = reader.handle_events(key(KeyCode::Char('x')));
    assert!(reply.event.is_none());
    assert!(reply.action.is_none());
    assert!(reply.commands.is_empty());
    assert_eq!(reader.pending_actions(), 0);
    let reply = reader.handle_events(key(KeyCode::Enter));
    assert!(reply.commands.is_empty());
}

#[test]
fn delivered_pages_fill_their_slot() {
    let mut reader = MangaReader::new(1, chapter(3, 3));
    let _ = reader.request_window(1);
    reader.page_loaded(2, vec![1, 2, 3]);
    match reader.slot(2) {
        Some(PageSlot::Loaded(image)) => assert_eq!(image, &vec![1u8, 2, 3]),
        _ => panic!("expected the image"),
    }
    reader.page_failed(3, ErrorKind::NetworkError);
    assert!(matches!(reader.slot(3), Some(PageSlot::Failed(ErrorKind::NetworkError))));
    assert!(matches!(reader.slot(1), Some(PageSlot::Requested)));
    reader.page_loaded(0, vec![9]);
    reader.page_loaded(4, vec![9]);
    assert!(matches!(reader.slot(1), Some(PageSlot::Requested)));
    assert_eq!(reader.generation(), 1);
}
