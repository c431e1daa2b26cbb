use manga_tui::backend::fetch::{
    ChapterOrder, Command, ErrorKind, FetchOrigin, Languages, MangaItem, MangadexClient,
};
use manga_tui::backend::tui::Events;
use manga_tui::text::{push_decimal, push_signed_decimal, same_text};

fn item() -> MangaItem {
    MangaItem {
        id: String::from("m1"),
        title: String::from("Title"),
        description: String::from("About"),
        tags: vec![String::from("a"), String::from("b")],
        img_url: Some(String::from("cover.jpg")),
        status: String::from("ongoing"),
        content_rating: String::from("safe"),
        author: None,
    }
}

#[test]
fn search_address_of_the_first_page() {
    let client = MangadexClient::new();
    assert_eq!(
        client.search_mangas("one piece", 1),
        "https://api.mangadex.org/manga?title=one piece&includes[]=cover_art&limit=32&offset=0&contentRating[]=safe&contentRating[]=suggestive&contentRating[]=erotica&includedTagsMode=AND&excludedTagsMode=OR"
    );
}

#[test]
fn search_address_without_a_term() {
    let client = MangadexClient::new();
    assert_eq!(
        client.search_mangas("", 3),
        "https://api.mangadex.org/manga?&includes[]=cover_art&limit=32&offset=64&contentRating[]=safe&contentRating[]=suggestive&contentRating[]=erotica&includedTagsMode=AND&excludedTagsMode=OR"
    );
}

#[test]
fn search_offsets_follow_the_page() {
    let client = MangadexClient::new();
    assert!(client.search_mangas("x", 2).contains("&offset=32&"));
    assert!(client.search_mangas("x", 11).contains("&offset=320&"));
    assert!(client.search_mangas("x", 0).contains("&offset=-32&"));
    assert!(client.search_mangas("x", i32::MAX).contains("&offset=68719476672&"));
    assert!(client.search_mangas("x", i32::MIN).contains("&offset=-68719476768&"));
}

#[test]
fn cover_address() {
    let client = MangadexClient::new();
    assert_eq!(
        client.get_cover_for_manga("m1", "cover.jpg"),
        "https://uploads.mangadex.org/covers/m1/cover.jpg"
    );
}

#[test]
fn chapter_page_address() {
    let client = MangadexClient::new();
    assert_eq!(
        client.get_chapter_page("https://cdn.example/data/abc", "p1.png"),
        "https://cdn.example/data/abc/p1.png"
    );
}

#[test]
fn chapter_feed_address() {
    let client = MangadexClient::new();
    assert_eq!(
        client.get_manga_chapters("m1", 1, Languages::English, ChapterOrder::Descending),
        "https://api.mangadex.org/manga/m1/feed?limit=50&order[volume]=desc&order[chapter]=desc&translatedLanguage[]=en&offset=0"
    );
    assert_eq!(
        client.get_manga_chapters("m1", 4, Languages::Spanish, ChapterOrder::Ascending),
        "https://api.mangadex.org/manga/m1/feed?limit=50&order[volume]=asc&order[chapter]=asc&translatedLanguage[]=es&offset=0"
    );
}

#[test]
fn chapter_pages_address() {
    let client = MangadexClient::new();
    assert_eq!(client.get_chapter_pages("c1"), "https://api.mangadex.org/at-home/server/c1");
}

#[test]
fn language_codes_and_order_words() {
    assert_eq!(Languages::English.as_str(), "en");
    assert_eq!(Languages::Spanish.as_str(), "es");
    assert_eq!(Languages::French.as_str(), "fr");
    assert_eq!(Languages::Japanese.as_str(), "ja");
    assert_eq!(ChapterOrder::Ascending.as_str(), "asc");
    assert_eq!(ChapterOrder::Descending.as_str(), "desc");
}

#[test]
fn decimal_numerals() {
    let mut out = String::from("n=");
    push_decimal(&mut out, 0);
    assert_eq!(out, "n=0");
    let mut out = String::new();
    push_decimal(&mut out, 9);
    push_decimal(&mut out, 10);
    push_decimal(&mut out, 1234567890);
    assert_eq!(out, "9101234567890");
    let mut out = String::new();
    push_decimal(&mut out, u64::MAX);
    assert_eq!(out, "18446744073709551615");
}

#[test]
fn signed_decimal_numerals() {
    let mut out = String::new();
    push_signed_decimal(&mut out, -1);
    assert_eq!(out, "-1");
    let mut out = String::new();
    push_signed_decimal(&mut out, 0);
    assert_eq!(out, "0");
    let mut out = String::new();
    push_signed_decimal(&mut out, i64::MIN);
    assert_eq!(out, "-9223372036854775808");
    let mut out = String::new();
    push_signed_decimal(&mut out, i64::MAX);
    assert_eq!(out, "9223372036854775807");
}

#[test]
fn texts_are_compared_by_content() {
    assert!(same_text("abc", "abc"));
    assert!(!same_text("abc", "abd"));
    assert!(same_text("", ""));
    assert!(!same_text("a", ""));
}

#[test]
fn a_copy_of_an_item_holds_the_same() {
    let source = item();
    let copy = source.duplicate();
    assert_eq!(copy.id, "m1");
    assert_eq!(copy.title, "Title");
    assert_eq!(copy.description, "About");
    assert_eq!(copy.tags, vec![String::from("a"), String::from("b")]);
    assert_eq!(copy.img_url, Some(String::from("cover.jpg")));
    assert_eq!(copy.status, "ongoing");
    assert_eq!(copy.content_rating, "safe");
    assert_eq!(copy.author, None);
}

#[test]
fn every_command_names_its_origin() {
    let search = Command::SearchMangas { request: 4, term: String::from("x"), page: 1 };
    assert!(matches!(search.origin(), FetchOrigin::Search { request: 4 }));
    let feed = Command::MangaChapters {
        manga_id: String::from("m1"),
        page: 1,
        language: Languages::English,
        order: ChapterOrder::Descending,
    };
    match feed.origin() {
        FetchOrigin::Chapters { manga_id } => assert_eq!(manga_id, "m1"),
        _ => panic!("expected the feed"),
    }
    let cover = Command::MangaCover { manga_id: String::from("m1"), file_name: String::from("c") };
    match cover.origin() {
        FetchOrigin::Cover { manga_id } => assert_eq!(manga_id, "m1"),
        _ => panic!("expected the cover"),
    }
    let pages =
        Command::ChapterPages { manga_id: String::from("m1"), chapter_id: String::from("c1") };
    match pages.origin() {
        FetchOrigin::ChapterPages { manga_id, chapter_id } => {
            assert_eq!(manga_id, "m1");
            assert_eq!(chapter_id, "c1");
        }
        _ => panic!("expected the chapter"),
    }
    let page = Command::ChapterPage {
        generation: 3,
        position: 8,
        endpoint: String::from("e"),
        file_name: String::from("f"),
    };
    assert!(matches!(page.origin(), FetchOrigin::Page { generation: 3, position: 8 }));
    let load = Command::LoadHistory { manga_id: String::from("m1") };
    assert!(matches!(load.origin(), FetchOrigin::History));
    let save = Command::SaveHistory {
        manga_id: String::from("m1"),
        manga_title: String::from("t"),
        chapter_id: String::from("c1"),
        chapter_title: String::from("ct"),
    };
    assert!(matches!(save.origin(), FetchOrigin::History));
}

#[test]
fn a_failed_command_becomes_an_event() {
    let page = Command::ChapterPage {
        generation: 3,
        position: 8,
        endpoint: String::from("e"),
        file_name: String::from("f"),
    };
    match Events::failure(&page, ErrorKind::DecodeError) {
        Events::FetchFailed { origin, reason } => {
            assert!(matches!(origin, FetchOrigin::Page { generation: 3, position: 8 }));
            assert_eq!(reason, ErrorKind::DecodeError);
        }
        _ => panic!("expected a failure"),
    }
}

#[test]
fn http_statuses_are_classified() {
    assert_eq!(ErrorKind::from_status(200), None);
    assert_eq!(ErrorKind::from_status(204), None);
    assert_eq!(ErrorKind::from_status(299), None);
    assert_eq!(ErrorKind::from_status(404), Some(ErrorKind::NotFound));
    assert_eq!(ErrorKind::from_status(199), Some(ErrorKind::NetworkError));
    assert_eq!(ErrorKind::from_status(300), Some(ErrorKind::NetworkError));
    assert_eq!(ErrorKind::from_status(403), Some(ErrorKind::NetworkError));
    assert_eq!(ErrorKind::from_status(500), Some(ErrorKind::NetworkError));
}

#[test]
fn the_user_agent_names_the_machine() {
    assert_eq!(
        MangadexClient::user_agent("unix", "linux", "x86_64"),
        "manga-tui/0.beta-testing1.0 (unix/linux/x86_64)"
    );
    assert_eq!(MangadexClient::user_agent("", "", ""), "manga-tui/0.beta-testing1.0 (//)");
}
