use crate::text::{
    clone_optional, clone_strings, push_signed_decimal, signed_decimal, view_of, views,
};
use vstd::prelude::*;

verus! {

/// Why a request or a write did not produce its result.
#[derive(Clone, Copy, Debug, PartialEq, Eq, Structural)]
pub enum ErrorKind {
    /// The transport or the HTTP exchange failed.
    NetworkError,
    /// The response arrived but could not be decoded.
    DecodeError,
    /// The remote resource is empty or absent.
    NotFound,
    /// The history store is not initialised, or a write to it failed.
    PersistenceUnavailable,
    /// The result belongs to a page that is no longer there.
    StaleResult,
}

/// The failure that an HTTP status stands for: none for a success, `NotFound` for 404, and
/// `NetworkError` for every other status.
pub open spec fn status_failure(status: u16) -> Option<ErrorKind> {
    if 200 <= status < 300 {
        None
    } else if status == 404 {
        Some(ErrorKind::NotFound)
    } else {
        Some(ErrorKind::NetworkError)
    }
}

impl ErrorKind {
    /// Classifies the HTTP status of a response.
    pub fn from_status(status: u16) -> (failure: Option<ErrorKind>)
        ensures
            failure == status_failure(status),
    {
        if 200 <= status && status < 300 {
            None
        } else if status == 404 {
            Some(ErrorKind::NotFound)
        } else {
            Some(ErrorKind::NetworkError)
        }
    }
}

/// The language a chapter feed is asked for.
#[derive(Clone, Copy, Debug, PartialEq, Eq, Structural)]
pub enum Languages {
    English,
    Spanish,
    French,
    Japanese,
}

/// The order a chapter feed is asked for.
#[derive(Clone, Copy, Debug, PartialEq, Eq, Structural)]
pub enum ChapterOrder {
    Ascending,
    Descending,
}

impl Languages {
    /// The language code used in requests.
    pub open spec fn code(self) -> Seq<char> {
        match self {
            Languages::English => "en"@,
            Languages::Spanish => "es"@,
            Languages::French => "fr"@,
            Languages::Japanese => "ja"@,
        }
    }

    /// The language code used in requests.
    pub fn as_str(&self) -> (code: &'static str)
        ensures
            code@ == self.code(),
    {
        match self {
            Languages::English => "en",
            Languages::Spanish => "es",
            Languages::French => "fr",
            Languages::Japanese => "ja",
        }
    }
}

impl ChapterOrder {
    /// The word used for this order in requests.
    pub open spec fn word(self) -> Seq<char> {
        match self {
            ChapterOrder::Ascending => "asc"@,
            ChapterOrder::Descending => "desc"@,
        }
    }

    /// The word used for this order in requests.
    pub fn as_str(&self) -> (word: &'static str)
        ensures
            word@ == self.word(),
    {
        match self {
            ChapterOrder::Ascending => "asc",
            ChapterOrder::Descending => "desc",
        }
    }
}

/// One chapter of a feed.
pub struct ChapterData {
    pub id: String,
    pub title: String,
}

/// The mathematical value of a `ChapterData`.
pub struct ChapterDataView {
    pub id: Seq<char>,
    pub title: Seq<char>,
}

impl View for ChapterData {
    type V = ChapterDataView;

    open spec fn view(&self) -> ChapterDataView {
        ChapterDataView { id: self.id@, title: self.title@ }
    }
}

/// The page file names of one chapter, in both qualities.
pub struct ChapterPages {
    pub hash: String,
    /// The full-fidelity file names, by position.
    pub data: Vec<String>,
    /// The low-fidelity file names, by position.
    pub data_saver: Vec<String>,
}

/// The mathematical value of a `ChapterPages`.
pub struct ChapterPagesView {
    pub hash: Seq<char>,
    pub data: Seq<Seq<char>>,
    pub data_saver: Seq<Seq<char>>,
}

impl View for ChapterPages {
    type V = ChapterPagesView;

    open spec fn view(&self) -> ChapterPagesView {
        ChapterPagesView {
            hash: self.hash@,
            data: views(self.data@),
            data_saver: views(self.data_saver@),
        }
    }
}

/// Where the pages of one chapter are served from, and their file names.
pub struct ChapterPagesResponse {
    pub base_url: String,
    pub chapter: ChapterPages,
}

/// The mathematical value of a `ChapterPagesResponse`.
pub struct ChapterPagesResponseView {
    pub base_url: Seq<char>,
    pub chapter: ChapterPagesView,
}

impl View for ChapterPagesResponse {
    type V = ChapterPagesResponseView;

    open spec fn view(&self) -> ChapterPagesResponseView {
        ChapterPagesResponseView { base_url: self.base_url@, chapter: self.chapter@ }
    }
}

/// One entry of a search result.
pub struct MangaItem {
    pub id: String,
    pub title: String,
    pub description: String,
    pub tags: Vec<String>,
    /// The file name of the cover image, where the catalog names one.
    pub img_url: Option<String>,
    pub status: String,
    pub content_rating: String,
    pub author: Option<String>,
}

/// The mathematical value of a `MangaItem`.
pub struct MangaItemView {
    pub id: Seq<char>,
    pub title: Seq<char>,
    pub description: Seq<char>,
    pub tags: Seq<Seq<char>>,
    pub img_url: Option<Seq<char>>,
    pub status: Seq<char>,
    pub content_rating: Seq<char>,
    pub author: Option<Seq<char>>,
}

impl View for MangaItem {
    type V = MangaItemView;

    open spec fn view(&self) -> MangaItemView {
        MangaItemView {
            id: self.id@,
            title: self.title@,
            description: self.description@,
            tags: views(self.tags@),
            img_url: view_of(self.img_url),
            status: self.status@,
            content_rating: self.content_rating@,
            author: view_of(self.author),
        }
    }
}

impl MangaItem {
    /// A copy of this entry.
    pub fn duplicate(&self) -> (copy: MangaItem)
        ensures
            copy@ == self@,
    {
        MangaItem {
            id: self.id.clone(),
            title: self.title.clone(),
            description: self.description.clone(),
            tags: clone_strings(&self.tags),
            img_url: clone_optional(&self.img_url),
            status: self.status.clone(),
            content_rating: self.content_rating.clone(),
            author: clone_optional(&self.author),
        }
    }
}

/// The request that a result or a failure answers.
pub enum FetchOrigin {
    Search { request: u64 },
    Chapters { manga_id: String },
    Cover { manga_id: String },
    ChapterPages { manga_id: String, chapter_id: String },
    Page { generation: u64, position: usize },
    /// A read or a write of the reading history.
    History,
}

/// The mathematical value of a `FetchOrigin`.
pub enum FetchOriginView {
    Search { request: u64 },
    Chapters { manga_id: Seq<char> },
    Cover { manga_id: Seq<char> },
    ChapterPages { manga_id: Seq<char>, chapter_id: Seq<char> },
    Page { generation: u64, position: usize },
    History,
}

impl View for FetchOrigin {
    type V = FetchOriginView;

    open spec fn view(&self) -> FetchOriginView {
        match self {
            FetchOrigin::Search { request } => FetchOriginView::Search { request: *request },
            FetchOrigin::Chapters { manga_id } => FetchOriginView::Chapters {
                manga_id: manga_id@,
            },
            FetchOrigin::Cover { manga_id } => FetchOriginView::Cover { manga_id: manga_id@ },
            FetchOrigin::ChapterPages { manga_id, chapter_id } => FetchOriginView::ChapterPages {
                manga_id: manga_id@,
                chapter_id: chapter_id@,
            },
            FetchOrigin::Page { generation, position } => FetchOriginView::Page {
                generation: *generation,
                position: *position,
            },
            FetchOrigin::History => FetchOriginView::History,
        }
    }
}

/// Work that a page asks for and that is done away from the loop that owns the pages.
/// A command is answered by one event: its result, or a failure that names it. A write of
/// the history is answered only where it fails.
pub enum Command {
    /// Search the catalog; `request` tags the answer.
    SearchMangas { request: u64, term: String, page: i32 },
    /// Fetch the chapter feed of a manga.
    MangaChapters { manga_id: String, page: i32, language: Languages, order: ChapterOrder },
    /// Fetch the cover image of a manga.
    MangaCover { manga_id: String, file_name: String },
    /// Ask where the pages of a chapter of a manga are served from.
    ChapterPages { manga_id: String, chapter_id: String },
    /// Fetch the image at one position of the chapter that the reader `generation` shows.
    ChapterPage { generation: u64, position: usize, endpoint: String, file_name: String },
    /// Read which chapters of a manga were opened before.
    LoadHistory { manga_id: String },
    /// Record that a chapter of a manga was opened.
    SaveHistory {
        manga_id: String,
        manga_title: String,
        chapter_id: String,
        chapter_title: String,
    },
}

/// The mathematical value of a `Command`.
pub enum CommandView {
    SearchMangas { request: u64, term: Seq<char>, page: i32 },
    MangaChapters { manga_id: Seq<char>, page: i32, language: Languages, order: ChapterOrder },
    MangaCover { manga_id: Seq<char>, file_name: Seq<char> },
    ChapterPages { manga_id: Seq<char>, chapter_id: Seq<char> },
    ChapterPage { generation: u64, position: usize, endpoint: Seq<char>, file_name: Seq<char> },
    LoadHistory { manga_id: Seq<char> },
    SaveHistory {
        manga_id: Seq<char>,
        manga_title: Seq<char>,
        chapter_id: Seq<char>,
        chapter_title: Seq<char>,
    },
}

impl View for Command {
    type V = CommandView;

    open spec fn view(&self) -> CommandView {
        match self {
            Command::SearchMangas { request, term, page } => CommandView::SearchMangas {
                request: *request,
                term: term@,
                page: *page,
            },
            Command::MangaChapters { manga_id, page, language, order } => {
                CommandView::MangaChapters {
                    manga_id: manga_id@,
                    page: *page,
                    language: *language,
                    order: *order,
                }
            },
            Command::MangaCover { manga_id, file_name } => CommandView::MangaCover {
                manga_id: manga_id@,
                file_name: file_name@,
            },
            Command::ChapterPages { manga_id, chapter_id } => CommandView::ChapterPages {
                manga_id: manga_id@,
                chapter_id: chapter_id@,
            },
            Command::ChapterPage { generation, position, endpoint, file_name } => {
                CommandView::ChapterPage {
                    generation: *generation,
                    position: *position,
                    endpoint: endpoint@,
                    file_name: file_name@,
                }
            },
            Command::LoadHistory { manga_id } => CommandView::LoadHistory { manga_id: manga_id@ },
            Command::SaveHistory { manga_id, manga_title, chapter_id, chapter_title } => {
                CommandView::SaveHistory {
                    manga_id: manga_id@,
                    manga_title: manga_title@,
                    chapter_id: chapter_id@,
                    chapter_title: chapter_title@,
                }
            },
        }
    }
}

/// The request that the answer to `command` names.
pub open spec fn origin_of(command: CommandView) -> FetchOriginView {
    match command {
        CommandView::SearchMangas { request, .. } => FetchOriginView::Search { request },
        CommandView::MangaChapters { manga_id, .. } => FetchOriginView::Chapters { manga_id },
        CommandView::MangaCover { manga_id, .. } => FetchOriginView::Cover { manga_id },
        CommandView::ChapterPages { manga_id, chapter_id } => FetchOriginView::ChapterPages {
            manga_id,
            chapter_id,
        },
        CommandView::ChapterPage { generation, position, .. } => FetchOriginView::Page {
            generation,
            position,
        },
        CommandView::LoadHistory { .. } => FetchOriginView::History,
        CommandView::SaveHistory { .. } => FetchOriginView::History,
    }
}

impl Command {
    /// The request that the answer to this command names.
    pub fn origin(&self) -> (origin: FetchOrigin)
        ensures
            origin@ == origin_of(self@),
    {
        match self {
            Command::SearchMangas { request, .. } => FetchOrigin::Search { request: *request },
            Command::MangaChapters { manga_id, .. } => FetchOrigin::Chapters {
                manga_id: manga_id.clone(),
            },
            Command::MangaCover { manga_id, .. } => FetchOrigin::Cover {
                manga_id: manga_id.clone(),
            },
            Command::ChapterPages { manga_id, chapter_id } => FetchOrigin::ChapterPages {
                manga_id: manga_id.clone(),
                chapter_id: chapter_id.clone(),
            },
            Command::ChapterPage { generation, position, .. } => FetchOrigin::Page {
                generation: *generation,
                position: *position,
            },
            Command::LoadHistory { .. } => FetchOrigin::History,
            Command::SaveHistory { .. } => FetchOrigin::History,
        }
    }
}

/// Builds the requests that the catalog answers.
pub struct MangadexClient {
    api_url_base: String,
    cover_img_url_base: String,
}

/// The number of results on one page of a search.
pub const SEARCH_PAGE_SIZE: i64 = 32;

/// The address of a catalog search for `term`, for the 1-based result page `page`.
pub open spec fn search_url(api: Seq<char>, term: Seq<char>, page: int) -> Seq<char> {
    api + "/manga?"@ + (if term.len() == 0 {
        Seq::<char>::empty()
    } else {
        "title="@ + term
    }) + "&includes[]=cover_art&limit=32&offset="@ + signed_decimal((page - 1) * 32)
        + "&contentRating[]=safe&contentRating[]=suggestive&contentRating[]=erotica"@
        + "&includedTagsMode=AND&excludedTagsMode=OR"@
}

/// The address of the cover image `file_name` of the manga `id_manga`.
pub open spec fn cover_url(covers: Seq<char>, id_manga: Seq<char>, file_name: Seq<char>) -> Seq<
    char,
> {
    covers + "/"@ + id_manga + "/"@ + file_name
}

/// The address of the page image `file_name` under `endpoint`.
pub open spec fn chapter_page_url(endpoint: Seq<char>, file_name: Seq<char>) -> Seq<char> {
    endpoint + "/"@ + file_name
}

/// The address of the chapter feed of the manga `id`.
pub open spec fn manga_chapters_url(
    api: Seq<char>,
    id: Seq<char>,
    language: Languages,
    order: ChapterOrder,
) -> Seq<char> {
    api + "/manga/"@ + id + "/feed?limit=50&order[volume]="@ + order.word()
        + "&order[chapter]="@ + order.word() + "&translatedLanguage[]="@ + language.code()
        + "&offset=0"@
}

/// The name under which the program introduces itself to the catalog, on a machine of the
/// given family, system and architecture.
pub open spec fn user_agent_text(family: Seq<char>, os: Seq<char>, arch: Seq<char>) -> Seq<char> {
    "manga-tui/0.beta-testing1.0 ("@ + family + "/"@ + os + "/"@ + arch + ")"@
}

/// The address that tells where the pages of the chapter `id` are served from.
pub open spec fn chapter_pages_url(api: Seq<char>, id: Seq<char>) -> Seq<char> {
    api + "/at-home/server/"@ + id
}

impl MangadexClient {
    /// The address under which the catalog is queried.
    pub closed spec fn api_url_base(&self) -> Seq<char> {
        self.api_url_base@
    }

    /// The address under which cover images are served.
    pub closed spec fn cover_img_url_base(&self) -> Seq<char> {
        self.cover_img_url_base@
    }

    /// A client for the public catalog.
    pub fn new() -> (client: Self)
        ensures
            client.api_url_base() == "https://api.mangadex.org"@,
            client.cover_img_url_base() == "https://uploads.mangadex.org/covers"@,
    {
        Self {
            api_url_base: String::from_str("https://api.mangadex.org"),
            cover_img_url_base: String::from_str("https://uploads.mangadex.org/covers"),
        }
    }

    /// The name under which the program introduces itself to the catalog.
    pub fn user_agent(family: &str, os: &str, arch: &str) -> (agent: String)
        ensures
            agent@ == user_agent_text(family@, os@, arch@),
    {
        let mut agent = String::from_str("manga-tui/0.beta-testing1.0 (");
        agent.append(family);
        agent.append("/");
        agent.append(os);
        agent.append("/");
        agent.append(arch);
        agent.append(")");
        agent
    }

    /// The request for the 1-based result page `page` of a search for `search_term`.
    /// An empty term searches the whole catalog.
    pub fn search_mangas(&self, search_term: &str, page: i32) -> (url: String)
        ensures
            url@ == search_url(self.api_url_base(), search_term@, page as int),
    {
        let offset: i64 = (page as i64 - 1) * SEARCH_PAGE_SIZE;
        let mut url = self.api_url_base.clone();
        url.append("/manga?");
        let ghost head = url@;
        if search_term.unicode_len() != 0 {
            url.append("title=");
            url.append(search_term);
            assert(url@ =~= head + ("title="@ + search_term@));
        } else {
            assert(url@ =~= head + Seq::<char>::empty());
        }
        url.append("&includes[]=cover_art&limit=32&offset=");
        push_signed_decimal(&mut url, offset);
        url.append("&contentRating[]=safe&contentRating[]=suggestive&contentRating[]=erotica");
        url.append("&includedTagsMode=AND&excludedTagsMode=OR");
        url
    }

    /// The request for the cover image `file_name` of the manga `id_manga`.
    pub fn get_cover_for_manga(&self, id_manga: &str, file_name: &str) -> (url: String)
        ensures
            url@ == cover_url(self.cover_img_url_base(), id_manga@, file_name@),
    {
        let mut url = self.cover_img_url_base.clone();
        url.append("/");
        url.append(id_manga);
        url.append("/");
        url.append(file_name);
        url
    }

    /// The request for the page image `file_name` under `endpoint`.
    pub fn get_chapter_page(&self, endpoint: &str, file_name: &str) -> (url: String)
        ensures
            url@ == chapter_page_url(endpoint@, file_name@),
    {
        let mut url = String::from_str(endpoint);
        url.append("/");
        url.append(file_name);
        url
    }

    /// The request for the chapter feed of the manga `id`. The feed has no pages yet, so
    /// `page` does not enter the address.
    pub fn get_manga_chapters(
        &self,
        id: &str,
        page: i32,
        language: Languages,
        order: ChapterOrder,
    ) -> (url: String)
        ensures
            url@ == manga_chapters_url(self.api_url_base(), id@, language, order),
    {
        let mut url = self.api_url_base.clone();
        url.append("/manga/");
        url.append(id);
        url.append("/feed?limit=50&order[volume]=");
        url.append(order.as_str());
        url.append("&order[chapter]=");
        url.append(order.as_str());
        url.append("&translatedLanguage[]=");
        url.append(language.as_str());
        url.append("&offset=0");
        url
    }

    /// The request that tells where the pages of the chapter `id` are served from.
    pub fn get_chapter_pages(&self, id: &str) -> (url: String)
        ensures
            url@ == chapter_pages_url(self.api_url_base(), id@),
    {
        let mut url = self.api_url_base.clone();
        url.append("/at-home/server/");
        url.append(id);
        url
    }
}

} // verus!
