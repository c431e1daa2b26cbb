use crate::backend::fetch::{
    ChapterData, ChapterDataView, ChapterOrder, Command, CommandView, ErrorKind, Languages,
    MangaItem, MangaItemView,
};
use crate::backend::tui::{
    no_reply, Action, InputEvent, KeyCode, KeyEvent, PageReply, PageReplyView,
};
use crate::text::{view_of, views};
use std::collections::VecDeque;
use vstd::prelude::*;

verus! {

/// The actions that change the detail page alone.
#[derive(Clone, Copy, Debug, PartialEq, Eq, Structural)]
pub enum MangaPageActions {
    /// Move the selection to the chapter with this index, or to the last one.
    SelectChapter(usize),
}

/// The mathematical value of a `MangaPage`.
#[verifier::ext_equal]
pub struct MangaPageView {
    pub id: Seq<char>,
    pub title: Seq<char>,
    pub description: Seq<char>,
    pub tags: Seq<Seq<char>>,
    pub img_url: Option<Seq<char>>,
    pub status: Seq<char>,
    pub content_rating: Seq<char>,
    /// The author's name; empty where the catalog names none.
    pub author: Seq<char>,
    pub chapters: Seq<ChapterDataView>,
    /// The index of the selected chapter; 0 where there is none.
    pub selected: nat,
    /// Whether the chapter feed was asked for and has not been answered.
    pub loading: bool,
    /// The latest failure to show, if any.
    pub notice: Option<ErrorKind>,
    pub cover: Option<Seq<u8>>,
    /// The identifiers of the chapters that were opened before.
    pub read: Seq<Seq<char>>,
    /// The actions that wait to be applied, oldest first.
    pub pending: Seq<MangaPageActions>,
}

impl MangaPageView {
    /// The selection points at a chapter, where there is one.
    pub open spec fn wf(self) -> bool {
        if self.chapters.len() == 0 {
            self.selected == 0
        } else {
            self.selected < self.chapters.len()
        }
    }

    /// The page as it opens on a search result: it waits for the chapter feed.
    pub open spec fn opened(manga: MangaItemView) -> Self {
        MangaPageView {
            id: manga.id,
            title: manga.title,
            description: manga.description,
            tags: manga.tags,
            img_url: manga.img_url,
            status: manga.status,
            content_rating: manga.content_rating,
            author: match manga.author {
                Some(name) => name,
                None => Seq::empty(),
            },
            chapters: Seq::empty(),
            selected: 0,
            loading: true,
            notice: None,
            cover: None,
            read: Seq::empty(),
            pending: Seq::empty(),
        }
    }

    /// The commands that fill the page: the chapter feed, the chapters that were opened
    /// before, and the cover where the catalog names one.
    pub open spec fn opening_commands(self) -> Seq<CommandView> {
        let feed = CommandView::MangaChapters {
            manga_id: self.id,
            page: 1,
            language: Languages::English,
            order: ChapterOrder::Descending,
        };
        let history = CommandView::LoadHistory { manga_id: self.id };
        match self.img_url {
            Some(file_name) => seq![
                feed,
                history,
                CommandView::MangaCover { manga_id: self.id, file_name },
            ],
            None => seq![feed, history],
        }
    }

    /// `index` brought into the range of the chapters.
    pub open spec fn clamp(self, index: int) -> nat {
        if self.chapters.len() == 0 || index < 0 {
            0
        } else if index >= self.chapters.len() {
            (self.chapters.len() - 1) as nat
        } else {
            index as nat
        }
    }

    /// The page after `action`.
    pub open spec fn updated(self, action: MangaPageActions) -> Self {
        match action {
            MangaPageActions::SelectChapter(index) => MangaPageView {
                selected: self.clamp(index as int),
                ..self
            },
        }
    }

    /// The page after the oldest waiting action, if there is one.
    pub open spec fn drained(self) -> Self {
        if self.pending.len() > 0 {
            MangaPageView { pending: self.pending.drop_first(), ..self }.updated(self.pending[0])
        } else {
            self
        }
    }

    /// The action that a key queues.
    pub open spec fn key_action(self, key: KeyEvent) -> Option<MangaPageActions> {
        match key.code {
            KeyCode::Char(ch) => if ch == 'j' {
                Some(MangaPageActions::SelectChapter(self.clamp(self.selected as int + 1) as usize))
            } else if ch == 'k' {
                Some(MangaPageActions::SelectChapter(self.clamp(self.selected as int - 1) as usize))
            } else {
                None
            },
            KeyCode::Down => Some(
                MangaPageActions::SelectChapter(self.clamp(self.selected as int + 1) as usize),
            ),
            KeyCode::Up => Some(
                MangaPageActions::SelectChapter(self.clamp(self.selected as int - 1) as usize),
            ),
            _ => None,
        }
    }

    /// What a key asks of the controller.
    ///
    /// Enter opens the selected chapter: it asks where its pages are served from and records
    /// the chapter as read. Tab goes to the next tab, BackTab to the previous one, Backspace
    /// to the search page.
    pub open spec fn key_reply(self, key: KeyEvent) -> PageReplyView {
        match key.code {
            KeyCode::Enter => if self.chapters.len() > 0 {
                let chapter = self.chapters[self.selected as int];
                PageReplyView {
                    commands: seq![
                        CommandView::ChapterPages { manga_id: self.id, chapter_id: chapter.id },
                        CommandView::SaveHistory {
                            manga_id: self.id,
                            manga_title: self.title,
                            chapter_id: chapter.id,
                            chapter_title: chapter.title,
                        },
                    ],
                    ..no_reply()
                }
            } else {
                no_reply()
            },
            KeyCode::Tab => PageReplyView { action: Some(Action::NextTab), ..no_reply() },
            KeyCode::BackTab => PageReplyView { action: Some(Action::PreviousTab), ..no_reply() },
            KeyCode::Backspace => PageReplyView {
                action: Some(Action::GoToSearchPage),
                ..no_reply()
            },
            _ => no_reply(),
        }
    }

    /// The page and its reply after one input: a key queues its action; ticks and the mouse
    /// change nothing.
    pub open spec fn handled(self, input: InputEvent) -> (Self, PageReplyView) {
        match input {
            InputEvent::Key(key) => (
                MangaPageView {
                    pending: match self.key_action(key) {
                        Some(action) => self.pending.push(action),
                        None => self.pending,
                    },
                    ..self
                },
                self.key_reply(key),
            ),
            _ => (self, no_reply()),
        }
    }

    /// The page once the chapter feed of `manga_id` arrived. A feed of another manga is
    /// dropped. An empty feed is shown as not found.
    pub open spec fn with_chapters(self, manga_id: Seq<char>, chapters: Seq<ChapterDataView>) -> Self {
        if manga_id == self.id {
            MangaPageView {
                chapters,
                selected: 0,
                loading: false,
                notice: if chapters.len() == 0 {
                    Some(ErrorKind::NotFound)
                } else {
                    None
                },
                ..self
            }
        } else {
            self
        }
    }

    /// The page once the cover of `manga_id` arrived. A cover of another manga is dropped.
    pub open spec fn with_cover(self, manga_id: Seq<char>, image: Seq<u8>) -> Self {
        if manga_id == self.id {
            MangaPageView { cover: Some(image), ..self }
        } else {
            self
        }
    }

    /// The page once the chapters of `manga_id` that were opened before arrived. Those of
    /// another manga are dropped.
    pub open spec fn with_history(self, manga_id: Seq<char>, chapters_read: Seq<Seq<char>>) -> Self {
        if manga_id == self.id {
            MangaPageView { read: chapters_read, ..self }
        } else {
            self
        }
    }

    /// The page once a request made for `manga_id` failed for `reason`: the failure is shown
    /// and everything else stays. A failure for another manga is dropped.
    pub open spec fn failed(self, manga_id: Seq<char>, reason: ErrorKind) -> Self {
        if manga_id == self.id {
            MangaPageView { loading: false, notice: Some(reason), ..self }
        } else {
            self
        }
    }
}

/// The page that shows one manga and its chapters.
pub struct MangaPage {
    id: String,
    title: String,
    description: String,
    tags: Vec<String>,
    img_url: Option<String>,
    status: String,
    content_rating: String,
    author: String,
    chapters: Vec<ChapterData>,
    selected: usize,
    loading: bool,
    notice: Option<ErrorKind>,
    cover: Option<Vec<u8>>,
    read: Vec<String>,
    pending: VecDeque<MangaPageActions>,
}

impl View for MangaPage {
    type V = MangaPageView;

    closed spec fn view(&self) -> MangaPageView {
        MangaPageView {
            id: self.id@,
            title: self.title@,
            description: self.description@,
            tags: views(self.tags@),
            img_url: view_of(self.img_url),
            status: self.status@,
            content_rating: self.content_rating@,
            author: self.author@,
            chapters: views(self.chapters@),
            selected: self.selected as nat,
            loading: self.loading,
            notice: self.notice,
            cover: view_of(self.cover),
            read: views(self.read@),
            pending: self.pending@,
        }
    }
}

impl MangaPage {
    /// Opens the page on a search result.
    pub fn new(manga: MangaItem) -> (page: Self)
        ensures
            page@ == MangaPageView::opened(manga@),
            page@.wf(),
    {
        let page = MangaPage {
            id: manga.id,
            title: manga.title,
            description: manga.description,
            tags: manga.tags,
            img_url: manga.img_url,
            status: manga.status,
            content_rating: manga.content_rating,
            author: match manga.author {
                Some(name) => name,
                None => String::new(),
            },
            chapters: Vec::new(),
            selected: 0,
            loading: true,
            notice: None,
            cover: None,
            read: Vec::new(),
            pending: VecDeque::new(),
        };
        assert(page@ =~= MangaPageView::opened(manga@));
        page
    }

    /// Tests that the selection points at a chapter, where there is one.
    pub fn well_formed(&self) -> (holds: bool)
        ensures
            holds == self@.wf(),
    {
        if self.chapters.len() == 0 {
            self.selected == 0
        } else {
            self.selected < self.chapters.len()
        }
    }

    /// The commands that fill the page.
    pub fn opening_commands(&self) -> (commands: Vec<Command>)
        ensures
            views(commands@) == self@.opening_commands(),
    {
        let mut commands: Vec<Command> = Vec::new();
        commands.push(
            Command::MangaChapters {
                manga_id: self.id.clone(),
                page: 1,
                language: Languages::English,
                order: ChapterOrder::Descending,
            },
        );
        commands.push(Command::LoadHistory { manga_id: self.id.clone() });
        match &self.img_url {
            Some(file_name) => {
                commands.push(
                    Command::MangaCover { manga_id: self.id.clone(), file_name: file_name.clone() },
                );
            },
            None => {},
        }
        assert(views(commands@) =~= self@.opening_commands());
        commands
    }

    /// The identifier of the manga on show.
    pub fn id(&self) -> (id: &str)
        ensures
            id@ == self@.id,
    {
        self.id.as_str()
    }

    /// The title of the manga on show.
    pub fn title(&self) -> (title: &str)
        ensures
            title@ == self@.title,
    {
        self.title.as_str()
    }

    /// The author's name; empty where the catalog names none.
    pub fn author(&self) -> (author: &str)
        ensures
            author@ == self@.author,
    {
        self.author.as_str()
    }

    /// The description of the manga on show.
    pub fn description(&self) -> (description: &str)
        ensures
            description@ == self@.description,
    {
        self.description.as_str()
    }

    /// The chapters on show.
    pub fn chapters(&self) -> (chapters: &Vec<ChapterData>)
        ensures
            views(chapters@) == self@.chapters,
    {
        &self.chapters
    }

    /// The index of the selected chapter; 0 where there is none.
    pub fn selected(&self) -> (selected: usize)
        ensures
            selected == self@.selected,
    {
        self.selected
    }

    /// Whether the chapter feed is still awaited.
    pub fn is_loading(&self) -> (loading: bool)
        ensures
            loading == self@.loading,
    {
        self.loading
    }

    /// The latest failure to show, if any.
    pub fn notice(&self) -> (notice: Option<ErrorKind>)
        ensures
            notice == self@.notice,
    {
        self.notice
    }

    /// The cover image as it was served, once it arrived.
    pub fn cover(&self) -> (cover: &Option<Vec<u8>>)
        ensures
            view_of(*cover) == self@.cover,
    {
        &self.cover
    }

    /// The identifiers of the chapters that were opened before.
    pub fn read_chapters(&self) -> (read: &Vec<String>)
        ensures
            views(read@) == self@.read,
    {
        &self.read
    }

    /// The number of actions that wait to be applied.
    pub fn pending_actions(&self) -> (waiting: usize)
        ensures
            waiting == self@.pending.len(),
    {
        self.pending.len()
    }

    fn clamp_index(&self, index: usize) -> (clamped: usize)
        requires
            self@.wf(),
        ensures
            clamped == self@.clamp(index as int),
    {
        if self.chapters.len() == 0 {
            0
        } else if index >= self.chapters.len() {
            self.chapters.len() - 1
        } else {
            index
        }
    }

    /// Applies one action to the page.
    pub fn update(&mut self, action: MangaPageActions)
        requires
            old(self)@.wf(),
        ensures
            final(self)@ == old(self)@.updated(action),
            final(self)@.wf(),
    {
        match action {
            MangaPageActions::SelectChapter(index) => {
                self.selected = self.clamp_index(index);
            },
        }
    }

    /// Applies the oldest waiting action, if there is one. Says whether there was one.
    pub fn update_pending(&mut self) -> (applied: bool)
        requires
            old(self)@.wf(),
        ensures
            final(self)@ == old(self)@.drained(),
            final(self)@.wf(),
            applied == (old(self)@.pending.len() > 0),
    {
        match self.pending.pop_front() {
            Some(action) => {
                assert(self@.pending =~= old(self)@.pending.drop_first());
                self.update(action);
                true
            },
            None => false,
        }
    }

    fn key_action(&self, key: KeyEvent) -> (action: Option<MangaPageActions>)
        requires
            self@.wf(),
        ensures
            action == self@.key_action(key),
    {
        let below = if self.selected > 0 {
            self.selected - 1
        } else {
            0
        };
        let count = self.chapters.len();
        let above = if self.selected < count {
            self.selected + 1
        } else {
            1
        };
        match key.code {
            KeyCode::Char(ch) => if ch == 'j' {
                Some(MangaPageActions::SelectChapter(self.clamp_index(above)))
            } else if ch == 'k' {
                Some(MangaPageActions::SelectChapter(self.clamp_index(below)))
            } else {
                None
            },
            KeyCode::Down => Some(MangaPageActions::SelectChapter(self.clamp_index(above))),
            KeyCode::Up => Some(MangaPageActions::SelectChapter(self.clamp_index(below))),
            _ => None,
        }
    }

    /// Takes one input and says what the controller is to do about it.
    pub fn handle_events(&mut self, input: InputEvent) -> (reply: PageReply)
        requires
            old(self)@.wf(),
        ensures
            (final(self)@, reply@) == old(self)@.handled(input),
            final(self)@.wf(),
    {
        let key = match input {
            InputEvent::Key(key) => key,
            _ => {
                return PageReply::none();
            },
        };
        let queued = self.key_action(key);
        let mut reply = PageReply::none();
        match key.code {
            KeyCode::Enter => {
                if self.chapters.len() > 0 {
                    let chapter = &self.chapters[self.selected];
                    reply.commands.push(
                        Command::ChapterPages {
                            manga_id: self.id.clone(),
                            chapter_id: chapter.id.clone(),
                        },
                    );
                    reply.commands.push(
                        Command::SaveHistory {
                            manga_id: self.id.clone(),
                            manga_title: self.title.clone(),
                            chapter_id: chapter.id.clone(),
                            chapter_title: chapter.title.clone(),
                        },
                    );
                    proof {
                        let expected = old(self)@.key_reply(key).commands;
                        assert(self@.chapters[self.selected as int] == chapter@);
                        assert(reply.commands@.len() == 2);
                        assert(reply@.commands[0] == reply.commands@[0]@);
                        assert(reply@.commands[1] == reply.commands@[1]@);
                        assert(expected.len() == 2);
                        assert(reply@.commands[0] == expected[0]);
                        assert(reply@.commands[1] == expected[1]);
                        assert(reply@.commands =~= expected);
                    }
                }
            },
            KeyCode::Tab => {
                reply.action = Some(Action::NextTab);
            },
            KeyCode::BackTab => {
                reply.action = Some(Action::PreviousTab);
            },
            KeyCode::Backspace => {
                reply.action = Some(Action::GoToSearchPage);
            },
            _ => {},
        }
        match queued {
            Some(action) => {
                self.pending.push_back(action);
            },
            None => {},
        }
        assert(reply@.commands =~= old(self)@.key_reply(key).commands);
        reply
    }

    /// Takes the chapter feed of `manga_id`.
    pub fn chapters_loaded(&mut self, manga_id: &String, chapters: Vec<ChapterData>)
        requires
            old(self)@.wf(),
        ensures
            final(self)@ == old(self)@.with_chapters(manga_id@, views(chapters@)),
            final(self)@.wf(),
    {
        if self.id == *manga_id {
            self.notice = if chapters.len() == 0 {
                Some(ErrorKind::NotFound)
            } else {
                None
            };
            self.chapters = chapters;
            self.selected = 0;
            self.loading = false;
        }
    }

    /// Takes the cover image of `manga_id`.
    pub fn cover_loaded(&mut self, manga_id: &String, image: Vec<u8>)
        requires
            old(self)@.wf(),
        ensures
            final(self)@ == old(self)@.with_cover(manga_id@, image@),
            final(self)@.wf(),
    {
        if self.id == *manga_id {
            self.cover = Some(image);
        }
    }

    /// Takes the chapters of `manga_id` that were opened before.
    pub fn history_loaded(&mut self, manga_id: &String, chapters_read: Vec<String>)
        requires
            old(self)@.wf(),
        ensures
            final(self)@ == old(self)@.with_history(manga_id@, views(chapters_read@)),
            final(self)@.wf(),
    {
        if self.id == *manga_id {
            self.read = chapters_read;
        }
    }

    /// Records that a request made for `manga_id` failed.
    pub fn fetch_failed(&mut self, manga_id: &String, reason: ErrorKind)
        requires
            old(self)@.wf(),
        ensures
            final(self)@ == old(self)@.failed(manga_id@, reason),
            final(self)@.wf(),
    {
        if self.id == *manga_id {
            self.loading = false;
            self.notice = Some(reason);
        }
    }
}

} // verus!
