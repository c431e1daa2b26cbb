use crate::backend::fetch::{
    ChapterPagesResponseView, Command, CommandView, ErrorKind, FetchOrigin, FetchOriginView,
    MangaItemView,
};
use crate::backend::tui::{
    try_recv, Action, Events, EventsView, InputEvent, KeyEvent, PageReply, PageReplyView,
};
use crate::text::{same_text, view_of, views};
use crate::view::pages::manga::{MangaPage, MangaPageView};
use crate::view::pages::reader::{MangaReader, MangaReaderView, PageSlot, PageSlotView};
use crate::view::pages::search::{next_request, InputMode, SearchPage, SearchPageView};
use crate::view::pages::SelectedTabs;
use std::collections::VecDeque;
use tokio::sync::mpsc::UnboundedReceiver;
use vstd::prelude::*;

verus! {

/// Whether the main loop keeps running. `Done` is final.
#[derive(Clone, Copy, Debug, PartialEq, Eq, Structural)]
pub enum AppState {
    Runnning,
    Done,
}

/// The share of the screen's height, in percent, that the tab bar takes.
pub const TOP_TABS_PERCENT: u16 = 6;

/// The share of the screen's height, in percent, that the page takes.
pub const PAGE_PERCENT: u16 = 94;

/// The mathematical value of an `App`.
#[verifier::ext_equal]
pub struct AppView {
    pub state: AppState,
    pub current_tab: SelectedTabs,
    pub manga_page: Option<MangaPageView>,
    pub manga_reader_page: Option<MangaReaderView>,
    pub search_page: SearchPageView,
    /// The events that wait to be handled, oldest first.
    pub global_events: Seq<EventsView>,
    /// The actions that wait to be applied, oldest first.
    pub global_actions: Seq<Action>,
    /// The commands that wait to be started, oldest first.
    pub commands: Seq<CommandView>,
    /// The tag that the next reader gets.
    pub next_generation: u64,
}

impl AppView {
    /// The page of the tab in view is there, every page that is there is well formed, and
    /// the reader that is there is the one that was opened last.
    pub open spec fn wf(self) -> bool {
        &&& self.current_tab == SelectedTabs::MangaTab ==> self.manga_page is Some
        &&& self.current_tab == SelectedTabs::ReaderTab ==> self.manga_reader_page is Some
        &&& self.search_page.wf()
        &&& self.manga_page matches Some(page) ==> page.wf()
        &&& self.manga_reader_page matches Some(reader) ==> reader.wf() && next_request(
            reader.generation,
        ) == self.next_generation
    }

    /// The controller as it starts: running, on the search tab, with no other page and
    /// nothing waiting.
    pub open spec fn initial() -> Self {
        AppView {
            state: AppState::Runnning,
            current_tab: SelectedTabs::Search,
            manga_page: None,
            manga_reader_page: None,
            search_page: SearchPageView::initial(),
            global_events: Seq::empty(),
            global_actions: Seq::empty(),
            commands: Seq::empty(),
            next_generation: 0,
        }
    }

    /// The controller once `event` joined the queue of events.
    pub open spec fn posted(self, event: EventsView) -> Self {
        AppView { global_events: self.global_events.push(event), ..self }
    }

    /// The controller once it took what a page handed back: the event and the action join
    /// their queues, and the commands join those that wait to be started.
    pub open spec fn replied(self, reply: PageReplyView) -> Self {
        AppView {
            global_events: match reply.event {
                Some(event) => self.global_events.push(event),
                None => self.global_events,
            },
            global_actions: match reply.action {
                Some(action) => self.global_actions.push(action),
                None => self.global_actions,
            },
            commands: self.commands + reply.commands,
            ..self
        }
    }

    /// The controller once the page in view took `input`. Pages that are not in view do not
    /// see it.
    pub open spec fn routed(self, input: InputEvent) -> Self {
        match self.current_tab {
            SelectedTabs::Search => {
                let (page, reply) = self.search_page.handled(input);
                AppView { search_page: page, ..self }.replied(reply)
            },
            SelectedTabs::MangaTab => match self.manga_page {
                Some(page) => {
                    let (page, reply) = page.handled(input);
                    AppView { manga_page: Some(page), ..self }.replied(reply)
                },
                None => self,
            },
            SelectedTabs::ReaderTab => match self.manga_reader_page {
                Some(reader) => {
                    let (reader, reply) = reader.handled(input);
                    AppView { manga_reader_page: Some(reader), ..self }.replied(reply)
                },
                None => self,
            },
        }
    }

    /// The controller once the detail page opened on `manga`: whatever detail page was there
    /// is gone, the new one is in view, and the commands that fill it wait to be started.
    pub open spec fn detail_opened(self, manga: MangaItemView) -> Self {
        let page = MangaPageView::opened(manga);
        AppView {
            current_tab: SelectedTabs::MangaTab,
            manga_page: Some(page),
            commands: self.commands + page.opening_commands(),
            ..self
        }
    }

    /// The controller once the reader opened on a chapter: whatever reader was there is
    /// gone, the new one is in view under a fresh tag, and the window of its first position
    /// is under way.
    pub open spec fn reader_opened(self, response: ChapterPagesResponseView) -> Self {
        let reader = MangaReaderView::opened(self.next_generation, response);
        AppView {
            current_tab: SelectedTabs::ReaderTab,
            manga_reader_page: Some(reader.requested(reader.current)),
            commands: self.commands + reader.fetches(reader.current),
            next_generation: next_request(self.next_generation),
            ..self
        }
    }

    /// The controller once it went back, from whatever tab: the reader is gone, and the
    /// detail tab is in view where a detail page is there, the search tab where none is.
    pub open spec fn went_back(self) -> Self {
        AppView {
            current_tab: if self.manga_page is Some {
                SelectedTabs::MangaTab
            } else {
                SelectedTabs::Search
            },
            manga_reader_page: None,
            ..self
        }
    }

    /// The controller once it returned to the search page: the detail page and the reader
    /// are gone.
    pub open spec fn search_shown(self) -> Self {
        AppView {
            current_tab: SelectedTabs::Search,
            manga_page: None,
            manga_reader_page: None,
            ..self
        }
    }

    /// Whether the search page is in view and `request` tags its latest search.
    pub open spec fn searches(self, request: u64) -> bool {
        self.current_tab == SelectedTabs::Search && request == self.search_page.request
    }

    /// Whether the detail page is in view and shows the manga `manga_id`.
    pub open spec fn shows_manga(self, manga_id: Seq<char>) -> bool {
        &&& self.current_tab == SelectedTabs::MangaTab
        &&& self.manga_page matches Some(page)
        &&& page.id == manga_id
    }

    /// Whether the reader is in view and carries the tag `generation`.
    pub open spec fn reads(self, generation: u64) -> bool {
        &&& self.current_tab == SelectedTabs::ReaderTab
        &&& self.manga_reader_page matches Some(reader)
        &&& reader.generation == generation
    }

    /// Whether the page that made the request `origin` is no longer the page in view, or
    /// no longer carries the tag of the request. A read or a write of the history is never
    /// stale.
    pub open spec fn stale_origin(self, origin: FetchOriginView) -> bool {
        match origin {
            FetchOriginView::Search { request } => !self.searches(request),
            FetchOriginView::Chapters { manga_id } => !self.shows_manga(manga_id),
            FetchOriginView::Cover { manga_id } => !self.shows_manga(manga_id),
            FetchOriginView::ChapterPages { manga_id, chapter_id } => !self.shows_manga(manga_id),
            FetchOriginView::Page { generation, position } => !self.reads(generation),
            FetchOriginView::History => false,
        }
    }

    /// Whether `event` is a stale result: the answer to a request, or its failure, whose
    /// page is not the page in view or no longer carries the tag of the request.
    pub open spec fn stale(self, event: EventsView) -> bool {
        match event {
            EventsView::SearchCompleted { request, mangas } => !self.searches(request),
            EventsView::ChaptersLoaded { manga_id, chapters } => !self.shows_manga(manga_id),
            EventsView::CoverLoaded { manga_id, image } => !self.shows_manga(manga_id),
            EventsView::PageLoaded { generation, position, image } => !self.reads(generation),
            EventsView::HistoryLoaded { manga_id, chapters_read } => !self.shows_manga(manga_id),
            EventsView::FetchFailed { origin, reason } => self.stale_origin(origin),
            _ => false,
        }
    }

    /// The controller once something was delivered to the search page for its search
    /// `request`, which `deliver` puts into the page. Where the search page is not in view,
    /// or `request` is not its latest search, the delivery is stale and nothing changes.
    pub open spec fn search_delivered(
        self,
        request: u64,
        deliver: spec_fn(SearchPageView) -> SearchPageView,
    ) -> Self {
        if self.searches(request) {
            AppView { search_page: deliver(self.search_page), ..self }
        } else {
            self
        }
    }

    /// The controller once something was delivered to the detail page of `manga_id`, which
    /// `deliver` puts into the page. Where the detail page is not in view, or shows another
    /// manga, the delivery is stale and nothing changes.
    pub open spec fn manga_delivered(
        self,
        manga_id: Seq<char>,
        deliver: spec_fn(MangaPageView) -> MangaPageView,
    ) -> Self {
        if self.shows_manga(manga_id) {
            AppView { manga_page: Some(deliver(self.manga_page->0)), ..self }
        } else {
            self
        }
    }

    /// The controller once `slot` was delivered for `position` of the reader tagged
    /// `generation`. Where the reader is not in view, or carries another tag, the delivery
    /// is stale and nothing changes.
    pub open spec fn page_delivered(self, generation: u64, position: int, slot: PageSlotView) -> Self {
        if self.reads(generation) {
            AppView {
                manga_reader_page: Some(self.manga_reader_page->0.delivered(position, slot)),
                ..self
            }
        } else {
            self
        }
    }

    /// The controller once the failure of the request `origin` was delivered to the page
    /// that made the request, where that page is in view and carries the tag of the
    /// request. A failed read or write of the history changes nothing.
    pub open spec fn failure_delivered(self, origin: FetchOriginView, reason: ErrorKind) -> Self {
        match origin {
            FetchOriginView::Search { request } => self.search_delivered(
                request,
                |page: SearchPageView| page.failed(request, reason),
            ),
            FetchOriginView::Chapters { manga_id } => self.manga_delivered(
                manga_id,
                |page: MangaPageView| page.failed(manga_id, reason),
            ),
            FetchOriginView::Cover { manga_id } => self.manga_delivered(
                manga_id,
                |page: MangaPageView| page.failed(manga_id, reason),
            ),
            FetchOriginView::ChapterPages { manga_id, chapter_id } => self.manga_delivered(
                manga_id,
                |page: MangaPageView| page.failed(manga_id, reason),
            ),
            FetchOriginView::Page { generation, position } => self.page_delivered(
                generation,
                position as int,
                PageSlotView::Failed(reason),
            ),
            FetchOriginView::History => self,
        }
    }

    /// Whether `key` makes the controller quit: the quit chord, while the search page is
    /// not taking text.
    pub open spec fn quits_on(self, key: KeyEvent) -> bool {
        self.search_page.input_mode != InputMode::Typing && key.is_quit_chord()
    }

    /// The controller once it handled `event`.
    ///
    /// Input goes to the page in view; before that, the quit chord queues `Quit`. Navigation
    /// changes which pages are there and which tab is in view. An answer to a command, or
    /// its failure, goes to the page that asked where that page is the page in view and
    /// carries the tag of the request; otherwise it is stale and nothing changes. No event
    /// reaches a page that is not in view.
    pub open spec fn handled(self, event: EventsView) -> Self {
        match event {
            EventsView::Tick => self.routed(InputEvent::Tick),
            EventsView::Key(key) => AppView {
                global_actions: if self.quits_on(key) {
                    self.global_actions.push(Action::Quit)
                } else {
                    self.global_actions
                },
                ..self
            }.routed(InputEvent::Key(key)),
            EventsView::Mouse(mouse) => self.routed(InputEvent::Mouse(mouse)),
            EventsView::GoToMangaPage(manga) => self.detail_opened(manga),
            EventsView::ReadChapter(response) => self.reader_opened(response),
            EventsView::GoBackMangaPage => self.went_back(),
            EventsView::GoSearchPage => self.search_shown(),
            EventsView::SearchCompleted { request, mangas } => self.search_delivered(
                request,
                |page: SearchPageView| page.completed(request, mangas),
            ),
            EventsView::ChaptersLoaded { manga_id, chapters } => self.manga_delivered(
                manga_id,
                |page: MangaPageView| page.with_chapters(manga_id, chapters),
            ),
            EventsView::CoverLoaded { manga_id, image } => self.manga_delivered(
                manga_id,
                |page: MangaPageView| page.with_cover(manga_id, image),
            ),
            EventsView::PageLoaded { generation, position, image } => self.page_delivered(
                generation,
                position as int,
                PageSlotView::Loaded(image),
            ),
            EventsView::HistoryLoaded { manga_id, chapters_read } => self.manga_delivered(
                manga_id,
                |page: MangaPageView| page.with_history(manga_id, chapters_read),
            ),
            EventsView::FetchFailed { origin, reason } => self.failure_delivered(origin, reason),
        }
    }

    /// The controller once it applied `action`.
    pub open spec fn updated(self, action: Action) -> Self {
        match action {
            Action::Quit => AppView { state: AppState::Done, ..self },
            Action::NextTab => AppView {
                current_tab: self.current_tab.cycled(self.manga_page is Some),
                ..self
            },
            Action::PreviousTab => AppView {
                current_tab: self.current_tab.cycled(self.manga_page is Some),
                ..self
            },
            Action::GoToSearchPage => self.search_shown(),
        }
    }

    /// The controller once the page in view applied its oldest waiting action. The pages
    /// that are not in view keep theirs.
    pub open spec fn page_updated(self) -> Self {
        match self.current_tab {
            SelectedTabs::Search => AppView { search_page: self.search_page.drained(), ..self },
            SelectedTabs::MangaTab => match self.manga_page {
                Some(page) => AppView { manga_page: Some(page.drained()), ..self },
                None => self,
            },
            SelectedTabs::ReaderTab => match self.manga_reader_page {
                Some(reader) => AppView { manga_reader_page: Some(reader.drained()), ..self },
                None => self,
            },
        }
    }

    /// The first step of a tick: the oldest waiting event is handled, if there is one.
    pub open spec fn event_step(self) -> Self {
        if self.global_events.len() > 0 {
            AppView { global_events: self.global_events.drop_first(), ..self }.handled(
                self.global_events[0],
            )
        } else {
            self
        }
    }

    /// The second step of a tick: the oldest waiting action is applied, if there is one.
    pub open spec fn action_step(self) -> Self {
        if self.global_actions.len() > 0 {
            AppView { global_actions: self.global_actions.drop_first(), ..self }.updated(
                self.global_actions[0],
            )
        } else {
            self
        }
    }

    /// The controller after one turn of the loop: at most one event, then at most one
    /// action, then at most one action of the page then in view. A controller that is done
    /// does nothing.
    pub open spec fn ticked(self) -> Self {
        if self.state == AppState::Done {
            self
        } else {
            self.event_step().action_step().page_updated()
        }
    }
}

/// What the tab bar shows.
pub struct TopTabs {
    pub titles: Vec<String>,
    /// The position of the tab in view.
    pub selected: usize,
}

/// The page that is drawn below the tab bar.
#[derive(Clone, Copy, Debug, PartialEq, Eq, Structural)]
pub enum PageShown {
    Search,
    Manga,
    /// Nothing is drawn there.
    Nothing,
}

/// How the screen is laid out.
#[derive(Clone, Copy, Debug, PartialEq, Eq, Structural)]
pub enum Screen {
    /// The reader takes the whole screen.
    Reader,
    /// The tab bar takes the top of the screen and a page the rest, in these shares of the
    /// height in percent.
    Tabbed { top_tabs: u16, page: u16, shown: PageShown },
}

/// The controller: the pages, the tab in view, and the queues between them and the world.
pub struct App {
    state: AppState,
    current_tab: SelectedTabs,
    manga_page: Option<MangaPage>,
    manga_reader_page: Option<MangaReader>,
    search_page: SearchPage,
    global_events: VecDeque<Events>,
    global_actions: VecDeque<Action>,
    commands: Vec<Command>,
    next_generation: u64,
}

impl View for App {
    type V = AppView;

    closed spec fn view(&self) -> AppView {
        AppView {
            state: self.state,
            current_tab: self.current_tab,
            manga_page: view_of(self.manga_page),
            manga_reader_page: view_of(self.manga_reader_page),
            search_page: self.search_page@,
            global_events: views(self.global_events@),
            global_actions: self.global_actions@,
            commands: views(self.commands@),
            next_generation: self.next_generation,
        }
    }
}

impl App {
    /// The titles of the tab bar: the search tab, and the title of the manga while the
    /// detail tab is in view.
    pub open spec fn tab_titles(app: AppView) -> Seq<Seq<char>> {
        if app.current_tab == SelectedTabs::MangaTab && app.manga_page is Some {
            seq!["Search"@, app.manga_page->0.title]
        } else {
            seq!["Search"@]
        }
    }

    /// The page that is drawn below the tab bar.
    pub open spec fn page_shown(app: AppView) -> PageShown {
        match app.current_tab {
            SelectedTabs::Search => PageShown::Search,
            SelectedTabs::MangaTab => if app.manga_page is Some {
                PageShown::Manga
            } else {
                PageShown::Nothing
            },
            SelectedTabs::ReaderTab => PageShown::Nothing,
        }
    }

    /// How the screen is laid out.
    pub open spec fn screen(app: AppView) -> Screen {
        if app.manga_reader_page is Some && app.current_tab == SelectedTabs::ReaderTab {
            Screen::Reader
        } else {
            Screen::Tabbed {
                top_tabs: TOP_TABS_PERCENT,
                page: PAGE_PERCENT,
                shown: Self::page_shown(app),
            }
        }
    }

    /// The controller as it starts.
    pub fn new() -> (app: Self)
        ensures
            app@ == AppView::initial(),
            app@.wf(),
    {
        let app = App {
            state: AppState::Runnning,
            current_tab: SelectedTabs::default(),
            manga_page: None,
            manga_reader_page: None,
            search_page: SearchPage::init(),
            global_events: VecDeque::new(),
            global_actions: VecDeque::new(),
            commands: Vec::new(),
            next_generation: 0,
        };
        assert(app@ =~= AppView::initial());
        app
    }

    /// Tests that the page of the tab in view is there, that every page that is there is
    /// well formed, and that the reader that is there is the one that was opened last.
    pub fn well_formed(&self) -> (holds: bool)
        ensures
            holds == self@.wf(),
    {
        let resident = match self.current_tab {
            SelectedTabs::Search => true,
            SelectedTabs::MangaTab => self.manga_page.is_some(),
            SelectedTabs::ReaderTab => self.manga_reader_page.is_some(),
        };
        let detail = match &self.manga_page {
            Some(page) => page.well_formed(),
            None => true,
        };
        let reader = match &self.manga_reader_page {
            Some(reader) => {
                let generation = reader.generation();
                let next = if generation == u64::MAX {
                    0
                } else {
                    generation + 1
                };
                reader.well_formed() && next == self.next_generation
            },
            None => true,
        };
        resident && self.search_page.well_formed() && detail && reader
    }

    /// The state of the loop.
    pub fn state(&self) -> (state: AppState)
        ensures
            state == self@.state,
    {
        self.state
    }

    /// Whether the loop keeps running.
    pub fn is_running(&self) -> (running: bool)
        ensures
            running == (self@.state == AppState::Runnning),
    {
        match self.state {
            AppState::Runnning => true,
            AppState::Done => false,
        }
    }

    /// The tab in view.
    pub fn current_tab(&self) -> (tab: SelectedTabs)
        ensures
            tab == self@.current_tab,
    {
        self.current_tab
    }

    /// The search page.
    pub fn search_page(&self) -> (page: &SearchPage)
        ensures
            page@ == self@.search_page,
    {
        &self.search_page
    }

    /// The detail page, while there is one.
    pub fn manga_page(&self) -> (page: Option<&MangaPage>)
        ensures
            view_of(page) == self@.manga_page,
    {
        self.manga_page.as_ref()
    }

    /// The reader, while there is one.
    pub fn manga_reader_page(&self) -> (reader: Option<&MangaReader>)
        ensures
            view_of(reader) == self@.manga_reader_page,
    {
        self.manga_reader_page.as_ref()
    }

    /// The number of events that wait to be handled.
    pub fn pending_events(&self) -> (waiting: usize)
        ensures
            waiting == self@.global_events.len(),
    {
        self.global_events.len()
    }

    /// The number of actions that wait to be applied.
    pub fn pending_actions(&self) -> (waiting: usize)
        ensures
            waiting == self@.global_actions.len(),
    {
        self.global_actions.len()
    }

    /// Puts an event at the end of the queue of events.
    pub fn post_event(&mut self, event: Events)
        ensures
            final(self)@ == old(self)@.posted(event@),
    {
        self.global_events.push_back(event);
        assert(views(self.global_events@) =~= views(old(self).global_events@).push(event@));
    }

    /// Takes at most one event out of `channel`, without waiting for one to be sent, and
    /// puts it at the end of the queue of events. Says whether there was one. Which event
    /// it is depends on what the other tasks have sent.
    pub fn receive(&mut self, channel: &mut UnboundedReceiver<Events>) -> (received: bool)
        ensures
            !received ==> final(self)@ == old(self)@,
            received ==> exists|event: EventsView|
                final(self)@ == #[trigger] old(self)@.posted(event),
            final(self)@.wf() == old(self)@.wf(),
    {
        let polled = try_recv(channel);
        self.take_received(polled)
    }

    /// Takes what one poll of the channel gave: an event joins the end of the queue of
    /// events, and nothing changes where the poll gave none. Says whether there was one.
    pub fn take_received(&mut self, polled: Option<Events>) -> (received: bool)
        ensures
            received == polled is Some,
            final(self)@ == (match polled {
                Some(event) => old(self)@.posted(event@),
                None => old(self)@,
            }),
    {
        match polled {
            Some(event) => {
                self.post_event(event);
                true
            },
            None => false,
        }
    }

    /// Puts an action at the end of the queue of actions.
    pub fn post_action(&mut self, action: Action)
        ensures
            final(self)@ == (AppView {
                global_actions: old(self)@.global_actions.push(action),
                ..old(self)@
            }),
    {
        self.global_actions.push_back(action);
    }

    /// Hands out the commands that wait to be started, oldest first, and keeps none.
    pub fn take_commands(&mut self) -> (commands: Vec<Command>)
        ensures
            views(commands@) == old(self)@.commands,
            final(self)@ == (AppView { commands: Seq::empty(), ..old(self)@ }),
    {
        let mut commands: Vec<Command> = Vec::new();
        std::mem::swap(&mut commands, &mut self.commands);
        assert(views(self.commands@) =~= Seq::empty());
        commands
    }

    fn take_reply(&mut self, reply: PageReply)
        ensures
            final(self)@ == old(self)@.replied(reply@),
    {
        let PageReply { event, action, commands } = reply;
        let mut commands = commands;
        match event {
            Some(event) => {
                self.global_events.push_back(event);
                assert(views(self.global_events@) =~= views(old(self).global_events@).push(
                    event@,
                ));
            },
            None => {},
        }
        match action {
            Some(action) => {
                self.global_actions.push_back(action);
            },
            None => {},
        }
        let ghost added = commands@;
        self.commands.append(&mut commands);
        assert(views(self.commands@) =~= views(old(self).commands@) + views(added));
    }

    fn route(&mut self, input: InputEvent)
        requires
            old(self)@.wf(),
        ensures
            final(self)@ == old(self)@.routed(input),
            final(self)@.wf(),
    {
        match self.current_tab {
            SelectedTabs::Search => {
                let reply = self.search_page.handle_events(input);
                self.take_reply(reply);
            },
            SelectedTabs::MangaTab => {
                let reply = match &mut self.manga_page {
                    Some(page) => page.handle_events(input),
                    None => PageReply::none(),
                };
                self.take_reply(reply);
            },
            SelectedTabs::ReaderTab => {
                let reply = match &mut self.manga_reader_page {
                    Some(reader) => reader.handle_events(input),
                    None => PageReply::none(),
                };
                self.take_reply(reply);
            },
        }
    }

    fn deliver_page(&mut self, generation: u64, position: usize, slot: PageSlot)
        requires
            old(self)@.wf(),
        ensures
            final(self)@ == old(self)@.page_delivered(generation, position as int, slot@),
            final(self)@.wf(),
    {
        if self.reads(generation) {
            match &mut self.manga_reader_page {
                Some(reader) => reader.deliver(position, slot),
                None => {},
            }
        }
    }

    fn deliver_failure(&mut self, origin: FetchOrigin, reason: ErrorKind)
        requires
            old(self)@.wf(),
        ensures
            final(self)@ == old(self)@.failure_delivered(origin@, reason),
            final(self)@.wf(),
    {
        match origin {
            FetchOrigin::Search { request } => {
                if self.searches(request) {
                    self.search_page.search_failed(request, reason);
                }
            },
            FetchOrigin::Chapters { manga_id } => {
                self.deliver_manga_failure(&manga_id, reason);
            },
            FetchOrigin::Cover { manga_id } => {
                self.deliver_manga_failure(&manga_id, reason);
            },
            FetchOrigin::ChapterPages { manga_id, chapter_id } => {
                self.deliver_manga_failure(&manga_id, reason);
            },
            FetchOrigin::Page { generation, position } => {
                self.deliver_page(generation, position, PageSlot::Failed(reason));
            },
            FetchOrigin::History => {},
        }
    }

    fn deliver_manga_failure(&mut self, manga_id: &String, reason: ErrorKind)
        requires
            old(self)@.wf(),
        ensures
            final(self)@ == old(self)@.manga_delivered(
                manga_id@,
                |page: MangaPageView| page.failed(manga_id@, reason),
            ),
            final(self)@.wf(),
    {
        if self.shows_manga(manga_id) {
            match &mut self.manga_page {
                Some(page) => page.fetch_failed(manga_id, reason),
                None => {},
            }
        }
    }

    fn searches(&self, request: u64) -> (searched: bool)
        ensures
            searched == self@.searches(request),
    {
        match self.current_tab {
            SelectedTabs::Search => request == self.search_page.request(),
            _ => false,
        }
    }

    fn shows_manga(&self, manga_id: &String) -> (shown: bool)
        ensures
            shown == self@.shows_manga(manga_id@),
    {
        match self.current_tab {
            SelectedTabs::MangaTab => match &self.manga_page {
                Some(page) => same_text(page.id(), manga_id.as_str()),
                None => false,
            },
            _ => false,
        }
    }

    fn reads(&self, generation: u64) -> (read: bool)
        ensures
            read == self@.reads(generation),
    {
        match self.current_tab {
            SelectedTabs::ReaderTab => match &self.manga_reader_page {
                Some(reader) => reader.generation() == generation,
                None => false,
            },
            _ => false,
        }
    }

    fn stale_origin(&self, origin: &FetchOrigin) -> (stale: bool)
        ensures
            stale == self@.stale_origin(origin@),
    {
        match origin {
            FetchOrigin::Search { request } => !self.searches(*request),
            FetchOrigin::Chapters { manga_id } => !self.shows_manga(manga_id),
            FetchOrigin::Cover { manga_id } => !self.shows_manga(manga_id),
            FetchOrigin::ChapterPages { manga_id, chapter_id } => !self.shows_manga(manga_id),
            FetchOrigin::Page { generation, position } => !self.reads(*generation),
            FetchOrigin::History => false,
        }
    }

    /// Classifies an event before it is handled: `StaleResult` for the answer to a request,
    /// or its failure, whose page is not the page in view or no longer carries the tag of
    /// the request, which handling then drops; `None` for every other event.
    pub fn stale_result(&self, events: &Events) -> (kind: Option<ErrorKind>)
        ensures
            kind == (if self@.stale(events@) {
                Some(ErrorKind::StaleResult)
            } else {
                None
            }),
    {
        let stale = match events {
            Events::SearchCompleted { request, mangas } => !self.searches(*request),
            Events::ChaptersLoaded { manga_id, chapters } => !self.shows_manga(manga_id),
            Events::CoverLoaded { manga_id, image } => !self.shows_manga(manga_id),
            Events::PageLoaded { generation, position, image } => !self.reads(*generation),
            Events::HistoryLoaded { manga_id, chapters_read } => !self.shows_manga(manga_id),
            Events::FetchFailed { origin, reason } => self.stale_origin(origin),
            _ => false,
        };
        if stale {
            Some(ErrorKind::StaleResult)
        } else {
            None
        }
    }

    /// Handles one event.
    pub fn handle_events(&mut self, events: Events)
        requires
            old(self)@.wf(),
        ensures
            final(self)@ == old(self)@.handled(events@),
            final(self)@.wf(),
    {
        match events {
            Events::Tick => {
                self.route(InputEvent::Tick);
            },
            Events::Key(key_event) => {
                match self.search_page.input_mode() {
                    InputMode::Typing => {},
                    InputMode::Idle => {
                        if key_event.quit_chord() {
                            self.global_actions.push_back(Action::Quit);
                        }
                    },
                }
                self.route(InputEvent::Key(key_event));
            },
            Events::Mouse(mouse_event) => {
                self.route(InputEvent::Mouse(mouse_event));
            },
            Events::GoToMangaPage(manga) => {
                let page = MangaPage::new(manga);
                let mut commands = page.opening_commands();
                let ghost added = commands@;
                self.commands.append(&mut commands);
                assert(views(self.commands@) =~= views(old(self).commands@) + views(added));
                self.manga_page = Some(page);
                self.current_tab = SelectedTabs::MangaTab;
            },
            Events::ReadChapter(chapter_response) => {
                let mut reader = MangaReader::new(self.next_generation, chapter_response);
                let first = reader.current_page();
                let mut commands = reader.request_window(first);
                let ghost added = commands@;
                self.commands.append(&mut commands);
                assert(views(self.commands@) =~= views(old(self).commands@) + views(added));
                self.manga_reader_page = Some(reader);
                self.current_tab = SelectedTabs::ReaderTab;
                self.next_generation = if self.next_generation == u64::MAX {
                    0
                } else {
                    self.next_generation + 1
                };
            },
            Events::GoBackMangaPage => {
                self.manga_reader_page = None;
                self.current_tab = if self.manga_page.is_some() {
                    SelectedTabs::MangaTab
                } else {
                    SelectedTabs::Search
                };
            },
            Events::GoSearchPage => {
                self.current_tab = SelectedTabs::Search;
                self.manga_reader_page = None;
                self.manga_page = None;
            },
            Events::SearchCompleted { request, mangas } => {
                if self.searches(request) {
                    self.search_page.search_completed(request, mangas);
                }
            },
            Events::ChaptersLoaded { manga_id, chapters } => {
                if self.shows_manga(&manga_id) {
                    match &mut self.manga_page {
                        Some(page) => page.chapters_loaded(&manga_id, chapters),
                        None => {},
                    }
                }
            },
            Events::CoverLoaded { manga_id, image } => {
                if self.shows_manga(&manga_id) {
                    match &mut self.manga_page {
                        Some(page) => page.cover_loaded(&manga_id, image),
                        None => {},
                    }
                }
            },
            Events::PageLoaded { generation, position, image } => {
                self.deliver_page(generation, position, PageSlot::Loaded(image));
            },
            Events::HistoryLoaded { manga_id, chapters_read } => {
                if self.shows_manga(&manga_id) {
                    match &mut self.manga_page {
                        Some(page) => page.history_loaded(&manga_id, chapters_read),
                        None => {},
                    }
                }
            },
            Events::FetchFailed { origin, reason } => {
                self.deliver_failure(origin, reason);
            },
        }
    }

    /// Applies one action.
    pub fn update(&mut self, action: Action)
        requires
            old(self)@.wf(),
        ensures
            final(self)@ == old(self)@.updated(action),
            final(self)@.wf(),
    {
        match action {
            Action::Quit => {
                self.state = AppState::Done;
            },
            Action::PreviousTab => self.previous_tab(),
            Action::NextTab => self.next_tab(),
            Action::GoToSearchPage => {
                self.current_tab = SelectedTabs::Search;
                self.manga_reader_page = None;
                self.manga_page = None;
            },
        }
    }

    /// Brings the next tab of the cycle into view.
    pub fn next_tab(&mut self)
        requires
            old(self)@.wf(),
        ensures
            final(self)@ == old(self)@.updated(Action::NextTab),
            final(self)@.wf(),
    {
        self.current_tab = self.current_tab.next(self.manga_page.is_some());
    }

    /// Brings the previous tab of the cycle into view.
    pub fn previous_tab(&mut self)
        requires
            old(self)@.wf(),
        ensures
            final(self)@ == old(self)@.updated(Action::PreviousTab),
            final(self)@.wf(),
    {
        self.current_tab = self.current_tab.previous(self.manga_page.is_some());
    }

    fn update_page(&mut self)
        requires
            old(self)@.wf(),
        ensures
            final(self)@ == old(self)@.page_updated(),
            final(self)@.wf(),
    {
        match self.current_tab {
            SelectedTabs::Search => {
                let _ = self.search_page.update_pending();
            },
            SelectedTabs::MangaTab => {
                match &mut self.manga_page {
                    Some(page) => {
                        let _ = page.update_pending();
                    },
                    None => {},
                }
            },
            SelectedTabs::ReaderTab => {
                match &mut self.manga_reader_page {
                    Some(reader) => {
                        let _ = reader.update_pending();
                    },
                    None => {},
                }
            },
        }
    }

    /// Takes one turn of the loop: handles the oldest waiting event, applies the oldest
    /// waiting action, and lets the page in view apply its oldest waiting action. Says
    /// whether the loop keeps running.
    pub fn tick(&mut self) -> (running: bool)
        requires
            old(self)@.wf(),
        ensures
            final(self)@ == old(self)@.ticked(),
            final(self)@.wf(),
            running == (final(self)@.state == AppState::Runnning),
    {
        if !self.is_running() {
            return false;
        }
        match self.global_events.pop_front() {
            Some(event) => {
                assert(views(self.global_events@) =~= old(self)@.global_events.drop_first());
                assert(event@ == old(self)@.global_events[0]);
                self.handle_events(event);
            },
            None => {},
        }
        let ghost after_event = self@;
        match self.global_actions.pop_front() {
            Some(action) => {
                assert(self@.global_actions =~= after_event.global_actions.drop_first());
                self.update(action);
            },
            None => {},
        }
        self.update_page();
        self.is_running()
    }

    /// What the tab bar shows.
    pub fn render_top_tabs(&self) -> (tabs: TopTabs)
        ensures
            views(tabs.titles@) == Self::tab_titles(self@),
            tabs.selected == self@.current_tab.index(),
    {
        let mut titles: Vec<String> = Vec::new();
        titles.push(String::from_str("Search"));
        match self.current_tab {
            SelectedTabs::MangaTab => {
                match &self.manga_page {
                    Some(page) => {
                        titles.push(String::from_str(page.title()));
                    },
                    None => {},
                }
            },
            _ => {},
        }
        assert(views(titles@) =~= Self::tab_titles(self@));
        TopTabs { titles, selected: self.current_tab.position() }
    }

    /// The page that is drawn below the tab bar.
    pub fn render_pages(&self) -> (shown: PageShown)
        ensures
            shown == Self::page_shown(self@),
    {
        match self.current_tab {
            SelectedTabs::Search => PageShown::Search,
            SelectedTabs::MangaTab => if self.manga_page.is_some() {
                PageShown::Manga
            } else {
                PageShown::Nothing
            },
            SelectedTabs::ReaderTab => PageShown::Nothing,
        }
    }

    /// The search page, to be drawn.
    pub fn render_search_page(&self) -> (page: &SearchPage)
        ensures
            page@ == self@.search_page,
    {
        &self.search_page
    }

    /// The detail page, to be drawn while there is one.
    pub fn render_manga_page(&self) -> (page: Option<&MangaPage>)
        ensures
            view_of(page) == self@.manga_page,
    {
        self.manga_page.as_ref()
    }

    /// How the screen is laid out.
    pub fn render(&self) -> (screen: Screen)
        ensures
            screen == Self::screen(self@),
    {
        let reader_in_view = match self.current_tab {
            SelectedTabs::ReaderTab => self.manga_reader_page.is_some(),
            _ => false,
        };
        if reader_in_view {
            Screen::Reader
        } else {
            Screen::Tabbed {
                top_tabs: TOP_TABS_PERCENT,
                page: PAGE_PERCENT,
                shown: self.render_pages(),
            }
        }
    }
}

} // verus!
