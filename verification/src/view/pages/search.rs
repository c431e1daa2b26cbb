use crate::backend::fetch::{Command, CommandView, ErrorKind, MangaItem, MangaItemView};
use crate::backend::tui::{
    no_reply, Action, Events, EventsView, InputEvent, KeyCode, KeyEvent, PageReply, PageReplyView,
};
use crate::text::views;
use std::collections::VecDeque;
use vstd::prelude::*;

verus! {

/// Whether keys edit the search term or move through the results.
#[derive(Clone, Copy, Debug, PartialEq, Eq, Structural)]
pub enum InputMode {
    Idle,
    Typing,
}

/// What the search page shows about its latest search.
#[derive(Clone, Copy, Debug, PartialEq, Eq, Structural)]
pub enum SearchStatus {
    /// No search is under way.
    Idle,
    /// A search was submitted and has not been answered.
    Loading,
    /// The latest search failed.
    Failed(ErrorKind),
}

/// The actions that change the search page alone.
#[derive(Clone, Copy, Debug, PartialEq, Eq, Structural)]
pub enum SearchPageActions {
    StartTyping,
    StopTyping,
    /// Put a character at the end of the search term.
    Insert(char),
    /// Take the last character off the search term.
    DeleteLast,
    /// Show that a search is under way and leave typing.
    SubmitSearch,
    /// Move the selection to the result with this index, or to the last one.
    SelectResult(usize),
}

/// The tag after `request`.
pub open spec fn next_request(request: u64) -> u64 {
    if request == u64::MAX {
        0
    } else {
        (request + 1) as u64
    }
}

/// The mathematical value of a `SearchPage`.
#[verifier::ext_equal]
pub struct SearchPageView {
    pub input_mode: InputMode,
    pub query: Seq<char>,
    pub results: Seq<MangaItemView>,
    /// The index of the selected result; 0 where there is none.
    pub selected: nat,
    pub status: SearchStatus,
    /// The tag of the latest search that was submitted.
    pub request: u64,
    /// The actions that wait to be applied, oldest first.
    pub pending: Seq<SearchPageActions>,
}

impl SearchPageView {
    /// The selection points at a result, where there is one.
    pub open spec fn wf(self) -> bool {
        if self.results.len() == 0 {
            self.selected == 0
        } else {
            self.selected < self.results.len()
        }
    }

    /// The page as it starts: idle, with no term and no results.
    pub open spec fn initial() -> Self {
        SearchPageView {
            input_mode: InputMode::Idle,
            query: Seq::empty(),
            results: Seq::empty(),
            selected: 0,
            status: SearchStatus::Idle,
            request: 0,
            pending: Seq::empty(),
        }
    }

    /// `index` brought into the range of the results.
    pub open spec fn clamp(self, index: int) -> nat {
        if self.results.len() == 0 || index < 0 {
            0
        } else if index >= self.results.len() {
            (self.results.len() - 1) as nat
        } else {
            index as nat
        }
    }

    /// The page after `action`.
    pub open spec fn updated(self, action: SearchPageActions) -> Self {
        match action {
            SearchPageActions::StartTyping => SearchPageView {
                input_mode: InputMode::Typing,
                ..self
            },
            SearchPageActions::StopTyping => SearchPageView { input_mode: InputMode::Idle, ..self },
            SearchPageActions::Insert(ch) => SearchPageView { query: self.query.push(ch), ..self },
            SearchPageActions::DeleteLast => SearchPageView {
                query: if self.query.len() > 0 {
                    self.query.drop_last()
                } else {
                    self.query
                },
                ..self
            },
            SearchPageActions::SubmitSearch => SearchPageView {
                input_mode: InputMode::Idle,
                status: SearchStatus::Loading,
                ..self
            },
            SearchPageActions::SelectResult(index) => SearchPageView {
                selected: self.clamp(index as int),
                ..self
            },
        }
    }

    /// The page after the oldest waiting action, if there is one.
    pub open spec fn drained(self) -> Self {
        if self.pending.len() > 0 {
            SearchPageView { pending: self.pending.drop_first(), ..self }.updated(self.pending[0])
        } else {
            self
        }
    }

    /// The action that a key queues.
    pub open spec fn key_action(self, key: KeyEvent) -> Option<SearchPageActions> {
        match self.input_mode {
            InputMode::Typing => match key.code {
                KeyCode::Char(ch) => Some(SearchPageActions::Insert(ch)),
                KeyCode::Backspace => Some(SearchPageActions::DeleteLast),
                KeyCode::Enter => Some(SearchPageActions::SubmitSearch),
                KeyCode::Esc => Some(SearchPageActions::StopTyping),
                _ => None,
            },
            InputMode::Idle => match key.code {
                KeyCode::Char(ch) => if ch == 's' {
                    Some(SearchPageActions::StartTyping)
                } else if ch == 'j' {
                    Some(SearchPageActions::SelectResult(self.clamp(self.selected as int + 1) as usize))
                } else if ch == 'k' {
                    Some(SearchPageActions::SelectResult(self.clamp(self.selected as int - 1) as usize))
                } else {
                    None
                },
                KeyCode::Down => Some(
                    SearchPageActions::SelectResult(self.clamp(self.selected as int + 1) as usize),
                ),
                KeyCode::Up => Some(
                    SearchPageActions::SelectResult(self.clamp(self.selected as int - 1) as usize),
                ),
                _ => None,
            },
        }
    }

    /// What a key asks of the controller.
    ///
    /// While typing, Enter starts a search for the term under a fresh tag. While idle, Enter
    /// opens the selected result, Tab goes to the next tab and BackTab to the previous one.
    pub open spec fn key_reply(self, key: KeyEvent) -> PageReplyView {
        match self.input_mode {
            InputMode::Typing => if key.code == KeyCode::Enter {
                PageReplyView {
                    commands: seq![
                        CommandView::SearchMangas {
                            request: next_request(self.request),
                            term: self.query,
                            page: 1,
                        },
                    ],
                    ..no_reply()
                }
            } else {
                no_reply()
            },
            InputMode::Idle => match key.code {
                KeyCode::Enter => if self.results.len() > 0 {
                    PageReplyView {
                        event: Some(EventsView::GoToMangaPage(self.results[self.selected as int])),
                        ..no_reply()
                    }
                } else {
                    no_reply()
                },
                KeyCode::Tab => PageReplyView { action: Some(Action::NextTab), ..no_reply() },
                KeyCode::BackTab => PageReplyView {
                    action: Some(Action::PreviousTab),
                    ..no_reply()
                },
                _ => no_reply(),
            },
        }
    }

    /// The page and its reply after one input: a key queues its action and, where it starts a
    /// search, takes the fresh tag; ticks and the mouse change nothing.
    pub open spec fn handled(self, input: InputEvent) -> (Self, PageReplyView) {
        match input {
            InputEvent::Key(key) => (
                SearchPageView {
                    request: if self.input_mode == InputMode::Typing && key.code
                        == KeyCode::Enter {
                        next_request(self.request)
                    } else {
                        self.request
                    },
                    pending: match self.key_action(key) {
                        Some(action) => self.pending.push(action),
                        None => self.pending,
                    },
                    ..self
                },
                self.key_reply(key),
            ),
            _ => (self, no_reply()),
        }
    }

    /// The page once the search tagged `request` was answered with `mangas`. An answer to
    /// any search but the latest is dropped. An empty answer is shown as not found.
    pub open spec fn completed(self, request: u64, mangas: Seq<MangaItemView>) -> Self {
        if request == self.request {
            SearchPageView {
                results: mangas,
                selected: 0,
                status: if mangas.len() == 0 {
                    SearchStatus::Failed(ErrorKind::NotFound)
                } else {
                    SearchStatus::Idle
                },
                ..self
            }
        } else {
            self
        }
    }

    /// The page once the search tagged `request` failed for `reason`: the failure is shown
    /// and the results stay. A failure of any search but the latest is dropped.
    pub open spec fn failed(self, request: u64, reason: ErrorKind) -> Self {
        if request == self.request {
            SearchPageView { status: SearchStatus::Failed(reason), ..self }
        } else {
            self
        }
    }
}

/// The page on which the catalog is searched. It is there for as long as the controller is.
pub struct SearchPage {
    input_mode: InputMode,
    query: String,
    results: Vec<MangaItem>,
    selected: usize,
    status: SearchStatus,
    request: u64,
    pending: VecDeque<SearchPageActions>,
}

impl View for SearchPage {
    type V = SearchPageView;

    closed spec fn view(&self) -> SearchPageView {
        SearchPageView {
            input_mode: self.input_mode,
            query: self.query@,
            results: views(self.results@),
            selected: self.selected as nat,
            status: self.status,
            request: self.request,
            pending: self.pending@,
        }
    }
}

impl SearchPage {
    /// The page as it starts.
    pub fn init() -> (page: Self)
        ensures
            page@ == SearchPageView::initial(),
            page@.wf(),
    {
        let page = SearchPage {
            input_mode: InputMode::Idle,
            query: String::new(),
            results: Vec::new(),
            selected: 0,
            status: SearchStatus::Idle,
            request: 0,
            pending: VecDeque::new(),
        };
        assert(page@ =~= SearchPageView::initial());
        page
    }

    /// Tests that the selection points at a result, where there is one.
    pub fn well_formed(&self) -> (holds: bool)
        ensures
            holds == self@.wf(),
    {
        if self.results.len() == 0 {
            self.selected == 0
        } else {
            self.selected < self.results.len()
        }
    }

    /// Whether keys edit the search term.
    pub fn input_mode(&self) -> (mode: InputMode)
        ensures
            mode == self@.input_mode,
    {
        self.input_mode
    }

    /// The search term as typed so far.
    pub fn query(&self) -> (query: &str)
        ensures
            query@ == self@.query,
    {
        self.query.as_str()
    }

    /// The number of results on show.
    pub fn result_count(&self) -> (count: usize)
        ensures
            count == self@.results.len(),
    {
        self.results.len()
    }

    /// The results on show.
    pub fn results(&self) -> (results: &Vec<MangaItem>)
        ensures
            views(results@) == self@.results,
    {
        &self.results
    }

    /// The index of the selected result; 0 where there is none.
    pub fn selected(&self) -> (selected: usize)
        ensures
            selected == self@.selected,
    {
        self.selected
    }

    /// What the page shows about its latest search.
    pub fn status(&self) -> (status: SearchStatus)
        ensures
            status == self@.status,
    {
        self.status
    }

    /// The tag of the latest search that was submitted.
    pub fn request(&self) -> (request: u64)
        ensures
            request == self@.request,
    {
        self.request
    }

    /// The number of actions that wait to be applied.
    pub fn pending_actions(&self) -> (waiting: usize)
        ensures
            waiting == self@.pending.len(),
    {
        self.pending.len()
    }

    fn clamp_index(&self, index: usize) -> (clamped: usize)
        requires
            self@.wf(),
        ensures
            clamped == self@.clamp(index as int),
    {
        if self.results.len() == 0 {
            0
        } else if index >= self.results.len() {
            self.results.len() - 1
        } else {
            index
        }
    }

    /// Applies one action to the page.
    pub fn update(&mut self, action: SearchPageActions)
        requires
            old(self)@.wf(),
        ensures
            final(self)@ == old(self)@.updated(action),
            final(self)@.wf(),
    {
        match action {
            SearchPageActions::StartTyping => {
                self.input_mode = InputMode::Typing;
            },
            SearchPageActions::StopTyping => {
                self.input_mode = InputMode::Idle;
            },
            SearchPageActions::Insert(ch) => {
                self.query.push(ch);
            },
            SearchPageActions::DeleteLast => {
                let _ = self.query.pop();
            },
            SearchPageActions::SubmitSearch => {
                self.input_mode = InputMode::Idle;
                self.status = SearchStatus::Loading;
            },
            SearchPageActions::SelectResult(index) => {
                self.selected = self.clamp_index(index);
            },
        }
    }

    /// Applies the oldest waiting action, if there is one. Says whether there was one.
    pub fn update_pending(&mut self) -> (applied: bool)
        requires
            old(self)@.wf(),
        ensures
            final(self)@ == old(self)@.drained(),
            final(self)@.wf(),
            applied == (old(self)@.pending.len() > 0),
    {
        match self.pending.pop_front() {
            Some(action) => {
                assert(self@.pending =~= old(self)@.pending.drop_first());
                self.update(action);
                true
            },
            None => false,
        }
    }

    fn key_action(&self, key: KeyEvent) -> (action: Option<SearchPageActions>)
        requires
            self@.wf(),
        ensures
            action == self@.key_action(key),
    {
        let below = if self.selected > 0 {
            self.selected - 1
        } else {
            0
        };
        let count = self.results.len();
        let above = if self.selected < count {
            self.selected + 1
        } else {
            1
        };
        match self.input_mode {
            InputMode::Typing => match key.code {
                KeyCode::Char(ch) => Some(SearchPageActions::Insert(ch)),
                KeyCode::Backspace => Some(SearchPageActions::DeleteLast),
                KeyCode::Enter => Some(SearchPageActions::SubmitSearch),
                KeyCode::Esc => Some(SearchPageActions::StopTyping),
                _ => None,
            },
            InputMode::Idle => match key.code {
                KeyCode::Char(ch) => if ch == 's' {
                    Some(SearchPageActions::StartTyping)
                } else if ch == 'j' {
                    Some(SearchPageActions::SelectResult(self.clamp_index(above)))
                } else if ch == 'k' {
                    Some(SearchPageActions::SelectResult(self.clamp_index(below)))
                } else {
                    None
                },
                KeyCode::Down => Some(
                    SearchPageActions::SelectResult(self.clamp_index(above)),
                ),
                KeyCode::Up => Some(SearchPageActions::SelectResult(self.clamp_index(below))),
                _ => None,
            },
        }
    }

    /// Takes one input and says what the controller is to do about it.
    pub fn handle_events(&mut self, input: InputEvent) -> (reply: PageReply)
        requires
            old(self)@.wf(),
        ensures
            (final(self)@, reply@) == old(self)@.handled(input),
            final(self)@.wf(),
    {
        let key = match input {
            InputEvent::Key(key) => key,
            _ => {
                return PageReply::none();
            },
        };
        let queued = self.key_action(key);
        let mut reply = PageReply::none();
        match self.input_mode {
            InputMode::Typing => match key.code {
                KeyCode::Enter => {
                    let request = if self.request == u64::MAX {
                        0
                    } else {
                        self.request + 1
                    };
                    self.request = request;
                    reply.commands.push(
                        Command::SearchMangas { request, term: self.query.clone(), page: 1 },
                    );
                },
                _ => {},
            },
            InputMode::Idle => match key.code {
                KeyCode::Enter => {
                    if self.results.len() > 0 {
                        reply.event = Some(Events::GoToMangaPage(self.results[self.selected].duplicate()));
                    }
                },
                KeyCode::Tab => {
                    reply.action = Some(Action::NextTab);
                },
                KeyCode::BackTab => {
                    reply.action = Some(Action::PreviousTab);
                },
                _ => {},
            },
        }
        match queued {
            Some(action) => {
                self.pending.push_back(action);
            },
            None => {},
        }
        assert(reply@.commands =~= old(self)@.key_reply(key).commands);
        reply
    }

    /// Takes the answer to the search tagged `request`.
    pub fn search_completed(&mut self, request: u64, mangas: Vec<MangaItem>)
        requires
            old(self)@.wf(),
        ensures
            final(self)@ == old(self)@.completed(request, views(mangas@)),
            final(self)@.wf(),
    {
        if request == self.request {
            self.status = if mangas.len() == 0 {
                SearchStatus::Failed(ErrorKind::NotFound)
            } else {
                SearchStatus::Idle
            };
            self.results = mangas;
            self.selected = 0;
        }
    }

    /// Records that the search tagged `request` failed.
    pub fn search_failed(&mut self, request: u64, reason: ErrorKind)
        requires
            old(self)@.wf(),
        ensures
            final(self)@ == old(self)@.failed(request, reason),
            final(self)@.wf(),
    {
        if request == self.request {
            self.status = SearchStatus::Failed(reason);
        }
    }
}

} // verus!
