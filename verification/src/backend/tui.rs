use crate::backend::fetch::{
    origin_of, ChapterData, ChapterDataView, ChapterPagesResponse, ChapterPagesResponseView,
    Command, CommandView, ErrorKind, FetchOrigin, FetchOriginView, MangaItem, MangaItemView,
};
use crate::text::{view_of, views};
use tokio::sync::mpsc::UnboundedReceiver;
use vstd::prelude::*;

verus! {

/// Modifier bit for the shift key.
pub const SHIFT: u8 = 1;

/// Modifier bit for the control key.
pub const CONTROL: u8 = 2;

/// Modifier bit for the alt key.
pub const ALT: u8 = 4;

/// Actions that change the controller itself rather than one page.
#[derive(Clone, Copy, Debug, PartialEq, Eq, Structural)]
pub enum Action {
    GoToSearchPage,
    Quit,
    NextTab,
    PreviousTab,
}

/// The key of a keyboard event.
#[derive(Clone, Copy, Debug, PartialEq, Eq, Structural)]
pub enum KeyCode {
    Backspace,
    Enter,
    Left,
    Right,
    Up,
    Down,
    Tab,
    BackTab,
    Esc,
    Char(char),
    Other,
}

/// The modifier keys held during an event, as a bit set of `SHIFT`, `CONTROL`, `ALT`
/// and any further bits the terminal reports.
#[derive(Clone, Copy, Debug, PartialEq, Eq, Structural)]
pub struct KeyModifiers {
    pub bits: u8,
}

/// Whether a key went down, is held, or went up.
#[derive(Clone, Copy, Debug, PartialEq, Eq, Structural)]
pub enum KeyEventKind {
    Press,
    Repeat,
    Release,
}

/// One keyboard event as read from the terminal.
#[derive(Clone, Copy, Debug, PartialEq, Eq, Structural)]
pub struct KeyEvent {
    pub code: KeyCode,
    pub modifiers: KeyModifiers,
    pub kind: KeyEventKind,
}

/// What the mouse did.
#[derive(Clone, Copy, Debug, PartialEq, Eq, Structural)]
pub enum MouseEventKind {
    Down,
    Up,
    Drag,
    Moved,
    ScrollDown,
    ScrollUp,
    Other,
}

/// One mouse event as read from the terminal.
#[derive(Clone, Copy, Debug, PartialEq, Eq, Structural)]
pub struct MouseEvent {
    pub kind: MouseEventKind,
    pub column: u16,
    pub row: u16,
    pub modifiers: KeyModifiers,
}

/// What a read of the terminal produced.
#[derive(Clone, Copy, Debug, PartialEq, Eq, Structural)]
pub enum TerminalInput {
    Key(KeyEvent),
    Mouse(MouseEvent),
    /// Focus changes, pastes, resizes: nothing the pages listen to.
    Other,
}

/// Which of the two producers became ready first, and with what.
#[derive(Clone, Copy, Debug, PartialEq, Eq, Structural)]
pub enum Polled {
    /// The timer fired.
    Tick,
    /// The terminal delivered an input.
    Input(TerminalInput),
    /// The read of the terminal failed.
    ReadError,
    /// The terminal's input stream ended.
    Closed,
}

/// An event that the input source forwards to the controller.
#[derive(Clone, Copy, Debug, PartialEq, Eq, Structural)]
pub enum InputEvent {
    Tick,
    Key(KeyEvent),
    Mouse(MouseEvent),
}

/// What the input source does with one poll result.
#[derive(Clone, Copy, Debug, PartialEq, Eq, Structural)]
pub struct SourceStep {
    /// The event to put on the controller's queue, if any.
    pub forward: Option<InputEvent>,
    /// Whether the producer must sit out the rest of the tick interval before it reads the
    /// terminal again.
    pub wait_for_tick: bool,
}

/// The events the controller listens to: terminal input, navigation asked for by a page,
/// and the answers to commands.
pub enum Events {
    Tick,
    Key(KeyEvent),
    Mouse(MouseEvent),
    /// Open the detail page of a manga.
    GoToMangaPage(MangaItem),
    /// Open the reader on a chapter.
    ReadChapter(ChapterPagesResponse),
    /// Leave the reader for the detail page.
    GoBackMangaPage,
    /// Return to the search page.
    GoSearchPage,
    /// The answer to the search tagged `request`.
    SearchCompleted { request: u64, mangas: Vec<MangaItem> },
    /// The chapter feed of a manga.
    ChaptersLoaded { manga_id: String, chapters: Vec<ChapterData> },
    /// The cover image of a manga.
    CoverLoaded { manga_id: String, image: Vec<u8> },
    /// The image at one position of the chapter that the reader `generation` shows.
    PageLoaded { generation: u64, position: usize, image: Vec<u8> },
    /// The chapters of a manga that were opened before, in the order they were opened.
    HistoryLoaded { manga_id: String, chapters_read: Vec<String> },
    /// A command failed.
    FetchFailed { origin: FetchOrigin, reason: ErrorKind },
}

/// The mathematical value of an `Events`.
pub enum EventsView {
    Tick,
    Key(KeyEvent),
    Mouse(MouseEvent),
    GoToMangaPage(MangaItemView),
    ReadChapter(ChapterPagesResponseView),
    GoBackMangaPage,
    GoSearchPage,
    SearchCompleted { request: u64, mangas: Seq<MangaItemView> },
    ChaptersLoaded { manga_id: Seq<char>, chapters: Seq<ChapterDataView> },
    CoverLoaded { manga_id: Seq<char>, image: Seq<u8> },
    PageLoaded { generation: u64, position: usize, image: Seq<u8> },
    HistoryLoaded { manga_id: Seq<char>, chapters_read: Seq<Seq<char>> },
    FetchFailed { origin: FetchOriginView, reason: ErrorKind },
}

impl View for Events {
    type V = EventsView;

    open spec fn view(&self) -> EventsView {
        match self {
            Events::Tick => EventsView::Tick,
            Events::Key(key) => EventsView::Key(*key),
            Events::Mouse(mouse) => EventsView::Mouse(*mouse),
            Events::GoToMangaPage(manga) => EventsView::GoToMangaPage(manga@),
            Events::ReadChapter(response) => EventsView::ReadChapter(response@),
            Events::GoBackMangaPage => EventsView::GoBackMangaPage,
            Events::GoSearchPage => EventsView::GoSearchPage,
            Events::SearchCompleted { request, mangas } => EventsView::SearchCompleted {
                request: *request,
                mangas: views(mangas@),
            },
            Events::ChaptersLoaded { manga_id, chapters } => EventsView::ChaptersLoaded {
                manga_id: manga_id@,
                chapters: views(chapters@),
            },
            Events::CoverLoaded { manga_id, image } => EventsView::CoverLoaded {
                manga_id: manga_id@,
                image: image@,
            },
            Events::PageLoaded { generation, position, image } => EventsView::PageLoaded {
                generation: *generation,
                position: *position,
                image: image@,
            },
            Events::HistoryLoaded { manga_id, chapters_read } => EventsView::HistoryLoaded {
                manga_id: manga_id@,
                chapters_read: views(chapters_read@),
            },
            Events::FetchFailed { origin, reason } => EventsView::FetchFailed {
                origin: origin@,
                reason: *reason,
            },
        }
    }
}

/// The event that carries a forwarded input.
pub open spec fn input_event(input: InputEvent) -> EventsView {
    match input {
        InputEvent::Tick => EventsView::Tick,
        InputEvent::Key(key) => EventsView::Key(key),
        InputEvent::Mouse(mouse) => EventsView::Mouse(mouse),
    }
}

/// The event that reports that `command` failed for `reason`.
pub open spec fn failure_of(command: CommandView, reason: ErrorKind) -> EventsView {
    EventsView::FetchFailed { origin: origin_of(command), reason }
}

impl Events {
    /// The event that carries a forwarded input.
    pub fn from_input(input: InputEvent) -> (event: Events)
        ensures
            event@ == input_event(input),
    {
        match input {
            InputEvent::Tick => Events::Tick,
            InputEvent::Key(key) => Events::Key(key),
            InputEvent::Mouse(mouse) => Events::Mouse(mouse),
        }
    }

    /// The event that reports that `command` failed for `reason`.
    pub fn failure(command: &Command, reason: ErrorKind) -> (event: Events)
        ensures
            event@ == failure_of(command@, reason),
    {
        Events::FetchFailed { origin: command.origin(), reason }
    }
}

/// The receiving half of tokio's unbounded channel. What waits in it is not known here: any
/// task that holds a sending half may add to it at any time.
#[verifier::external_type_specification]
#[verifier::external_body]
#[verifier::reject_recursive_types(T)]
pub struct ExUnboundedReceiver<T>(UnboundedReceiver<T>);

/// `UnboundedReceiver::try_recv` does not wait for an event to be sent; it waits at most for
/// a send that is under way to finish. It returns the oldest event that waits in the
/// channel, or an error where none waits or every sender is gone. Nothing is claimed of
/// which it is; the error becomes `None`.
#[verifier::external_body]
pub(crate) fn try_recv(events: &mut UnboundedReceiver<Events>) -> (event: Option<Events>) {
    events.try_recv().ok()
}

/// What a page hands back from one event: at most one event for the controller's queue, at
/// most one action for the controller, and the commands to start.
pub struct PageReply {
    pub event: Option<Events>,
    pub action: Option<Action>,
    pub commands: Vec<Command>,
}

/// The mathematical value of a `PageReply`.
pub struct PageReplyView {
    pub event: Option<EventsView>,
    pub action: Option<Action>,
    pub commands: Seq<CommandView>,
}

impl View for PageReply {
    type V = PageReplyView;

    open spec fn view(&self) -> PageReplyView {
        PageReplyView {
            event: view_of(self.event),
            action: self.action,
            commands: views(self.commands@),
        }
    }
}

/// The reply of a page that asks for nothing.
pub open spec fn no_reply() -> PageReplyView {
    PageReplyView { event: None, action: None, commands: Seq::empty() }
}

impl PageReply {
    /// The reply of a page that asks for nothing.
    pub fn none() -> (reply: PageReply)
        ensures
            reply@ == no_reply(),
            reply.commands@.len() == 0,
    {
        let reply = PageReply { event: None, action: None, commands: Vec::new() };
        assert(reply@.commands =~= Seq::empty());
        reply
    }
}

impl KeyEvent {
    /// A key press with the given code and modifier bits.
    pub fn new(code: KeyCode, modifiers: u8) -> (key: KeyEvent)
        ensures
            key == (KeyEvent {
                code,
                modifiers: KeyModifiers { bits: modifiers },
                kind: KeyEventKind::Press,
            }),
    {
        KeyEvent { code, modifiers: KeyModifiers { bits: modifiers }, kind: KeyEventKind::Press }
    }

    /// Whether this is the quit chord: the letter `c` with control and nothing else held.
    pub open spec fn is_quit_chord(self) -> bool {
        self.code == KeyCode::Char('c') && self.modifiers.bits == CONTROL
    }

    /// Tests for the quit chord.
    pub fn quit_chord(&self) -> (quit: bool)
        ensures
            quit == self.is_quit_chord(),
    {
        match self.code {
            KeyCode::Char(c) => c == 'c' && self.modifiers.bits == CONTROL,
            _ => false,
        }
    }
}

/// The decision of the input source for each poll result, as a function.
///
/// A tick is forwarded. A key is forwarded only when it is a press; releases and repeats are
/// dropped. Mouse events are forwarded. Other inputs are dropped. A failed read and a closed
/// stream forward nothing and make the producer wait for the next tick, so that a burst of
/// failures costs one wake-up per interval.
pub open spec fn source_step(polled: Polled) -> SourceStep {
    match polled {
        Polled::Tick => SourceStep { forward: Some(InputEvent::Tick), wait_for_tick: false },
        Polled::Input(TerminalInput::Key(key)) => SourceStep {
            forward: if key.kind == KeyEventKind::Press {
                Some(InputEvent::Key(key))
            } else {
                None
            },
            wait_for_tick: false,
        },
        Polled::Input(TerminalInput::Mouse(mouse)) => SourceStep {
            forward: Some(InputEvent::Mouse(mouse)),
            wait_for_tick: false,
        },
        Polled::Input(TerminalInput::Other) => SourceStep { forward: None, wait_for_tick: false },
        Polled::ReadError => SourceStep { forward: None, wait_for_tick: true },
        Polled::Closed => SourceStep { forward: None, wait_for_tick: true },
    }
}

/// Decides what the input source does with one poll result.
pub fn handle_events(polled: Polled) -> (step: SourceStep)
    ensures
        step == source_step(polled),
{
    match polled {
        Polled::Tick => SourceStep { forward: Some(InputEvent::Tick), wait_for_tick: false },
        Polled::Input(input) => match input {
            TerminalInput::Key(key) => match key.kind {
                KeyEventKind::Press => SourceStep {
                    forward: Some(InputEvent::Key(key)),
                    wait_for_tick: false,
                },
                _ => SourceStep { forward: None, wait_for_tick: false },
            },
            TerminalInput::Mouse(mouse) => SourceStep {
                forward: Some(InputEvent::Mouse(mouse)),
                wait_for_tick: false,
            },
            TerminalInput::Other => SourceStep { forward: None, wait_for_tick: false },
        },
        Polled::ReadError => SourceStep { forward: None, wait_for_tick: true },
        Polled::Closed => SourceStep { forward: None, wait_for_tick: true },
    }
}

/// Only presses reach the controller: whatever key event is forwarded is a press.
pub proof fn lemma_only_presses_forwarded(polled: Polled)
    ensures
        source_step(polled).forward matches Some(InputEvent::Key(key)) ==> key.kind
            == KeyEventKind::Press,
{
}

/// Nothing is forwarded after a failed read or a closed stream, and the producer then waits.
pub proof fn lemma_failures_are_swallowed(polled: Polled)
    requires
        polled == Polled::ReadError || polled == Polled::Closed,
    ensures
        source_step(polled).forward is None,
        source_step(polled).wait_for_tick,
{
}

} // verus!
