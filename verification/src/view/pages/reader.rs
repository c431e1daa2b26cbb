use crate::backend::fetch::{ChapterPagesResponse, ChapterPagesResponseView, Command, CommandView, ErrorKind};
use crate::backend::tui::{
    no_reply, Events, EventsView, InputEvent, KeyCode, KeyEvent, PageReply, PageReplyView,
};
use crate::text::{view_of, views};
use std::collections::VecDeque;
use vstd::prelude::*;

verus! {

/// How many of the first positions of a chapter are read in low fidelity.
pub const LOW_FIDELITY_PAGES: usize = 5;

/// How many positions after the one in view are fetched ahead of time.
pub const PREFETCH_WINDOW: usize = 2;

/// The two variants in which a page image is served.
#[derive(Clone, Copy, Debug, PartialEq, Eq, Structural)]
pub enum PageQuality {
    Low,
    Full,
}

/// The actions that change the reader alone.
#[derive(Clone, Copy, Debug, PartialEq, Eq, Structural)]
pub enum ReaderAction {
    NextPage,
    PreviousPage,
}

/// Where the image of one position comes from.
pub struct PageSource {
    pub quality: PageQuality,
    pub file_name: String,
}

/// The mathematical value of a `PageSource`.
pub struct PageSourceView {
    pub quality: PageQuality,
    pub file_name: Seq<char>,
}

impl View for PageSource {
    type V = PageSourceView;

    open spec fn view(&self) -> PageSourceView {
        PageSourceView { quality: self.quality, file_name: self.file_name@ }
    }
}

/// What the reader holds for one position.
pub enum PageSlot {
    /// Nothing was asked for yet.
    Missing,
    /// The image was asked for and has not arrived.
    Requested,
    /// The image, as it was served.
    Loaded(Vec<u8>),
    /// The fetch failed.
    Failed(ErrorKind),
}

/// The mathematical value of a `PageSlot`.
pub enum PageSlotView {
    Missing,
    Requested,
    Loaded(Seq<u8>),
    Failed(ErrorKind),
}

impl View for PageSlot {
    type V = PageSlotView;

    open spec fn view(&self) -> PageSlotView {
        match self {
            PageSlot::Missing => PageSlotView::Missing,
            PageSlot::Requested => PageSlotView::Requested,
            PageSlot::Loaded(image) => PageSlotView::Loaded(image@),
            PageSlot::Failed(reason) => PageSlotView::Failed(*reason),
        }
    }
}

/// How many names of a low-fidelity list of this length are used: the first five, or all of
/// them where there are fewer.
pub open spec fn low_used(low_len: nat) -> nat {
    if low_len < LOW_FIDELITY_PAGES {
        low_len
    } else {
        LOW_FIDELITY_PAGES as nat
    }
}

/// The number of positions of a chapter whose lists have these lengths: every position that
/// the full-fidelity list names, and every one of the first five that the low-fidelity list
/// names. Low-fidelity names past the fifth add no position.
pub open spec fn page_count(low_len: nat, full_len: nat) -> nat {
    if low_used(low_len) >= full_len {
        low_used(low_len)
    } else {
        full_len
    }
}

/// Whether the 1-based `position` is read in low fidelity.
///
/// The first five positions are, where the low-fidelity list names them. One of the first
/// five that the low-fidelity list does not name falls back to full fidelity. Every
/// position past the fifth is read in full fidelity: the low-fidelity names past the fifth
/// are never used.
pub open spec fn reads_low(low_len: nat, position: int) -> bool {
    position <= low_len && position <= LOW_FIDELITY_PAGES
}

/// Where the image of the 1-based `position` comes from, if the chapter has that position.
pub open spec fn page_source(low: Seq<Seq<char>>, full: Seq<Seq<char>>, position: int) -> Option<
    PageSourceView,
> {
    if 1 <= position <= page_count(low.len(), full.len()) {
        if reads_low(low.len(), position) {
            Some(PageSourceView { quality: PageQuality::Low, file_name: low[position - 1] })
        } else {
            Some(PageSourceView { quality: PageQuality::Full, file_name: full[position - 1] })
        }
    } else {
        None
    }
}

/// The directory under `base_url` that serves the pages of the chapter `hash` in `quality`.
pub open spec fn page_endpoint(base_url: Seq<char>, quality: PageQuality, hash: Seq<char>) -> Seq<
    char,
> {
    base_url + (match quality {
        PageQuality::Low => "/data-saver/"@,
        PageQuality::Full => "/data/"@,
    }) + hash
}

/// The action that a key asks of the reader.
pub open spec fn reader_key(key: KeyEvent) -> Option<ReaderAction> {
    match key.code {
        KeyCode::Down => Some(ReaderAction::NextPage),
        KeyCode::Char(c) => if c == 'j' {
            Some(ReaderAction::NextPage)
        } else if c == 'k' {
            Some(ReaderAction::PreviousPage)
        } else {
            None
        },
        KeyCode::Up => Some(ReaderAction::PreviousPage),
        _ => None,
    }
}

/// Whether a key asks to leave the reader.
pub open spec fn reader_leaves(key: KeyEvent) -> bool {
    key.code == KeyCode::Backspace
}

/// The mathematical value of a `MangaReader`.
#[verifier::ext_equal]
pub struct MangaReaderView {
    /// The tag that tells this reader from every other one that was open.
    pub generation: u64,
    pub chapter_id: Seq<char>,
    pub base_url: Seq<char>,
    pub low: Seq<Seq<char>>,
    pub full: Seq<Seq<char>>,
    /// The 1-based position in view; 0 where the chapter has no page.
    pub current: nat,
    pub slots: Seq<PageSlotView>,
    /// The actions that wait to be applied, oldest first.
    pub pending: Seq<ReaderAction>,
}

impl MangaReaderView {
    /// The number of positions.
    pub open spec fn count(self) -> nat {
        page_count(self.low.len(), self.full.len())
    }

    /// One slot per position, and the position in view is one of them.
    pub open spec fn wf(self) -> bool {
        &&& self.slots.len() == self.count()
        &&& if self.count() == 0 {
            self.current == 0
        } else {
            1 <= self.current <= self.count()
        }
    }

    /// The reader as it opens on a chapter.
    pub open spec fn opened(generation: u64, response: ChapterPagesResponseView) -> Self {
        let count = page_count(response.chapter.data_saver.len(), response.chapter.data.len());
        MangaReaderView {
            generation,
            chapter_id: response.chapter.hash,
            base_url: response.base_url,
            low: response.chapter.data_saver,
            full: response.chapter.data,
            current: if count == 0 {
                0
            } else {
                1
            },
            slots: Seq::new(count, |i: int| PageSlotView::Missing),
            pending: Seq::empty(),
        }
    }

    /// Where the image of `position` comes from.
    pub open spec fn source(self, position: int) -> Option<PageSourceView> {
        page_source(self.low, self.full, position)
    }

    /// `position` brought into the range of the chapter's positions.
    pub open spec fn clamp(self, position: int) -> nat {
        if self.count() == 0 {
            0
        } else if position < 1 {
            1
        } else if position > self.count() {
            self.count()
        } else {
            position as nat
        }
    }

    /// The position that `action` leads to.
    pub open spec fn target(self, action: ReaderAction) -> nat {
        match action {
            ReaderAction::NextPage => self.clamp(self.current as int + 1),
            ReaderAction::PreviousPage => self.clamp(self.current as int - 1),
        }
    }

    /// The reader after `action`.
    pub open spec fn moved(self, action: ReaderAction) -> Self {
        MangaReaderView { current: self.target(action), ..self }
    }

    /// The reader after the oldest waiting action, if there is one.
    pub open spec fn drained(self) -> Self {
        if self.pending.len() > 0 {
            MangaReaderView { pending: self.pending.drop_first(), ..self.moved(self.pending[0]) }
        } else {
            self
        }
    }

    /// Whether `position` lies in the window that is fetched when `from` comes into view:
    /// `from` itself and the `PREFETCH_WINDOW` positions after it.
    pub open spec fn in_window(self, from: nat, position: int) -> bool {
        1 <= position <= self.count() && from <= position <= from + PREFETCH_WINDOW
    }

    /// The command that fetches the image of `position`.
    pub open spec fn fetch(self, position: int) -> CommandView
        recommends
            1 <= position <= self.count(),
    {
        let source = self.source(position)->0;
        CommandView::ChapterPage {
            generation: self.generation,
            position: position as usize,
            endpoint: page_endpoint(self.base_url, source.quality, self.chapter_id),
            file_name: source.file_name,
        }
    }

    /// The commands for the positions of the window of `from`, up to `upto`, that nothing was
    /// asked for yet, by rising position.
    pub open spec fn window_fetches(self, from: nat, upto: int) -> Seq<CommandView>
        decreases upto,
    {
        if upto <= 0 {
            Seq::empty()
        } else {
            let before = self.window_fetches(from, upto - 1);
            if self.in_window(from, upto) && upto <= self.slots.len() && self.slots[upto - 1]
                is Missing {
                before.push(self.fetch(upto))
            } else {
                before
            }
        }
    }

    /// The commands that bring the window of `from` under way.
    pub open spec fn fetches(self, from: nat) -> Seq<CommandView> {
        self.window_fetches(from, self.count() as int)
    }

    /// The reader once the window of `from` is under way: what was missing there is asked
    /// for, and nothing else changes.
    pub open spec fn requested(self, from: nat) -> Self {
        MangaReaderView {
            slots: Seq::new(
                self.slots.len(),
                |i: int|
                    if self.in_window(from, i + 1) && self.slots[i] is Missing {
                        PageSlotView::Requested
                    } else {
                        self.slots[i]
                    },
            ),
            ..self
        }
    }

    /// The reader once `slot` was delivered for `position`; a position that the chapter does
    /// not have is ignored.
    pub open spec fn delivered(self, position: int, slot: PageSlotView) -> Self {
        if 1 <= position <= self.slots.len() {
            MangaReaderView { slots: self.slots.update(position - 1, slot), ..self }
        } else {
            self
        }
    }

    /// The reader and its reply after one input.
    ///
    /// A tick brings the window of the position in view under way. A key that turns the page
    /// queues the action and brings the window of the position it leads to under way, so
    /// that the image is asked for before the page is turned. The key that leaves asks the
    /// controller to go back. Everything else is ignored.
    pub open spec fn handled(self, input: InputEvent) -> (Self, PageReplyView) {
        match input {
            InputEvent::Tick => (
                self.requested(self.current),
                PageReplyView { commands: self.fetches(self.current), ..no_reply() },
            ),
            InputEvent::Key(key) => {
                if reader_leaves(key) {
                    (self, PageReplyView { event: Some(EventsView::GoBackMangaPage), ..no_reply() })
                } else {
                    match reader_key(key) {
                        Some(action) => {
                            let target = self.target(action);
                            (
                                MangaReaderView {
                                    pending: self.pending.push(action),
                                    ..self.requested(target)
                                },
                                PageReplyView { commands: self.fetches(target), ..no_reply() },
                            )
                        },
                        None => (self, no_reply()),
                    }
                }
            },
            InputEvent::Mouse(_) => (self, no_reply()),
        }
    }
}

/// The number of positions of a chapter whose lists have these lengths.
pub fn count_positions(low_len: usize, full_len: usize) -> (count: usize)
    ensures
        count == page_count(low_len as nat, full_len as nat),
{
    let used = if low_len < LOW_FIDELITY_PAGES {
        low_len
    } else {
        LOW_FIDELITY_PAGES
    };
    if used >= full_len {
        used
    } else {
        full_len
    }
}

/// The page that shows the images of one chapter, one position at a time.
pub struct MangaReader {
    generation: u64,
    chapter_id: String,
    base_url: String,
    low: Vec<String>,
    full: Vec<String>,
    current: usize,
    slots: Vec<PageSlot>,
    pending: VecDeque<ReaderAction>,
}

impl View for MangaReader {
    type V = MangaReaderView;

    closed spec fn view(&self) -> MangaReaderView {
        MangaReaderView {
            generation: self.generation,
            chapter_id: self.chapter_id@,
            base_url: self.base_url@,
            low: views(self.low@),
            full: views(self.full@),
            current: self.current as nat,
            slots: views(self.slots@),
            pending: self.pending@,
        }
    }
}

impl MangaReader {
    /// Opens the reader on a chapter, at its first position, with nothing fetched.
    pub fn new(generation: u64, response: ChapterPagesResponse) -> (reader: Self)
        ensures
            reader@ == MangaReaderView::opened(generation, response@),
            reader@.wf(),
    {
        let low = response.chapter.data_saver;
        let full = response.chapter.data;
        let count = count_positions(low.len(), full.len());
        let mut slots: Vec<PageSlot> = Vec::new();
        let mut filled: usize = 0;
        while filled < count
            invariant
                filled <= count,
                slots@.len() == filled,
                forall|i: int| 0 <= i < filled ==> slots@[i]@ is Missing,
            decreases count - filled,
        {
            slots.push(PageSlot::Missing);
            filled = filled + 1;
        }
        let reader = MangaReader {
            generation,
            chapter_id: response.chapter.hash,
            base_url: response.base_url,
            low,
            full,
            current: if count == 0 {
                0
            } else {
                1
            },
            slots,
            pending: VecDeque::new(),
        };
        assert(reader@.slots =~= Seq::new(count as nat, |i: int| PageSlotView::Missing));
        assert(reader@ =~= MangaReaderView::opened(generation, response@));
        reader
    }

    /// Tests that there is one slot per position and that the position in view is one of
    /// them.
    pub fn well_formed(&self) -> (holds: bool)
        ensures
            holds == self@.wf(),
    {
        let count = count_positions(self.low.len(), self.full.len());
        self.slots.len() == count && if count == 0 {
            self.current == 0
        } else {
            1 <= self.current && self.current <= count
        }
    }

    /// The tag that tells this reader from every other one that was open.
    pub fn generation(&self) -> (generation: u64)
        ensures
            generation == self@.generation,
    {
        self.generation
    }

    /// The number of positions of the chapter.
    pub fn page_count(&self) -> (count: usize)
        requires
            self@.wf(),
        ensures
            count == self@.count(),
    {
        self.slots.len()
    }

    /// The 1-based position in view; 0 where the chapter has no page.
    pub fn current_page(&self) -> (current: usize)
        ensures
            current == self@.current,
    {
        self.current
    }

    /// The number of actions that wait to be applied.
    pub fn pending_actions(&self) -> (waiting: usize)
        ensures
            waiting == self@.pending.len(),
    {
        self.pending.len()
    }

    /// Where the image of the 1-based `position` comes from: `None` where the chapter has
    /// no such position.
    pub fn resolve(&self, position: usize) -> (source: Option<PageSource>)
        requires
            self@.wf(),
        ensures
            view_of(source) == self@.source(position as int),
    {
        if position < 1 || position > self.slots.len() {
            return None;
        }
        let low_here = position <= self.low.len() && position <= LOW_FIDELITY_PAGES;
        if low_here {
            Some(PageSource { quality: PageQuality::Low, file_name: self.low[position - 1].clone() })
        } else {
            Some(
                PageSource {
                    quality: PageQuality::Full,
                    file_name: self.full[position - 1].clone(),
                },
            )
        }
    }

    /// What the reader holds for the 1-based `position`: `None` where the chapter has no
    /// such position.
    pub fn slot(&self, position: usize) -> (slot: Option<&PageSlot>)
        requires
            self@.wf(),
        ensures
            1 <= position <= self@.count() ==> slot is Some && slot->0@ == self@.slots[position
                - 1],
            !(1 <= position <= self@.count()) ==> slot is None,
    {
        if position < 1 || position > self.slots.len() {
            None
        } else {
            Some(&self.slots[position - 1])
        }
    }

    fn clamp_next(&self) -> (target: usize)
        requires
            self@.wf(),
        ensures
            target == self@.target(ReaderAction::NextPage),
    {
        if self.current < self.slots.len() {
            self.current + 1
        } else {
            self.current
        }
    }

    fn clamp_previous(&self) -> (target: usize)
        requires
            self@.wf(),
        ensures
            target == self@.target(ReaderAction::PreviousPage),
    {
        if self.current > 1 {
            self.current - 1
        } else {
            self.current
        }
    }

    /// Applies one action: turns to the next or the previous position, and stays at the
    /// first and at the last.
    pub fn update(&mut self, action: ReaderAction)
        requires
            old(self)@.wf(),
        ensures
            final(self)@ == old(self)@.moved(action),
            final(self)@.wf(),
    {
        let target = match action {
            ReaderAction::NextPage => self.clamp_next(),
            ReaderAction::PreviousPage => self.clamp_previous(),
        };
        self.current = target;
    }

    /// Applies the oldest waiting action, if there is one. Says whether there was one.
    pub fn update_pending(&mut self) -> (applied: bool)
        requires
            old(self)@.wf(),
        ensures
            final(self)@ == old(self)@.drained(),
            final(self)@.wf(),
            applied == (old(self)@.pending.len() > 0),
    {
        match self.pending.pop_front() {
            Some(action) => {
                self.update(action);
                assert(self@.pending =~= old(self)@.pending.drop_first());
                true
            },
            None => false,
        }
    }

    fn fetch_command(&self, position: usize) -> (command: Command)
        requires
            self@.wf(),
            1 <= position <= self@.count(),
        ensures
            command@ == self@.fetch(position as int),
    {
        let low_here = position <= self.low.len() && position <= LOW_FIDELITY_PAGES;
        let mut endpoint = self.base_url.clone();
        let file_name = if low_here {
            endpoint.append("/data-saver/");
            self.low[position - 1].clone()
        } else {
            endpoint.append("/data/");
            self.full[position - 1].clone()
        };
        endpoint.append(self.chapter_id.as_str());
        Command::ChapterPage { generation: self.generation, position, endpoint, file_name }
    }

    /// Brings the window of `from` under way: asks for the image of `from` and of the
    /// `PREFETCH_WINDOW` positions after it, wherever nothing was asked for yet, and returns
    /// the commands, by rising position.
    pub fn request_window(&mut self, from: usize) -> (commands: Vec<Command>)
        requires
            old(self)@.wf(),
        ensures
            final(self)@ == old(self)@.requested(from as nat),
            final(self)@.wf(),
            views(commands@) == old(self)@.fetches(from as nat),
    {
        let count = self.slots.len();
        let mut commands: Vec<Command> = Vec::new();
        let mut position: usize = 0;
        proof {
            assert(views(commands@) =~= self@.window_fetches(from as nat, 0));
            assert(self@.slots =~= old(self)@.slots);
        }
        while position < count
            invariant
                position <= count,
                count == old(self)@.count(),
                old(self)@.wf(),
                self@.wf(),
                self@ == (MangaReaderView { slots: self@.slots, ..old(self)@ }),
                self@.slots.len() == count,
                forall|i: int|
                    0 <= i < position ==> self@.slots[i] == old(self)@.requested(
                        from as nat,
                    ).slots[i],
                forall|i: int| position <= i < count ==> self@.slots[i] == old(self)@.slots[i],
                views(commands@) == old(self)@.window_fetches(from as nat, position as int),
            decreases count - position,
        {
            position = position + 1;
            let in_window = from <= position && position - from <= PREFETCH_WINDOW;
            let missing = match &self.slots[position - 1] {
                PageSlot::Missing => true,
                _ => false,
            };
            let ghost before = views(commands@);
            let ghost slots_before = self@.slots;
            assert(missing == (old(self)@.slots[position - 1] is Missing));
            if in_window && missing {
                let command = self.fetch_command(position);
                proof {
                    assert(command@ == old(self)@.fetch(position as int));
                }
                commands.push(command);
                self.slots.set(position - 1, PageSlot::Requested);
                assert(views(commands@) =~= before.push(command@));
                assert(self@.slots =~= slots_before.update(
                    position - 1,
                    PageSlotView::Requested,
                ));
            }
            proof {
                assert(old(self)@.in_window(from as nat, position as int) == in_window);
                assert(self@.slots[position - 1] == old(self)@.requested(
                    from as nat,
                ).slots[position - 1]);
                assert(views(commands@) == old(self)@.window_fetches(
                    from as nat,
                    position as int,
                ));
            }
        }
        assert(self@.slots =~= old(self)@.requested(from as nat).slots);
        commands
    }

    /// Puts what arrived for the 1-based `position` into its slot. A position that the
    /// chapter does not have is ignored.
    pub fn deliver(&mut self, position: usize, slot: PageSlot)
        requires
            old(self)@.wf(),
        ensures
            final(self)@ == old(self)@.delivered(position as int, slot@),
            final(self)@.wf(),
    {
        if 1 <= position && position <= self.slots.len() {
            self.slots.set(position - 1, slot);
            assert(self@.slots =~= old(self)@.slots.update(position - 1, slot@));
        }
    }

    /// Takes the image that was served for the 1-based `position`.
    pub fn page_loaded(&mut self, position: usize, image: Vec<u8>)
        requires
            old(self)@.wf(),
        ensures
            final(self)@ == old(self)@.delivered(position as int, PageSlotView::Loaded(image@)),
            final(self)@.wf(),
    {
        self.deliver(position, PageSlot::Loaded(image));
    }

    /// Records that the fetch for the 1-based `position` failed.
    pub fn page_failed(&mut self, position: usize, reason: ErrorKind)
        requires
            old(self)@.wf(),
        ensures
            final(self)@ == old(self)@.delivered(position as int, PageSlotView::Failed(reason)),
            final(self)@.wf(),
    {
        self.deliver(position, PageSlot::Failed(reason));
    }

    /// Takes one input and says what the controller is to do about it.
    pub fn handle_events(&mut self, input: InputEvent) -> (reply: PageReply)
        requires
            old(self)@.wf(),
        ensures
            (final(self)@, reply@) == old(self)@.handled(input),
            final(self)@.wf(),
    {
        match input {
            InputEvent::Tick => {
                let commands = self.request_window(self.current);
                PageReply { event: None, action: None, commands }
            },
            InputEvent::Key(key) => {
                let action = match key.code {
                    KeyCode::Backspace => {
                        let reply = PageReply {
                            event: Some(Events::GoBackMangaPage),
                            action: None,
                            commands: Vec::new(),
                        };
                        assert(reply@.commands =~= Seq::empty());
                        return reply;
                    },
                    KeyCode::Down => Some(ReaderAction::NextPage),
                    KeyCode::Up => Some(ReaderAction::PreviousPage),
                    KeyCode::Char(c) => if c == 'j' {
                        Some(ReaderAction::NextPage)
                    } else if c == 'k' {
                        Some(ReaderAction::PreviousPage)
                    } else {
                        None
                    },
                    _ => None,
                };
                match action {
                    Some(action) => {
                        let target = match action {
                            ReaderAction::NextPage => self.clamp_next(),
                            ReaderAction::PreviousPage => self.clamp_previous(),
                        };
                        let commands = self.request_window(target);
                        self.pending.push_back(action);
                        PageReply { event: None, action: None, commands }
                    },
                    None => PageReply::none(),
                }
            },
            InputEvent::Mouse(_) => PageReply::none(),
        }
    }
}

/// Every position of the chapter has a source, and nothing else has.
pub proof fn lemma_positions_resolve(low: Seq<Seq<char>>, full: Seq<Seq<char>>, position: int)
    ensures
        page_source(low, full, position) is Some <==> 1 <= position <= page_count(
            low.len(),
            full.len(),
        ),
{
}

/// Where each list has five names or more, the chapter has as many positions as the
/// full-fidelity list has names, whatever the length of the low-fidelity list: the first
/// five are read from the first five low-fidelity names and every other one from the
/// full-fidelity name of its position.
pub proof fn lemma_first_five_low_then_full(
    low: Seq<Seq<char>>,
    full: Seq<Seq<char>>,
    position: int,
)
    requires
        low.len() >= 5,
        full.len() >= 5,
    ensures
        page_count(low.len(), full.len()) == full.len(),
        1 <= position <= 5 ==> page_source(low, full, position) == Some(
            PageSourceView { quality: PageQuality::Low, file_name: low[position - 1] },
        ),
        5 < position <= full.len() ==> page_source(low, full, position) == Some(
            PageSourceView { quality: PageQuality::Full, file_name: full[position - 1] },
        ),
        position > full.len() ==> page_source(low, full, position) is None,
{
}

/// No low-fidelity name past the fifth is ever used, and no position past the fifth is
/// read in low fidelity, whatever the lengths of the lists.
pub proof fn lemma_low_names_past_the_fifth_unused(
    low: Seq<Seq<char>>,
    full: Seq<Seq<char>>,
    position: int,
)
    requires
        position > 5,
    ensures
        page_source(low, full, position) matches Some(source) ==> source.quality
            == PageQuality::Full && source.file_name == full[position - 1] && position
            <= full.len(),
{
}

/// One of the first five positions that the low-fidelity list does not name is read in
/// full fidelity, and one that the full-fidelity list does not name is read in low fidelity.
pub proof fn lemma_fallback(low: Seq<Seq<char>>, full: Seq<Seq<char>>, position: int)
    requires
        1 <= position <= page_count(low.len(), full.len()),
    ensures
        position > low.len() ==> page_source(low, full, position) == Some(
            PageSourceView { quality: PageQuality::Full, file_name: full[position - 1] },
        ),
        position > full.len() ==> position <= 5 && page_source(low, full, position) == Some(
            PageSourceView { quality: PageQuality::Low, file_name: low[position - 1] },
        ),
{
}

/// A reader opens with one position for each full-fidelity name, where each list has five
/// names or more, and reads them as `lemma_first_five_low_then_full` says.
pub proof fn lemma_opened_on_full_positions(
    generation: u64,
    response: ChapterPagesResponseView,
    position: int,
)
    requires
        response.chapter.data_saver.len() >= 5,
        response.chapter.data.len() >= 5,
    ensures
        MangaReaderView::opened(generation, response).count() == response.chapter.data.len(),
        MangaReaderView::opened(generation, response).wf(),
        MangaReaderView::opened(generation, response).current == 1,
        1 <= position <= 5 ==> MangaReaderView::opened(generation, response).source(position)
            == Some(
            PageSourceView {
                quality: PageQuality::Low,
                file_name: response.chapter.data_saver[position - 1],
            },
        ),
        5 < position <= response.chapter.data.len() ==> MangaReaderView::opened(
            generation,
            response,
        ).source(position) == Some(
            PageSourceView {
                quality: PageQuality::Full,
                file_name: response.chapter.data[position - 1],
            },
        ),
{
}

/// Turning the page moves the position by at most one and keeps it among the positions of
/// the chapter.
pub proof fn lemma_turning_stays_in_range(reader: MangaReaderView, action: ReaderAction)
    requires
        reader.wf(),
    ensures
        reader.moved(action).wf(),
        reader.count() > 0 ==> 1 <= reader.target(action) <= reader.count(),
        reader.target(action) - reader.current <= 1,
        reader.current - reader.target(action) <= 1,
        reader.moved(action).slots == reader.slots,
{
}

/// The commands of the window of `from`, up to `upto`, are at most one for each position
/// of the window that is not past `upto`.
pub proof fn lemma_window_fetches_bounded(reader: MangaReaderView, from: nat, upto: int)
    ensures
        reader.window_fetches(from, upto).len() <= (if upto < from {
            0
        } else if upto > from + PREFETCH_WINDOW {
            PREFETCH_WINDOW + 1
        } else {
            upto - from + 1
        }),
    decreases upto,
{
    if upto > 0 {
        lemma_window_fetches_bounded(reader, from, upto - 1);
    }
}

/// Bringing a window under way starts at most `PREFETCH_WINDOW + 1` fetches.
pub proof fn lemma_fetches_bounded(reader: MangaReaderView, from: nat)
    ensures
        reader.fetches(from).len() <= PREFETCH_WINDOW + 1,
{
    lemma_window_fetches_bounded(reader, from, reader.count() as int);
}

/// Every command of a window fetches a position of that window for this reader.
pub proof fn lemma_window_fetches_are_in_window(
    reader: MangaReaderView,
    from: nat,
    upto: int,
    i: int,
)
    requires
        0 <= i < reader.window_fetches(from, upto).len(),
    ensures
        exists|position: int|
            reader.in_window(from, position) && position <= upto && reader.slots[position - 1]
                is Missing && #[trigger] reader.fetch(position) == reader.window_fetches(
                from,
                upto,
            )[i],
    decreases upto,
{
    if upto > 0 {
        let before = reader.window_fetches(from, upto - 1);
        if i < before.len() {
            lemma_window_fetches_are_in_window(reader, from, upto - 1, i);
            let position = choose|position: int|
                reader.in_window(from, position) && position <= upto - 1
                    && reader.slots[position - 1] is Missing && #[trigger] reader.fetch(position)
                    == before[i];
            assert(reader.fetch(position) == reader.window_fetches(from, upto)[i]);
        } else {
            assert(reader.fetch(upto) == reader.window_fetches(from, upto)[i]);
        }
    }
}

/// Once a window is under way, nothing is missing in it, and a second request for it
/// starts nothing.
pub proof fn lemma_window_requested_once(reader: MangaReaderView, from: nat)
    requires
        reader.wf(),
    ensures
        reader.requested(from).wf(),
        forall|position: int|
            reader.in_window(from, position) ==> !(#[trigger] reader.requested(
                from,
            ).slots[position - 1] is Missing),
        reader.requested(from).fetches(from).len() == 0,
{
    lemma_no_fetch_without_missing(reader.requested(from), from, reader.count() as int);
}

/// A window in which nothing is missing starts no fetch.
pub proof fn lemma_no_fetch_without_missing(reader: MangaReaderView, from: nat, upto: int)
    requires
        forall|position: int|
            reader.in_window(from, position) && position <= reader.slots.len() ==> !(
            #[trigger] reader.slots[position - 1] is Missing),
    ensures
        reader.window_fetches(from, upto).len() == 0,
    decreases upto,
{
    if upto > 0 {
        lemma_no_fetch_without_missing(reader, from, upto - 1);
    }
}

} // verus!
