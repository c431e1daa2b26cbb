use crate::backend::fetch::{ChapterPagesResponseView, ErrorKind, FetchOriginView};
use crate::backend::tui::{Action, EventsView, InputEvent, KeyEvent};
use crate::view::app::{AppState, AppView};
use crate::view::pages::reader::{lemma_opened_on_full_positions, PageQuality, PageSourceView};
use crate::view::pages::search::InputMode;
use crate::view::pages::SelectedTabs;
use vstd::prelude::*;

verus! {

/// Whether an event asks the controller to go to another page.
pub open spec fn is_navigation(event: EventsView) -> bool {
    event is GoToMangaPage || event is ReadChapter || event is GoBackMangaPage
        || event is GoSearchPage
}

/// The controller after it handled `events` one after the other.
pub open spec fn handled_all(app: AppView, events: Seq<EventsView>) -> AppView
    decreases events.len(),
{
    if events.len() == 0 {
        app
    } else {
        handled_all(app, events.drop_last()).handled(events.last())
    }
}

/// Handling an event keeps the controller well formed: whatever the event, the page of the
/// tab in view is there afterwards.
pub proof fn lemma_handled_keeps_wf(app: AppView, event: EventsView)
    requires
        app.wf(),
    ensures
        app.handled(event).wf(),
{
    match event {
        EventsView::Tick => {
            lemma_routed_keeps_wf(app, InputEvent::Tick);
        },
        EventsView::Key(key) => {
            let queued = AppView {
                global_actions: if app.quits_on(key) {
                    app.global_actions.push(Action::Quit)
                } else {
                    app.global_actions
                },
                ..app
            };
            lemma_routed_keeps_wf(queued, InputEvent::Key(key));
        },
        EventsView::Mouse(mouse) => {
            lemma_routed_keeps_wf(app, InputEvent::Mouse(mouse));
        },
        _ => {},
    }
}

/// Handing an input to the page in view keeps the controller well formed.
pub proof fn lemma_routed_keeps_wf(app: AppView, input: InputEvent)
    requires
        app.wf(),
    ensures
        app.routed(input).wf(),
{
}

/// Applying an action keeps the controller well formed.
pub proof fn lemma_updated_keeps_wf(app: AppView, action: Action)
    requires
        app.wf(),
    ensures
        app.updated(action).wf(),
{
}

/// A turn of the loop keeps the controller well formed.
pub proof fn lemma_ticked_keeps_wf(app: AppView)
    requires
        app.wf(),
    ensures
        app.ticked().wf(),
{
    if app.state != AppState::Done {
        let popped = AppView { global_events: app.global_events.drop_first(), ..app };
        if app.global_events.len() > 0 {
            lemma_handled_keeps_wf(popped, app.global_events[0]);
        }
        let after_event = app.event_step();
        let unqueued = AppView {
            global_actions: after_event.global_actions.drop_first(),
            ..after_event
        };
        if after_event.global_actions.len() > 0 {
            lemma_updated_keeps_wf(unqueued, after_event.global_actions[0]);
        }
    }
}

/// Through any sequence of events the controller stays well formed: one tab is in view,
/// and its page is there.
pub proof fn lemma_handled_all_keeps_wf(app: AppView, events: Seq<EventsView>)
    requires
        app.wf(),
    ensures
        handled_all(app, events).wf(),
    decreases events.len(),
{
    if events.len() > 0 {
        lemma_handled_all_keeps_wf(app, events.drop_last());
        lemma_handled_keeps_wf(handled_all(app, events.drop_last()), events.last());
    }
}

/// Navigation never touches the search page: through any sequence of navigation events it
/// keeps the state it had.
pub proof fn lemma_navigation_keeps_search_page(app: AppView, events: Seq<EventsView>)
    requires
        forall|i: int| 0 <= i < events.len() ==> is_navigation(#[trigger] events[i]),
    ensures
        handled_all(app, events).search_page == app.search_page,
    decreases events.len(),
{
    if events.len() > 0 {
        lemma_navigation_keeps_search_page(app, events.drop_last());
        assert(is_navigation(events[events.len() - 1]));
    }
}

/// Opening the reader and going back leaves the detail page as it was, and in view.
pub proof fn lemma_detail_page_kept_across_reader(app: AppView, response: ChapterPagesResponseView)
    requires
        app.manga_page is Some,
    ensures
        app.handled(EventsView::ReadChapter(response)).manga_page == app.manga_page,
        app.handled(EventsView::ReadChapter(response)).handled(
            EventsView::GoBackMangaPage,
        ).manga_page == app.manga_page,
        app.handled(EventsView::ReadChapter(response)).handled(
            EventsView::GoBackMangaPage,
        ).current_tab == SelectedTabs::MangaTab,
{
}

/// `ReadChapter` brings a reader into view that has one position for each full-fidelity
/// name, where each list has five names or more: the first five positions are read from
/// the first five low-fidelity names, every other one from the full-fidelity name of its
/// position, and no other name is used.
pub proof fn lemma_read_chapter_opens_every_full_position(
    app: AppView,
    response: ChapterPagesResponseView,
    position: int,
)
    requires
        response.chapter.data_saver.len() >= 5,
        response.chapter.data.len() >= 5,
    ensures
        app.handled(EventsView::ReadChapter(response)).current_tab == SelectedTabs::ReaderTab,
        app.handled(EventsView::ReadChapter(response)).manga_reader_page is Some,
        app.handled(EventsView::ReadChapter(response)).manga_reader_page->0.count()
            == response.chapter.data.len(),
        1 <= position <= 5 ==> app.handled(
            EventsView::ReadChapter(response),
        ).manga_reader_page->0.source(position) == Some(
            PageSourceView {
                quality: PageQuality::Low,
                file_name: response.chapter.data_saver[position - 1],
            },
        ),
        5 < position <= response.chapter.data.len() ==> app.handled(
            EventsView::ReadChapter(response),
        ).manga_reader_page->0.source(position) == Some(
            PageSourceView {
                quality: PageQuality::Full,
                file_name: response.chapter.data[position - 1],
            },
        ),
        !(1 <= position <= response.chapter.data.len()) ==> app.handled(
            EventsView::ReadChapter(response),
        ).manga_reader_page->0.source(position) is None,
{
    lemma_opened_on_full_positions(app.next_generation, response, position);
}

/// Cycling through the tabs destroys no page and changes none.
pub proof fn lemma_tab_cycle_keeps_pages(app: AppView, action: Action)
    requires
        action == Action::NextTab || action == Action::PreviousTab,
    ensures
        app.updated(action) == (AppView {
            current_tab: app.updated(action).current_tab,
            ..app
        }),
{
}

/// `NextTab` and `PreviousTab` never bring the reader into view, and bring only a tab into
/// view whose page is there: from the search tab and the detail tab they lead to the search
/// tab or, while a detail page is there, to the detail tab.
pub proof fn lemma_tab_cycle_never_selects_reader(app: AppView, action: Action)
    requires
        app.wf(),
        action == Action::NextTab || action == Action::PreviousTab,
    ensures
        app.current_tab != SelectedTabs::ReaderTab ==> app.updated(action).current_tab
            != SelectedTabs::ReaderTab,
        app.updated(action).current_tab == SelectedTabs::MangaTab ==> app.manga_page is Some,
        app.updated(action).current_tab == SelectedTabs::ReaderTab ==> app.current_tab
            == SelectedTabs::ReaderTab,
{
}

/// The reader comes into view by `ReadChapter` alone: no other event and no action brings
/// it into view from another tab.
pub proof fn lemma_reader_reached_by_read_chapter_alone(
    app: AppView,
    event: EventsView,
    action: Action,
)
    requires
        app.current_tab != SelectedTabs::ReaderTab,
    ensures
        app.handled(event).current_tab == SelectedTabs::ReaderTab ==> event is ReadChapter,
        app.updated(action).current_tab != SelectedTabs::ReaderTab,
        app.page_updated().current_tab != SelectedTabs::ReaderTab,
{
}

/// `Quit` ends the loop from any tab.
pub proof fn lemma_quit_is_done(app: AppView)
    ensures
        app.updated(Action::Quit).state == AppState::Done,
{
}

/// A `Quit` at the head of the queue of actions ends the loop within the turn.
pub proof fn lemma_quit_ends_within_one_tick(app: AppView)
    requires
        app.global_actions.len() > 0,
        app.global_actions[0] == Action::Quit,
    ensures
        app.ticked().state == AppState::Done,
{
    if app.state != AppState::Done {
        let after_event = app.event_step();
        assert(after_event.global_actions.len() > 0 && after_event.global_actions[0]
            == Action::Quit);
    }
}

/// The quit chord ends the loop within the turn that handles it, when no other action
/// waits and the search page is not taking text.
pub proof fn lemma_quit_chord_ends_within_one_tick(app: AppView, key: KeyEvent)
    requires
        app.global_events.len() > 0,
        app.global_events[0] == EventsView::Key(key),
        key.is_quit_chord(),
        app.search_page.input_mode != InputMode::Typing,
        app.global_actions.len() == 0,
    ensures
        app.ticked().state == AppState::Done,
{
    if app.state != AppState::Done {
        let after_event = app.event_step();
        assert(after_event.global_actions[0] == Action::Quit);
    }
}

/// A turn with nothing waiting goes straight to the page in view: no event is handled and
/// no action of the controller is applied.
pub proof fn lemma_idle_tick(app: AppView)
    requires
        app.state == AppState::Runnning,
        app.global_events.len() == 0,
        app.global_actions.len() == 0,
    ensures
        app.ticked() == app.page_updated(),
{
}

/// A turn handles at most one event and applies at most one action: of what waits, all but
/// the oldest still waits afterwards, in its order, and whatever the turn itself queued
/// stands behind it. With no event waiting, the turn queues none.
pub proof fn lemma_tick_takes_one_of_each(app: AppView)
    requires
        app.state == AppState::Runnning,
    ensures
        app.global_events.len() > 0 ==> app.global_events.drop_first().is_prefix_of(
            app.ticked().global_events,
        ),
        app.global_events.len() == 0 ==> app.ticked().global_events == app.global_events,
        app.global_actions.len() > 0 ==> app.global_actions.drop_first().is_prefix_of(
            app.ticked().global_actions,
        ),
        app.global_events.len() == 0 && app.global_actions.len() > 0 ==> app.ticked().global_actions
            == app.global_actions.drop_first(),
        app.global_events.len() == 0 && app.global_actions.len() == 0
            ==> app.ticked().global_actions == app.global_actions,
{
    let popped = AppView { global_events: app.global_events.drop_first(), ..app };
    if app.global_events.len() > 0 {
        lemma_handled_queues_behind(popped, app.global_events[0]);
    }
    let after_event = app.event_step();
    assert(after_event.action_step().global_events == after_event.global_events);
    assert(app.ticked().global_events == after_event.global_events);
    assert(app.ticked().global_actions == after_event.action_step().global_actions);
    if app.global_actions.len() > 0 {
        assert(app.global_actions.is_prefix_of(after_event.global_actions));
        assert(after_event.action_step().global_actions
            == after_event.global_actions.drop_first());
        assert(app.global_actions.drop_first().is_prefix_of(
            after_event.global_actions.drop_first(),
        ));
    }
}

/// Handling an event takes nothing out of the queues: what waited still waits, in its
/// order, and what the event queued stands behind it.
pub proof fn lemma_handled_queues_behind(app: AppView, event: EventsView)
    ensures
        app.global_events.is_prefix_of(app.handled(event).global_events),
        app.global_actions.is_prefix_of(app.handled(event).global_actions),
        app.commands.is_prefix_of(app.handled(event).commands),
{
    match event {
        EventsView::Tick => {
            lemma_routed_queues_behind(app, InputEvent::Tick);
        },
        EventsView::Key(key) => {
            let queued = AppView {
                global_actions: if app.quits_on(key) {
                    app.global_actions.push(Action::Quit)
                } else {
                    app.global_actions
                },
                ..app
            };
            lemma_routed_queues_behind(queued, InputEvent::Key(key));
            assert(app.global_actions.is_prefix_of(queued.global_actions));
        },
        EventsView::Mouse(mouse) => {
            lemma_routed_queues_behind(app, InputEvent::Mouse(mouse));
        },
        _ => {},
    }
}

/// Handing an input to the page in view takes nothing out of the queues.
pub proof fn lemma_routed_queues_behind(app: AppView, input: InputEvent)
    ensures
        app.global_events.is_prefix_of(app.routed(input).global_events),
        app.global_actions.is_prefix_of(app.routed(input).global_actions),
        app.commands.is_prefix_of(app.routed(input).commands),
{
}

/// No event reaches a page that is not in view. Whatever the event, the search page is
/// unchanged while another tab is in view; the detail page is unchanged while another tab
/// is in view, unless the event opens a detail page or returns to the search page; and the
/// reader is unchanged while another tab is in view, unless the event opens a reader, goes
/// back or returns to the search page.
pub proof fn lemma_events_reach_the_page_in_view_alone(app: AppView, event: EventsView)
    ensures
        app.current_tab != SelectedTabs::Search ==> app.handled(event).search_page
            == app.search_page,
        app.current_tab != SelectedTabs::MangaTab && !(event is GoToMangaPage) && !(event
            is GoSearchPage) ==> app.handled(event).manga_page == app.manga_page,
        app.current_tab != SelectedTabs::ReaderTab && !(event is ReadChapter) && !(event
            is GoBackMangaPage) && !(event is GoSearchPage) ==> app.handled(
            event,
        ).manga_reader_page == app.manga_reader_page,
{
}

/// An answer, or its failure, changes no queue and no page but the one in view, and starts
/// no command: it only fills the page that asked.
pub proof fn lemma_answers_fill_the_page_in_view(app: AppView, event: EventsView)
    requires
        event is SearchCompleted || event is ChaptersLoaded || event is CoverLoaded || event
            is PageLoaded || event is HistoryLoaded || event is FetchFailed,
    ensures
        app.handled(event).current_tab == app.current_tab,
        app.handled(event).state == app.state,
        app.handled(event).global_events == app.global_events,
        app.handled(event).global_actions == app.global_actions,
        app.handled(event).commands == app.commands,
        app.current_tab != SelectedTabs::Search ==> app.handled(event).search_page
            == app.search_page,
        app.current_tab != SelectedTabs::MangaTab ==> app.handled(event).manga_page
            == app.manga_page,
        app.current_tab != SelectedTabs::ReaderTab ==> app.handled(event).manga_reader_page
            == app.manga_reader_page,
{
}

/// The search page is starved while it is out of view: a turn that starts and ends with
/// another tab in view leaves its state and its waiting actions as they were.
pub proof fn lemma_search_page_starved_out_of_view(app: AppView)
    requires
        app.current_tab != SelectedTabs::Search,
        app.ticked().current_tab != SelectedTabs::Search,
    ensures
        app.ticked().search_page == app.search_page,
{
    if app.state != AppState::Done {
        let popped = AppView { global_events: app.global_events.drop_first(), ..app };
        if app.global_events.len() > 0 {
            lemma_events_reach_the_page_in_view_alone(popped, app.global_events[0]);
        }
        let after_event = app.event_step();
        assert(after_event.search_page == app.search_page);
        assert(after_event.action_step().search_page == after_event.search_page);
        if after_event.current_tab == SelectedTabs::Search {
            assert(after_event.manga_page is None);
            assert(after_event.action_step().current_tab == SelectedTabs::Search);
        }
    }
}

/// The detail page is starved while it is out of view: a turn during which the detail tab
/// never comes into view leaves the detail page as it was, or destroys it.
pub proof fn lemma_detail_page_starved_out_of_view(app: AppView)
    requires
        app.current_tab != SelectedTabs::MangaTab,
        app.event_step().current_tab != SelectedTabs::MangaTab,
        app.ticked().current_tab != SelectedTabs::MangaTab,
    ensures
        app.ticked().manga_page == app.manga_page || app.ticked().manga_page is None,
{
    if app.state != AppState::Done {
        let popped = AppView { global_events: app.global_events.drop_first(), ..app };
        if app.global_events.len() > 0 {
            lemma_events_reach_the_page_in_view_alone(popped, app.global_events[0]);
        }
    }
}

/// The reader is starved while it is out of view: a turn during which the reader tab never
/// comes into view leaves the reader as it was, or destroys it.
pub proof fn lemma_reader_starved_out_of_view(app: AppView)
    requires
        app.current_tab != SelectedTabs::ReaderTab,
        app.ticked().current_tab != SelectedTabs::ReaderTab,
    ensures
        app.ticked().manga_reader_page == app.manga_reader_page || app.ticked().manga_reader_page
            is None,
{
    if app.state != AppState::Done {
        let popped = AppView { global_events: app.global_events.drop_first(), ..app };
        if app.global_events.len() > 0 {
            lemma_events_reach_the_page_in_view_alone(popped, app.global_events[0]);
        }
    }
}

/// `Done` is final: a controller that is done stays done, and a turn of the loop changes
/// nothing in it.
pub proof fn lemma_done_is_final(app: AppView, event: EventsView, action: Action)
    requires
        app.state == AppState::Done,
    ensures
        app.handled(event).state == AppState::Done,
        app.updated(action).state == AppState::Done,
        app.ticked() == app,
{
}

/// A stale result is dropped: handling it changes nothing at all, in no page and in no
/// queue.
pub proof fn lemma_stale_result_changes_nothing(app: AppView, event: EventsView)
    requires
        app.stale(event),
    ensures
        app.handled(event) == app,
{
}

/// A result for a reader that is no longer there is dropped: where no reader is there, or
/// the one that is there carries another tag, a page image and a page failure change
/// nothing at all.
pub proof fn lemma_stale_page_result_changes_nothing(
    app: AppView,
    generation: u64,
    position: usize,
    image: Seq<u8>,
    reason: ErrorKind,
)
    requires
        app.manga_reader_page matches Some(reader) ==> reader.generation != generation,
    ensures
        app.handled(EventsView::PageLoaded { generation, position, image }) == app,
        app.handled(
            EventsView::FetchFailed {
                origin: FetchOriginView::Page { generation, position },
                reason,
            },
        ) == app,
{
}

/// Once the reader is left, whatever arrives for it changes nothing.
pub proof fn lemma_left_reader_takes_no_result(
    app: AppView,
    generation: u64,
    position: usize,
    image: Seq<u8>,
)
    ensures
        app.went_back().handled(EventsView::PageLoaded { generation, position, image })
            == app.went_back(),
        app.search_shown().handled(EventsView::PageLoaded { generation, position, image })
            == app.search_shown(),
{
}

/// A reader that replaces another carries another tag, so that what arrives for the one
/// that was replaced changes nothing.
pub proof fn lemma_replaced_reader_takes_no_result(
    app: AppView,
    response: ChapterPagesResponseView,
    position: usize,
    image: Seq<u8>,
)
    requires
        app.wf(),
        app.manga_reader_page is Some,
    ensures
        app.reader_opened(response).manga_reader_page->0.generation
            != app.manga_reader_page->0.generation,
        app.reader_opened(response).handled(
            EventsView::PageLoaded {
                generation: app.manga_reader_page->0.generation,
                position,
                image,
            },
        ) == app.reader_opened(response),
{
}

/// The pages that are not in view are starved: a turn's last step changes the page in view
/// alone.
pub proof fn lemma_pages_out_of_view_keep_their_actions(app: AppView)
    ensures
        app.current_tab != SelectedTabs::Search ==> app.page_updated().search_page
            == app.search_page,
        app.current_tab != SelectedTabs::MangaTab ==> app.page_updated().manga_page
            == app.manga_page,
        app.current_tab != SelectedTabs::ReaderTab ==> app.page_updated().manga_reader_page
            == app.manga_reader_page,
{
}

} // verus!
