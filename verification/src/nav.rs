//! One move of the reader, step by step: what to ask of the outside world
//! next, and what to make of its answer.

use vstd::prelude::*;

use crate::date::{parsed, PageIdentifier};
use crate::structs::{
    cache_file, cache_path, fetched, is_cached, Cached, Config, ConfigView, GirlGeniusPage,
    PageView,
};
use crate::ui::{Error, Message, MessageView, Task, UiPage, UiPageView};
use crate::parse_gg_string_for_date;

verus! {

/// Where a move leads.
#[derive(Clone, Copy, Debug, PartialEq, Eq, Structural)]
pub enum Direction {
    /// To the page of the stored position.
    Stay,
    /// To the page after it.
    Forward,
    /// To the page before it.
    Backward,
}

/// How a move ended.
#[derive(Debug, PartialEq, Eq)]
pub enum Outcome {
    /// The page that the move led to, ready to be shown.
    Page(UiPage),
    /// There is no page after; the reader stays on the page given.
    EndOfSeries(UiPage),
    /// There is no page before; the reader stays on the page given.
    StartOfSeries(UiPage),
    /// The move failed.
    Failed(Error),
}

/// An `Outcome` as plain values.
pub enum OutcomeView {
    Page(UiPageView),
    EndOfSeries(UiPageView),
    StartOfSeries(UiPageView),
    Failed(Error),
}

impl View for Outcome {
    type V = OutcomeView;

    open spec fn view(&self) -> OutcomeView {
        match self {
            Outcome::Page(page) => OutcomeView::Page(page@),
            Outcome::EndOfSeries(page) => OutcomeView::EndOfSeries(page@),
            Outcome::StartOfSeries(page) => OutcomeView::StartOfSeries(page@),
            Outcome::Failed(e) => OutcomeView::Failed(*e),
        }
    }
}

impl Clone for Outcome {
    fn clone(&self) -> (r: Self)
        ensures
            r == *self,
    {
        match self {
            Outcome::Page(page) => Outcome::Page(page.clone()),
            Outcome::EndOfSeries(page) => Outcome::EndOfSeries(page.clone()),
            Outcome::StartOfSeries(page) => Outcome::StartOfSeries(page.clone()),
            Outcome::Failed(e) => Outcome::Failed(*e),
        }
    }
}

impl OutcomeView {
    /// What the window is told: the page on which the reader is now, or the error.
    pub open spec fn message(self) -> MessageView {
        match self {
            OutcomeView::Page(page) => MessageView::Loaded(Ok(page)),
            OutcomeView::EndOfSeries(page) => MessageView::Loaded(Ok(page)),
            OutcomeView::StartOfSeries(page) => MessageView::Loaded(Ok(page)),
            OutcomeView::Failed(e) => MessageView::Loaded(Err(e)),
        }
    }
}

impl Outcome {
    /// What the window is told of this outcome.
    pub fn message(self) -> (r: Message)
        ensures
            r@ == self@.message(),
    {
        match self {
            Outcome::Page(page) => Message::Loaded(Ok(page)),
            Outcome::EndOfSeries(page) => Message::Loaded(Ok(page)),
            Outcome::StartOfSeries(page) => Message::Loaded(Ok(page)),
            Outcome::Failed(e) => Message::Loaded(Err(e)),
        }
    }
}

/// How far a move has come. Each stage but the last waits for one answer.
#[derive(Debug, PartialEq, Eq)]
pub enum Stage {
    /// The page of the stored position is being fetched.
    Current { date: PageIdentifier },
    /// The neighbour is being fetched.
    Neighbor { date: PageIdentifier },
    /// The neighbour is being written to the position file.
    Storing { page: GirlGeniusPage },
    /// The cache directory is being listed.
    Listing { page: GirlGeniusPage },
    /// The image is being fetched and written to the cache directory.
    Downloading { page: GirlGeniusPage },
    /// The move has ended.
    Done(Outcome),
}

/// A `Stage` as plain values.
pub enum StageView {
    Current { date: PageIdentifier },
    Neighbor { date: PageIdentifier },
    Storing { page: PageView },
    Listing { page: PageView },
    Downloading { page: PageView },
    Done(OutcomeView),
}

impl View for Stage {
    type V = StageView;

    open spec fn view(&self) -> StageView {
        match self {
            Stage::Current { date } => StageView::Current { date: *date },
            Stage::Neighbor { date } => StageView::Neighbor { date: *date },
            Stage::Storing { page } => StageView::Storing { page: page@ },
            Stage::Listing { page } => StageView::Listing { page: page@ },
            Stage::Downloading { page } => StageView::Downloading { page: page@ },
            Stage::Done(outcome) => StageView::Done(outcome@),
        }
    }
}

/// What the outside world is asked to do next.
#[derive(Debug, PartialEq, Eq)]
pub enum Action {
    /// Fetch the document of this page.
    Fetch(PageIdentifier),
    /// Write this page to the position file as the page last shown.
    WritePosition(PageIdentifier),
    /// List the names of the files in the cache directory.
    ListCache,
    /// Fetch the image at `url` and write it to `path`.
    Download { url: String, path: String },
    /// Nothing more: the move has ended.
    Finish(Outcome),
}

/// An `Action` as plain values.
pub enum ActionView {
    Fetch(PageIdentifier),
    WritePosition(PageIdentifier),
    ListCache,
    Download { url: Seq<char>, path: Seq<char> },
    Finish(OutcomeView),
}

impl View for Action {
    type V = ActionView;

    open spec fn view(&self) -> ActionView {
        match self {
            Action::Fetch(date) => ActionView::Fetch(*date),
            Action::WritePosition(date) => ActionView::WritePosition(*date),
            Action::ListCache => ActionView::ListCache,
            Action::Download { url, path } => ActionView::Download { url: url@, path: path@ },
            Action::Finish(outcome) => ActionView::Finish(outcome@),
        }
    }
}

/// What the outside world answers.
#[derive(Debug, PartialEq, Eq)]
pub enum Event {
    /// The document that was fetched.
    Body(String),
    /// The position file has been written.
    Written,
    /// The names of the files in the cache directory.
    Listing(Vec<String>),
    /// The image has been written.
    Downloaded,
    /// What was asked could not be done.
    Failed(Error),
}

/// An `Event` as plain values.
pub enum EventView {
    Body(Seq<char>),
    Written,
    Listing(Seq<Seq<char>>),
    Downloaded,
    Failed(Error),
}

impl View for Event {
    type V = EventView;

    open spec fn view(&self) -> EventView {
        match self {
            Event::Body(body) => EventView::Body(body@),
            Event::Written => EventView::Written,
            Event::Listing(names) => EventView::Listing(names.deep_view()),
            Event::Downloaded => EventView::Downloaded,
            Event::Failed(e) => EventView::Failed(*e),
        }
    }
}

/// A move under way.
#[derive(Debug, PartialEq, Eq)]
pub struct Navigation {
    /// Where the move leads.
    pub direction: Direction,
    /// The cache directory of this run.
    pub cache_dir: String,
    /// How far the move has come.
    pub stage: Stage,
}

/// A `Navigation` as plain values.
pub struct NavigationView {
    pub direction: Direction,
    pub cache_dir: Seq<char>,
    pub stage: StageView,
}

impl View for Navigation {
    type V = NavigationView;

    open spec fn view(&self) -> NavigationView {
        NavigationView {
            direction: self.direction,
            cache_dir: self.cache_dir@,
            stage: self.stage@,
        }
    }
}

/// The page `date` as it is shown from the cache directory `cache_dir`.
pub open spec fn shown(cache_dir: Seq<char>, date: PageIdentifier) -> UiPageView {
    UiPageView { image: cache_path(cache_dir, date), date }
}

/// A move at its start, from the stored position `position`.
///
/// A position that names no page ends the move at once. So does a move back
/// from the first page of the series: nothing is fetched for it.
pub open spec fn begin(
    direction: Direction,
    position: ConfigView,
    cache_dir: Seq<char>,
) -> NavigationView {
    NavigationView {
        direction,
        cache_dir,
        stage: match parsed(position.latest_page) {
            None => StageView::Done(OutcomeView::Failed(Error::MalformedIdentifier)),
            Some(date) => if direction == Direction::Backward && date
                == PageIdentifier::first_page() {
                StageView::Done(OutcomeView::StartOfSeries(shown(cache_dir, date)))
            } else {
                StageView::Current { date }
            },
        },
    }
}

impl NavigationView {
    /// What the outside world is asked to do at this stage.
    pub open spec fn pending(self) -> ActionView {
        match self.stage {
            StageView::Current { date } => ActionView::Fetch(date),
            StageView::Neighbor { date } => ActionView::Fetch(date),
            StageView::Storing { page } => ActionView::WritePosition(page.current),
            StageView::Listing { page } => ActionView::ListCache,
            StageView::Downloading { page } => ActionView::Download {
                url: page.current_image,
                path: cache_path(self.cache_dir, page.current),
            },
            StageView::Done(outcome) => ActionView::Finish(outcome),
        }
    }

    /// The stage after `event`.
    ///
    /// A failure ends the move, whatever was asked. An answer to something
    /// that was not asked changes nothing, and an ended move stays as it is.
    /// The position is written once both documents have been taken apart, and
    /// before the image is looked for.
    pub open spec fn next_stage(self, event: EventView) -> StageView {
        match self.stage {
            StageView::Done(_) => self.stage,
            StageView::Current { date } => match event {
                EventView::Failed(e) => StageView::Done(OutcomeView::Failed(e)),
                EventView::Body(body) => match fetched(date, body) {
                    Err(e) => StageView::Done(OutcomeView::Failed(e)),
                    Ok(page) => match self.direction {
                        Direction::Stay => StageView::Listing { page },
                        Direction::Forward => match page.next {
                            Some(date) => StageView::Neighbor { date },
                            None => StageView::Done(
                                OutcomeView::EndOfSeries(shown(self.cache_dir, page.current)),
                            ),
                        },
                        Direction::Backward => match page.previous {
                            Some(date) => StageView::Neighbor { date },
                            None => StageView::Done(
                                OutcomeView::StartOfSeries(shown(self.cache_dir, page.current)),
                            ),
                        },
                    },
                },
                _ => self.stage,
            },
            StageView::Neighbor { date } => match event {
                EventView::Failed(e) => StageView::Done(OutcomeView::Failed(e)),
                EventView::Body(body) => match fetched(date, body) {
                    Err(e) => StageView::Done(OutcomeView::Failed(e)),
                    Ok(page) => StageView::Storing { page },
                },
                _ => self.stage,
            },
            StageView::Storing { page } => match event {
                EventView::Failed(e) => StageView::Done(OutcomeView::Failed(e)),
                EventView::Written => StageView::Listing { page },
                _ => self.stage,
            },
            StageView::Listing { page } => match event {
                EventView::Failed(e) => StageView::Done(OutcomeView::Failed(e)),
                EventView::Listing(names) => if is_cached(names, page.current) {
                    StageView::Done(OutcomeView::Page(shown(self.cache_dir, page.current)))
                } else {
                    StageView::Downloading { page }
                },
                _ => self.stage,
            },
            StageView::Downloading { page } => match event {
                EventView::Failed(e) => StageView::Done(OutcomeView::Failed(e)),
                EventView::Downloaded => StageView::Done(
                    OutcomeView::Page(shown(self.cache_dir, page.current)),
                ),
                _ => self.stage,
            },
        }
    }

    /// The move after `event`.
    pub open spec fn step(self, event: EventView) -> NavigationView {
        NavigationView {
            direction: self.direction,
            cache_dir: self.cache_dir,
            stage: self.next_stage(event),
        }
    }

    /// The move after all of `events`, in their order.
    pub open spec fn run(self, events: Seq<EventView>) -> NavigationView
        decreases events.len(),
    {
        if events.len() == 0 {
            self
        } else {
            self.run(events.drop_last()).step(events.last())
        }
    }
}

/// The move that a load of the window is: none where nothing is started.
pub open spec fn direction_of(task: Task) -> Option<Direction> {
    match task {
        Task::Idle => None,
        Task::Init => Some(Direction::Stay),
        Task::Next => Some(Direction::Forward),
        Task::Prev => Some(Direction::Backward),
    }
}

impl Task {
    /// Where the load leads that is to be started, if one is.
    pub fn direction(self) -> (r: Option<Direction>)
        ensures
            r == direction_of(self),
    {
        match self {
            Task::Idle => None,
            Task::Init => Some(Direction::Stay),
            Task::Next => Some(Direction::Forward),
            Task::Prev => Some(Direction::Backward),
        }
    }
}

/// The page `date` as it is shown from the cache directory `cache_dir`.
fn show(cache_dir: &str, date: PageIdentifier) -> (r: UiPage)
    ensures
        r@ == shown(cache_dir@, date),
{
    UiPage { image: cache_file(cache_dir, &date), date }
}

impl Navigation {
    /// Starts a move from the stored position `position`.
    pub fn begin(direction: Direction, position: &Config, cache_dir: &str) -> (r: Navigation)
        ensures
            r@ == begin(direction, position@, cache_dir@),
    {
        let stage = match parse_gg_string_for_date(position.latest_page.as_str()) {
            Err(_) => Stage::Done(Outcome::Failed(Error::MalformedIdentifier)),
            Ok(date) => {
                let backward = match direction {
                    Direction::Backward => true,
                    _ => false,
                };
                if backward && date == PageIdentifier::series_start() {
                    Stage::Done(Outcome::StartOfSeries(show(cache_dir, date)))
                } else {
                    Stage::Current { date }
                }
            },
        };
        Navigation { direction, cache_dir: String::from_str(cache_dir), stage }
    }

    /// What the outside world is asked to do next.
    pub fn pending(&self) -> (r: Action)
        ensures
            r@ == self@.pending(),
    {
        match &self.stage {
            Stage::Current { date } => Action::Fetch(*date),
            Stage::Neighbor { date } => Action::Fetch(*date),
            Stage::Storing { page } => Action::WritePosition(page.current),
            Stage::Listing { .. } => Action::ListCache,
            Stage::Downloading { page } => Action::Download {
                url: page.current_image.clone(),
                path: cache_file(self.cache_dir.as_str(), &page.current),
            },
            Stage::Done(outcome) => Action::Finish(outcome.clone()),
        }
    }

    /// Takes the answer of the outside world in and moves on.
    pub fn step(self, event: Event) -> (r: Navigation)
        ensures
            r@ == self@.step(event@),
    {
        let Navigation { direction, cache_dir, stage } = self;
        let stage = match stage {
            Stage::Done(outcome) => Stage::Done(outcome),
            Stage::Current { date } => match event {
                Event::Failed(e) => Stage::Done(Outcome::Failed(e)),
                Event::Body(body) => match GirlGeniusPage::new(&date, body.as_str()) {
                    Err(e) => Stage::Done(Outcome::Failed(e)),
                    Ok(page) => match direction {
                        Direction::Stay => Stage::Listing { page },
                        Direction::Forward => match page.next {
                            Some(date) => Stage::Neighbor { date },
                            None => Stage::Done(
                                Outcome::EndOfSeries(show(cache_dir.as_str(), page.current)),
                            ),
                        },
                        Direction::Backward => match page.previous {
                            Some(date) => Stage::Neighbor { date },
                            None => Stage::Done(
                                Outcome::StartOfSeries(show(cache_dir.as_str(), page.current)),
                            ),
                        },
                    },
                },
                _ => Stage::Current { date },
            },
            Stage::Neighbor { date } => match event {
                Event::Failed(e) => Stage::Done(Outcome::Failed(e)),
                Event::Body(body) => match GirlGeniusPage::new(&date, body.as_str()) {
                    Err(e) => Stage::Done(Outcome::Failed(e)),
                    Ok(page) => Stage::Storing { page },
                },
                _ => Stage::Neighbor { date },
            },
            Stage::Storing { page } => match event {
                Event::Failed(e) => Stage::Done(Outcome::Failed(e)),
                Event::Written => Stage::Listing { page },
                _ => Stage::Storing { page },
            },
            Stage::Listing { page } => match event {
                Event::Failed(e) => Stage::Done(Outcome::Failed(e)),
                Event::Listing(names) => match page.save(cache_dir.as_str(), &names) {
                    Cached::Hit { path } => Stage::Done(
                        Outcome::Page(UiPage { image: path, date: page.current }),
                    ),
                    Cached::Miss { .. } => Stage::Downloading { page },
                },
                _ => Stage::Listing { page },
            },
            Stage::Downloading { page } => match event {
                Event::Failed(e) => Stage::Done(Outcome::Failed(e)),
                Event::Downloaded => Stage::Done(
                    Outcome::Page(show(cache_dir.as_str(), page.current)),
                ),
                _ => Stage::Downloading { page },
            },
        };
        Navigation { direction, cache_dir, stage }
    }
}

/// A move back from the first page of the series ends at once, and stays
/// ended whatever is answered: nothing is ever fetched or written for it.
pub proof fn lemma_retreat_from_first_page(
    position: ConfigView,
    cache_dir: Seq<char>,
    events: Seq<EventView>,
)
    requires
        parsed(position.latest_page) == Some(PageIdentifier::first_page()),
    ensures
        begin(Direction::Backward, position, cache_dir).run(events).pending() == ActionView::Finish(
            OutcomeView::StartOfSeries(shown(cache_dir, PageIdentifier::first_page())),
        ),
    decreases events.len(),
{
    if events.len() > 0 {
        lemma_retreat_from_first_page(position, cache_dir, events.drop_last());
    }
}

/// A move forward from a page that links to no page after it ends with the
/// document of that page: the end of the series, on the same page.
pub proof fn lemma_advance_at_end(position: ConfigView, cache_dir: Seq<char>, body: Seq<char>)
    requires
        parsed(position.latest_page) is Some,
        fetched(parsed(position.latest_page)->0, body) matches Ok(page) && page.next is None,
    ensures
        begin(Direction::Forward, position, cache_dir).pending() == ActionView::Fetch(
            parsed(position.latest_page)->0,
        ),
        begin(Direction::Forward, position, cache_dir).step(EventView::Body(body)).pending()
            == ActionView::Finish(
            OutcomeView::EndOfSeries(shown(cache_dir, parsed(position.latest_page)->0)),
        ),
{
}

/// The stages from which a move can still end at the end of the series.
spec fn before_end(nav: NavigationView) -> bool {
    nav.stage is Current || nav.stage matches StageView::Done(OutcomeView::EndOfSeries(_))
}

/// Every stage on the way to the end of the series is one from which it can be reached.
proof fn lemma_stages_before_end(start: NavigationView, events: Seq<EventView>, k: int)
    requires
        before_end(start.run(events)),
        0 <= k <= events.len(),
    ensures
        before_end(start.run(events.take(k))),
    decreases events.len() - k,
{
    if k == events.len() {
        assert(events.take(k) =~= events);
    } else {
        lemma_stages_before_end(start, events, k + 1);
        let longer = events.take(k + 1);
        assert(longer.drop_last() =~= events.take(k));
        assert(start.run(longer) == start.run(events.take(k)).step(longer.last()));
    }
}

/// A move that ends at the end of the series never asked for the position to
/// be written: the stored position is as it was. All it ever asked for was a
/// document.
pub proof fn lemma_end_of_series_writes_nothing(
    start: NavigationView,
    events: Seq<EventView>,
    k: int,
)
    requires
        start.run(events).stage matches StageView::Done(OutcomeView::EndOfSeries(_)),
        0 <= k <= events.len(),
    ensures
        !(start.run(events.take(k)).pending() is WritePosition),
        start.run(events.take(k)).pending() is Fetch || start.run(events.take(k)).pending()
            is Finish,
{
    lemma_stages_before_end(start, events, k);
}

/// A page whose file is in the cache directory is shown without a download.
pub proof fn lemma_cached_page_is_not_fetched(nav: NavigationView, names: Seq<Seq<char>>)
    requires
        nav.stage is Listing,
        is_cached(names, nav.stage->Listing_page.current),
    ensures
        nav.step(EventView::Listing(names)).pending() == ActionView::Finish(
            OutcomeView::Page(shown(nav.cache_dir, nav.stage->Listing_page.current)),
        ),
{
}

/// The page that `page` links to in `direction`.
pub open spec fn neighbor_of(page: PageView, direction: Direction) -> Option<PageIdentifier> {
    match direction {
        Direction::Stay => None,
        Direction::Forward => page.next,
        Direction::Backward => page.previous,
    }
}

/// `event` is a document of the page `from` that links, in `direction`, to the page `to`.
pub open spec fn links(
    event: EventView,
    from: PageIdentifier,
    direction: Direction,
    to: PageIdentifier,
) -> bool {
    event matches EventView::Body(body) && fetched(from, body) matches Ok(page) && neighbor_of(
        page,
        direction,
    ) == Some(to)
}

/// `event` is a document of the page `date` that could be taken apart.
pub open spec fn shows(event: EventView, date: PageIdentifier) -> bool {
    event matches EventView::Body(body) && fetched(date, body) is Ok
}

/// What the first `k` of `events` must hold for a move from the page `from` to
/// stand where `nav` stands.
spec fn on_course(
    nav: NavigationView,
    from: PageIdentifier,
    events: Seq<EventView>,
    k: int,
) -> bool {
    match nav.stage {
        StageView::Current { date } => date == from,
        StageView::Neighbor { date } => exists|i: int|
            0 <= i < k && #[trigger] links(events[i], from, nav.direction, date),
        StageView::Storing { page } => exists|i: int, j: int|
            0 <= i < j < k && #[trigger] links(events[i], from, nav.direction, page.current)
                && #[trigger] shows(events[j], page.current),
        _ => true,
    }
}

/// A move that began at the stored position is on course after every event.
proof fn lemma_on_course(
    direction: Direction,
    position: ConfigView,
    cache_dir: Seq<char>,
    events: Seq<EventView>,
    k: int,
)
    requires
        0 <= k <= events.len(),
    ensures
        parsed(position.latest_page) is None ==> begin(direction, position, cache_dir).run(
            events.take(k),
        ).stage is Done,
        parsed(position.latest_page) is Some ==> on_course(
            begin(direction, position, cache_dir).run(events.take(k)),
            parsed(position.latest_page)->0,
            events,
            k,
        ),
        begin(direction, position, cache_dir).run(events.take(k)).direction == direction,
    decreases k,
{
    let start = begin(direction, position, cache_dir);
    if k > 0 {
        lemma_on_course(direction, position, cache_dir, events, k - 1);
        let shorter = events.take(k - 1);
        let longer = events.take(k);
        assert(longer.drop_last() =~= shorter);
        assert(longer.last() == events[k - 1]);
        let before = start.run(shorter);
        let after = start.run(longer);
        assert(after == before.step(events[k - 1]));
        if parsed(position.latest_page) is Some {
            let from = parsed(position.latest_page)->0;
            match after.stage {
                StageView::Neighbor { date } => {
                    if before.stage is Current {
                        assert(links(events[k - 1], from, direction, date));
                    } else {
                        let i = choose|i: int|
                            0 <= i < k - 1 && #[trigger] links(events[i], from, direction, date);
                        assert(links(events[i], from, direction, date));
                    }
                },
                StageView::Storing { page } => {
                    if before.stage is Neighbor {
                        let i = choose|i: int|
                            0 <= i < k - 1 && #[trigger] links(
                                events[i],
                                from,
                                direction,
                                page.current,
                            );
                        assert(links(events[i], from, direction, page.current));
                        assert(shows(events[k - 1], page.current));
                    } else {
                        let (i, j) = choose|i: int, j: int|
                            0 <= i < j < k - 1 && #[trigger] links(
                                events[i],
                                from,
                                direction,
                                page.current,
                            ) && #[trigger] shows(events[j], page.current);
                        assert(links(events[i], from, direction, page.current));
                        assert(shows(events[j], page.current));
                    }
                },
                _ => {},
            }
        }
    } else {
        assert(events.take(0) =~= Seq::<EventView>::empty());
    }
}

/// The position is written only after two documents: one of the page of the
/// stored position, which links to the page that is written, and after it one
/// of that page. A move that fails before that leaves the position as it was.
pub proof fn lemma_write_follows_two_documents(
    direction: Direction,
    position: ConfigView,
    cache_dir: Seq<char>,
    events: Seq<EventView>,
    k: int,
    to: PageIdentifier,
)
    requires
        0 <= k <= events.len(),
        begin(direction, position, cache_dir).run(events.take(k)).pending()
            == ActionView::WritePosition(to),
    ensures
        parsed(position.latest_page) is Some,
        direction != Direction::Stay,
        exists|i: int, j: int|
            0 <= i < j < k && #[trigger] links(
                events[i],
                parsed(position.latest_page)->0,
                direction,
                to,
            ) && #[trigger] shows(events[j], to),
{
    lemma_on_course(direction, position, cache_dir, events, k);
    let nav = begin(direction, position, cache_dir).run(events.take(k));
    assert(nav.stage is Storing);
    assert(to == nav.stage->Storing_page.current);
    let from = parsed(position.latest_page)->0;
    let (i, j) = choose|i: int, j: int|
        0 <= i < j < k && #[trigger] links(events[i], from, direction, to) && #[trigger] shows(
            events[j],
            to,
        );
    assert(links(events[i], from, direction, to));
    assert(shows(events[j], to));
}

/// A move under way after the documents `first` and `second` have come in.
pub open spec fn after_documents(
    direction: Direction,
    position: ConfigView,
    cache_dir: Seq<char>,
    first: Seq<char>,
    second: Seq<char>,
) -> NavigationView {
    begin(direction, position, cache_dir).step(EventView::Body(first)).step(
        EventView::Body(second),
    )
}

/// A whole move forward or back, answer by answer: the page of the position is
/// fetched, then the page it links to; that page is written to the position
/// file; the cache directory is listed; the image is fetched where its file is
/// missing, and only there; the move ends on the new page, shown from its file
/// in the cache directory.
pub proof fn lemma_whole_move(
    direction: Direction,
    position: ConfigView,
    cache_dir: Seq<char>,
    first: Seq<char>,
    second: Seq<char>,
    names: Seq<Seq<char>>,
    from: PageIdentifier,
    to: PageIdentifier,
)
    requires
        direction != Direction::Stay,
        parsed(position.latest_page) == Some(from),
        direction == Direction::Backward ==> from != PageIdentifier::first_page(),
        links(EventView::Body(first), from, direction, to),
        fetched(to, second) is Ok,
    ensures
        begin(direction, position, cache_dir).pending() == ActionView::Fetch(from),
        begin(direction, position, cache_dir).step(EventView::Body(first)).pending()
            == ActionView::Fetch(to),
        after_documents(direction, position, cache_dir, first, second).pending()
            == ActionView::WritePosition(to),
        after_documents(direction, position, cache_dir, first, second).step(
            EventView::Written,
        ).pending() == ActionView::ListCache,
        is_cached(names, to) ==> after_documents(direction, position, cache_dir, first, second).step(
            EventView::Written,
        ).step(EventView::Listing(names)).pending() == ActionView::Finish(
            OutcomeView::Page(shown(cache_dir, to)),
        ),
        !is_cached(names, to) ==> after_documents(
            direction,
            position,
            cache_dir,
            first,
            second,
        ).step(EventView::Written).step(EventView::Listing(names)).pending() == (
        ActionView::Download {
            url: fetched(to, second)->Ok_0.current_image,
            path: cache_path(cache_dir, to),
        }),
        !is_cached(names, to) ==> after_documents(
            direction,
            position,
            cache_dir,
            first,
            second,
        ).step(EventView::Written).step(EventView::Listing(names)).step(
            EventView::Downloaded,
        ).pending() == ActionView::Finish(OutcomeView::Page(shown(cache_dir, to))),
{
    let start = begin(direction, position, cache_dir);
    assert(start.stage == StageView::Current { date: from });
    let one = start.step(EventView::Body(first));
    assert(one.stage == StageView::Neighbor { date: to });
    let two = one.step(EventView::Body(second));
    let page = fetched(to, second)->Ok_0;
    assert(page.current == to);
    assert(two.stage == StageView::Storing { page });
    let three = two.step(EventView::Written);
    assert(three.stage == StageView::Listing { page });
}

/// A whole load of the page of the position: the page is fetched, the cache
/// directory is listed, the image is fetched where its file is missing, and
/// the load ends on that page. The position is never written.
pub proof fn lemma_whole_load(
    position: ConfigView,
    cache_dir: Seq<char>,
    body: Seq<char>,
    names: Seq<Seq<char>>,
    date: PageIdentifier,
)
    requires
        parsed(position.latest_page) == Some(date),
        fetched(date, body) is Ok,
    ensures
        begin(Direction::Stay, position, cache_dir).pending() == ActionView::Fetch(date),
        begin(Direction::Stay, position, cache_dir).step(EventView::Body(body)).pending()
            == ActionView::ListCache,
        is_cached(names, date) ==> begin(Direction::Stay, position, cache_dir).step(
            EventView::Body(body),
        ).step(EventView::Listing(names)).pending() == ActionView::Finish(
            OutcomeView::Page(shown(cache_dir, date)),
        ),
        !is_cached(names, date) ==> begin(Direction::Stay, position, cache_dir).step(
            EventView::Body(body),
        ).step(EventView::Listing(names)).pending() == (ActionView::Download {
            url: fetched(date, body)->Ok_0.current_image,
            path: cache_path(cache_dir, date),
        }),
        !is_cached(names, date) ==> begin(Direction::Stay, position, cache_dir).step(
            EventView::Body(body),
        ).step(EventView::Listing(names)).step(EventView::Downloaded).pending()
            == ActionView::Finish(OutcomeView::Page(shown(cache_dir, date))),
{
    let start = begin(Direction::Stay, position, cache_dir);
    assert(start.stage == StageView::Current { date });
    let page = fetched(date, body)->Ok_0;
    assert(page.current == date);
    let one = start.step(EventView::Body(body));
    assert(one.stage == StageView::Listing { page });
}

} // verus!
