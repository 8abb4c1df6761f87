use ggg::date::PageIdentifier;
use ggg::nav::{Action, Direction, Event, Navigation, Outcome, Stage};
use ggg::structs::{Config, ConfigFile, GirlGeniusPage};
use ggg::ui::{Error, Message, Task, UiPage};
use ggg::{current, next, previous, start};

fn day(year: u16, month: u8, day: u8) -> PageIdentifier {
    PageIdentifier::new(year, month, day).unwrap()
}

fn position(latest_page: &str) -> Config {
    Config { latest_page: String::from(latest_page), cache_dir: String::from("/cache") }
}

fn body(previous: Option<&str>, next: Option<&str>, image: &str) -> Event {
    let mut nav = String::new();
    if let Some(date) = previous {
        nav.push_str(&format!("<a id=\"topprev\" href=\"/comic.php?date={}\">p</a>", date));
    }
    if let Some(date) = next {
        nav.push_str(&format!("<a id=\"topnext\" href=\"/comic.php?date={}\">n</a>", date));
    }
    Event::Body(format!(
        "<html><body><div id=\"topnav\">{}</div><img alt=\"Comic\" src=\"{}\"></body></html>",
        nav, image
    ))
}

fn listing(names: &[&str]) -> Event {
    Event::Listing(names.iter().map(|name| String::from(*name)).collect())
}

fn shown(date: PageIdentifier, image: &str) -> UiPage {
    UiPage { image: String::from(image), date }
}

/// What the outside world is in these tests: documents by page, the stored
/// position, the names in the cache directory, and what was asked so far.
struct World {
    file: ConfigFile,
    stored: Config,
    cache: Vec<String>,
    asked: Vec<String>,
}

impl World {
    fn new(latest_page: &str, cache: &[&str]) -> World {
        World {
            file: ConfigFile::new("/home/u", None, None),
            stored: position(latest_page),
            cache: cache.iter().map(|name| String::from(*name)).collect(),
            asked: Vec::new(),
        }
    }

    fn document(date: PageIdentifier) -> Event {
        if date == day(2002, 11, 4) {
            body(None, Some("20021107"), "https://example.org/a.jpg")
        } else if date == day(2002, 11, 7) {
            body(Some("20021104"), Some("20021109"), "https://example.org/b.jpg")
        } else if date == day(2002, 11, 9) {
            body(Some("20021107"), None, "https://example.org/c.jpg")
        } else {
            Event::Failed(Error::NetworkError)
        }
    }

    fn run(&mut self, mut nav: Navigation) -> Outcome {
        loop {
            let event = match nav.pending() {
                Action::Fetch(date) => {
                    self.asked.push(format!("fetch {}", date.to_digits()));
                    World::document(date)
                }
                Action::WritePosition(date) => {
                    self.asked.push(format!("write {}", date.to_digits()));
                    self.stored = self.file.update_latest_page(self.stored.clone(), &date);
                    Event::Written
                }
                Action::ListCache => {
                    self.asked.push(String::from("list"));
                    Event::Listing(self.cache.clone())
                }
                Action::Download { url, path } => {
                    self.asked.push(format!("download {} {}", url, path));
                    let name = path.rsplit('/').next().unwrap();
                    self.cache.push(String::from(name));
                    Event::Downloaded
                }
                Action::Finish(outcome) => return outcome,
            };
            nav = nav.step(event);
        }
    }
}

#[test]
fn a_move_forward_fetches_writes_and_caches_in_turn() {
    let mut world = World::new("20021104", &[]);
    let outcome = world.run(next(&position("20021104"), "/cache"));
    assert_eq!(outcome, Outcome::Page(shown(day(2002, 11, 7), "/cache/20021107.jpg")));
    assert_eq!(
        world.asked,
        vec![
            "fetch 20021104",
            "fetch 20021107",
            "write 20021107",
            "list",
            "download https://example.org/b.jpg /cache/20021107.jpg",
        ]
    );
    assert_eq!(world.cache, vec![String::from("20021107.jpg")]);
    assert_eq!(world.stored, position("20021107"));
}

#[test]
fn a_second_move_to_a_cached_page_fetches_no_image() {
    let mut world = World::new("20021104", &[]);
    let first = world.run(next(&position("20021104"), "/cache"));
    let back = world.run(previous(&world.stored.clone(), "/cache"));
    assert_eq!(back, Outcome::Page(shown(day(2002, 11, 4), "/cache/20021104.jpg")));
    assert_eq!(world.stored, position("20021104"));
    world.asked.clear();
    let second = world.run(next(&position("20021104"), "/cache"));
    assert_eq!(second, first);
    assert_eq!(world.asked, vec!["fetch 20021104", "fetch 20021107", "write 20021107", "list"]);
    assert_eq!(world.cache, vec![String::from("20021107.jpg"), String::from("20021104.jpg")]);
    assert_eq!(world.stored, position("20021107"));
}

#[test]
fn the_end_of_the_series_leaves_the_position_alone() {
    let mut world = World::new("20021109", &["20021109.jpg"]);
    let outcome = world.run(next(&position("20021109"), "/cache"));
    assert_eq!(outcome, Outcome::EndOfSeries(shown(day(2002, 11, 9), "/cache/20021109.jpg")));
    assert_eq!(world.asked, vec!["fetch 20021109"]);
    assert_eq!(world.stored, position("20021109"));
    assert_eq!(world.cache, vec![String::from("20021109.jpg")]);
}

#[test]
fn the_start_of_the_series_asks_for_nothing() {
    let mut world = World::new("20021104", &[]);
    let outcome = world.run(previous(&position("20021104"), "/cache"));
    assert_eq!(outcome, Outcome::StartOfSeries(shown(day(2002, 11, 4), "/cache/20021104.jpg")));
    assert!(world.asked.is_empty());
    assert_eq!(world.stored, position("20021104"));
}

#[test]
fn a_failed_fetch_leaves_the_position_alone() {
    let mut world = World::new("20030101", &[]);
    let outcome = world.run(next(&position("20030101"), "/cache"));
    assert_eq!(outcome, Outcome::Failed(Error::NetworkError));
    assert_eq!(world.asked, vec!["fetch 20030101"]);
    assert_eq!(world.stored, position("20030101"));
}

#[test]
fn a_move_back_from_the_first_page_ends_at_once() {
    let nav = previous(&position("20021104"), "/cache");
    let stay = Outcome::StartOfSeries(shown(day(2002, 11, 4), "/cache/20021104.jpg"));
    assert_eq!(nav.pending(), Action::Finish(stay.clone()));
    let nav = nav.step(body(None, Some("20021107"), "a.jpg"));
    assert_eq!(nav.pending(), Action::Finish(stay.clone()));
    let nav = nav.step(Event::Written).step(listing(&[])).step(Event::Downloaded);
    assert_eq!(nav.pending(), Action::Finish(stay.clone()));
    let nav = nav.step(Event::Failed(Error::NetworkError));
    assert_eq!(nav.pending(), Action::Finish(stay));
}

#[test]
fn the_first_page_is_known_by_its_digits_wherever_they_stand() {
    let nav = previous(&position("date=20021104"), "/cache");
    assert!(matches!(nav.pending(), Action::Finish(Outcome::StartOfSeries(_))));
    let nav = next(&position("20021104"), "/cache");
    assert_eq!(nav.pending(), Action::Fetch(day(2002, 11, 4)));
    let nav = current(&position("20021104"), "/cache");
    assert_eq!(nav.pending(), Action::Fetch(day(2002, 11, 4)));
}

#[test]
fn a_move_forward_from_the_last_page_ends_the_series() {
    let nav = next(&position("20240103"), "/cache");
    assert_eq!(nav.pending(), Action::Fetch(day(2024, 1, 3)));
    let nav = nav.step(body(Some("20240101"), None, "a.jpg"));
    assert_eq!(
        nav.pending(),
        Action::Finish(Outcome::EndOfSeries(shown(day(2024, 1, 3), "/cache/20240103.jpg")))
    );
}

#[test]
fn a_move_back_without_a_link_back_starts_the_series() {
    let nav = previous(&position("20021106"), "/cache");
    assert_eq!(nav.pending(), Action::Fetch(day(2002, 11, 6)));
    let nav = nav.step(body(None, Some("20021108"), "a.jpg"));
    assert_eq!(
        nav.pending(),
        Action::Finish(Outcome::StartOfSeries(shown(day(2002, 11, 6), "/cache/20021106.jpg")))
    );
}

#[test]
fn a_move_back_follows_the_link_back() {
    let nav = previous(&position("20021107"), "/c");
    let nav = nav.step(body(Some("20021104"), Some("20021109"), "b.jpg"));
    assert_eq!(nav.pending(), Action::Fetch(day(2002, 11, 4)));
    let nav = nav.step(body(None, Some("20021107"), "a.jpg"));
    assert_eq!(nav.pending(), Action::WritePosition(day(2002, 11, 4)));
    let nav = nav.step(Event::Written);
    assert_eq!(nav.pending(), Action::ListCache);
    let nav = nav.step(listing(&["20021104.jpg", "20021107.jpg"]));
    assert_eq!(
        nav.pending(),
        Action::Finish(Outcome::Page(shown(day(2002, 11, 4), "/c/20021104.jpg")))
    );
}

#[test]
fn the_page_of_the_position_is_loaded_without_a_write() {
    let nav = current(&position("20021107"), "/c");
    assert_eq!(nav.pending(), Action::Fetch(day(2002, 11, 7)));
    let nav = nav.step(body(Some("20021104"), Some("20021109"), "b.jpg"));
    assert_eq!(nav.pending(), Action::ListCache);
    let nav = nav.step(listing(&["20021104.jpg"]));
    assert_eq!(
        nav.pending(),
        Action::Download { url: String::from("b.jpg"), path: String::from("/c/20021107.jpg") }
    );
    let nav = nav.step(Event::Downloaded);
    assert_eq!(
        nav.pending(),
        Action::Finish(Outcome::Page(shown(day(2002, 11, 7), "/c/20021107.jpg")))
    );
}

#[test]
fn a_position_that_names_no_page_fails_the_move() {
    let failed = Action::Finish(Outcome::Failed(Error::MalformedIdentifier));
    assert_eq!(next(&position("garbage"), "/c").pending(), failed);
    assert_eq!(previous(&position(""), "/c").pending(), failed);
    assert_eq!(current(&position("2002"), "/c").pending(), failed);
}

#[test]
fn a_failure_ends_the_move_at_every_stage() {
    let kinds = [
        Error::NetworkError,
        Error::FetchTimeout,
        Error::ConfigNotFound,
        Error::ConfigCorrupt,
        Error::CacheDirUnreadable,
        Error::DiskWriteError,
    ];
    for kind in kinds {
        let failed = Action::Finish(Outcome::Failed(kind));
        let first = next(&position("20021104"), "/c");
        assert_eq!(first.step(Event::Failed(kind)).pending(), failed);
        let second = next(&position("20021104"), "/c").step(body(None, Some("20021107"), "a"));
        assert_eq!(second.step(Event::Failed(kind)).pending(), failed);
        let third = next(&position("20021104"), "/c")
            .step(body(None, Some("20021107"), "a"))
            .step(body(None, None, "b"));
        assert_eq!(third.pending(), Action::WritePosition(day(2002, 11, 7)));
        assert_eq!(third.step(Event::Failed(kind)).pending(), failed);
        let fourth = current(&position("20021104"), "/c").step(body(None, None, "a"));
        assert_eq!(fourth.pending(), Action::ListCache);
        assert_eq!(fourth.step(Event::Failed(kind)).pending(), failed);
        let fifth = current(&position("20021104"), "/c")
            .step(body(None, None, "a"))
            .step(listing(&[]));
        assert!(matches!(fifth.pending(), Action::Download { .. }));
        assert_eq!(fifth.step(Event::Failed(kind)).pending(), failed);
    }
}

#[test]
fn a_document_that_cannot_be_used_fails_the_move() {
    let empty = Event::Body(String::from("<html></html>"));
    let nav = next(&position("20021104"), "/c").step(empty);
    assert_eq!(nav.pending(), Action::Finish(Outcome::Failed(Error::ImageNotFound)));
    let nav = next(&position("20021104"), "/c")
        .step(body(None, Some("20021107"), "a"))
        .step(body(None, Some("tomorrow"), "b"));
    assert_eq!(nav.pending(), Action::Finish(Outcome::Failed(Error::MalformedIdentifier)));
}

#[test]
fn an_answer_to_nothing_asked_changes_nothing() {
    let start = next(&position("20021104"), "/c");
    let same = next(&position("20021104"), "/c")
        .step(Event::Written)
        .step(listing(&["20021104.jpg"]))
        .step(Event::Downloaded);
    assert_eq!(same, start);
    let storing = next(&position("20021104"), "/c")
        .step(body(None, Some("20021107"), "a"))
        .step(body(None, None, "b"));
    let still = storing.step(body(None, None, "c")).step(Event::Downloaded).step(listing(&[]));
    assert_eq!(still.pending(), Action::WritePosition(day(2002, 11, 7)));
    let loading = still.step(Event::Written).step(Event::Written).step(Event::Downloaded);
    assert_eq!(loading.pending(), Action::ListCache);
}

#[test]
fn an_ended_move_can_be_built_and_stays_ended() {
    let done = Navigation {
        direction: Direction::Forward,
        cache_dir: String::from("/c"),
        stage: Stage::Done(Outcome::Failed(Error::FetchTimeout)),
    };
    let after = done.step(body(None, Some("20021107"), "a"));
    assert_eq!(after.stage, Stage::Done(Outcome::Failed(Error::FetchTimeout)));
    assert_eq!(after.direction, Direction::Forward);
    assert_eq!(after.cache_dir, "/c");
}

#[test]
fn a_stage_asks_for_what_it_waits_for() {
    let page = GirlGeniusPage {
        current: day(2002, 11, 7),
        current_image: String::from("b.jpg"),
        previous: None,
        next: None,
    };
    let nav = Navigation {
        direction: Direction::Stay,
        cache_dir: String::from("/c"),
        stage: Stage::Downloading { page },
    };
    assert_eq!(
        nav.pending(),
        Action::Download { url: String::from("b.jpg"), path: String::from("/c/20021107.jpg") }
    );
    let nav = Navigation {
        direction: Direction::Stay,
        cache_dir: String::from("/c"),
        stage: Stage::Neighbor { date: day(2002, 11, 9) },
    };
    assert_eq!(nav.pending(), Action::Fetch(day(2002, 11, 9)));
}

#[test]
fn the_window_is_told_where_the_reader_is() {
    let page = shown(day(2002, 11, 7), "/c/20021107.jpg");
    assert_eq!(Outcome::Page(page.clone()).message(), Message::Loaded(Ok(page.clone())));
    assert_eq!(Outcome::EndOfSeries(page.clone()).message(), Message::Loaded(Ok(page.clone())));
    assert_eq!(Outcome::StartOfSeries(page.clone()).message(), Message::Loaded(Ok(page)));
    assert_eq!(
        Outcome::Failed(Error::NetworkError).message(),
        Message::Loaded(Err(Error::NetworkError))
    );
}

#[test]
fn a_task_starts_the_move_it_names() {
    let stored = position("20021107");
    assert_eq!(start(Task::Idle, &stored, "/c"), None);
    assert_eq!(start(Task::Init, &stored, "/c"), Some(current(&stored, "/c")));
    assert_eq!(start(Task::Next, &stored, "/c"), Some(next(&stored, "/c")));
    assert_eq!(start(Task::Prev, &stored, "/c"), Some(previous(&stored, "/c")));
    let first = position("20021104");
    let ended = start(Task::Prev, &first, "/c").unwrap();
    assert!(matches!(ended.pending(), Action::Finish(Outcome::StartOfSeries(_))));
    assert_eq!(start(Task::Init, &first, "/c").unwrap().direction, Direction::Stay);
}

#[test]
fn a_task_leads_somewhere_or_nowhere() {
    assert_eq!(Task::Idle.direction(), None);
    assert_eq!(Task::Init.direction(), Some(Direction::Stay));
    assert_eq!(Task::Next.direction(), Some(Direction::Forward));
    assert_eq!(Task::Prev.direction(), Some(Direction::Backward));
}
