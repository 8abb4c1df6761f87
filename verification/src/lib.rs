//! A reader for a webcomic whose pages are named by date: page keys, the
//! position file, what a fetched page links to, the image cache, and the
//! steps of moving one page forward or back.

use vstd::prelude::*;

pub mod date;
pub mod html;
pub mod nav;
pub mod structs;
mod text;
pub mod ui;

use crate::date::{
    file_name_of, first_match, first_token, has_token, lemma_first_token, parsed, url_of,
    PageIdentifier,
};
use crate::nav::{begin, Direction, Navigation};
use crate::structs::Config;
use crate::text::same_text;
use crate::ui::{Error, Task};

verus! {

/// Reads the page identifier out of `text`: the first eight decimal digits that
/// stand in a row, wherever they stand. A text without such a run is refused.
pub fn parse_gg_string_for_date(text: &str) -> (r: Result<PageIdentifier, Error>)
    ensures
        r is Ok <==> has_token(text@),
        r matches Ok(id) ==> Some(id) == parsed(text@) && id.digits() == first_token(text@),
        r matches Err(e) ==> e == Error::MalformedIdentifier,
{
    match first_match("[0-9]{8}", text) {
        Some(token) => {
            proof {
                let i = choose|i: int|
                    date::first_token_at(text@, i) && token@ == text@.subrange(i, i + 8);
                lemma_first_token(text@, i);
            }
            match PageIdentifier::from_token(token.as_str()) {
                Some(id) => Ok(id),
                None => Err(Error::MalformedIdentifier),
            }
        },
        None => Err(Error::MalformedIdentifier),
    }
}

/// The address from which the page `date` is fetched.
pub fn date_to_gg_string(date: &PageIdentifier) -> (r: String)
    ensures
        r@ == url_of(*date),
{
    let mut r = String::from_str("https://www.girlgeniusonline.com/comic.php?date=");
    r.append(date.to_digits().as_str());
    r
}

/// The name under which the image of the page `date` is kept in the cache directory.
pub fn date_to_file_name(date: &PageIdentifier) -> (r: String)
    ensures
        r@ == file_name_of(*date),
{
    let mut r = date.to_digits();
    r.append(".jpg");
    r
}

/// The home directory of the user, out of what the environment holds: on
/// Windows the user's profile directory, elsewhere the value of `HOME`.
pub fn home_dir(
    os: &str,
    user_profile: Option<String>,
    home: Option<String>,
) -> (r: Option<String>)
    ensures
        os@ == "windows"@ ==> r == user_profile,
        os@ != "windows"@ ==> r == home,
{
    if same_text(os, "windows") {
        user_profile
    } else {
        home
    }
}

/// Starts the move to the page after the stored position.
pub fn next(conf: &Config, cache_dir: &str) -> (r: Navigation)
    ensures
        r@ == begin(Direction::Forward, conf@, cache_dir@),
{
    Navigation::begin(Direction::Forward, conf, cache_dir)
}

/// Starts the move to the page before the stored position. From the first
/// page of the series the move has ended before it began.
pub fn previous(conf: &Config, cache_dir: &str) -> (r: Navigation)
    ensures
        r@ == begin(Direction::Backward, conf@, cache_dir@),
{
    Navigation::begin(Direction::Backward, conf, cache_dir)
}

/// Starts the load of the page of the stored position.
pub fn current(conf: &Config, cache_dir: &str) -> (r: Navigation)
    ensures
        r@ == begin(Direction::Stay, conf@, cache_dir@),
{
    Navigation::begin(Direction::Stay, conf, cache_dir)
}

/// Starts the move that a load of the window is, from the stored position:
/// the page of the position for `Init`, the page after for `Next`, the page
/// before for `Prev`. An idle task starts nothing.
pub fn start(task: Task, conf: &Config, cache_dir: &str) -> (r: Option<Navigation>)
    ensures
        task == Task::Idle ==> r is None,
        task == Task::Init ==> r is Some && r->0@ == begin(Direction::Stay, conf@, cache_dir@),
        task == Task::Next ==> r is Some && r->0@ == begin(Direction::Forward, conf@, cache_dir@),
        task == Task::Prev ==> r is Some && r->0@ == begin(Direction::Backward, conf@, cache_dir@),
{
    match task.direction() {
        Some(direction) => Some(Navigation::begin(direction, conf, cache_dir)),
        None => None,
    }
}

} // verus!
