//! The position record and its file, and a fetched page with its image in the cache.

use vstd::prelude::*;

use crate::date::{file_name_of, lemma_url_round_trip, parsed, PageIdentifier};
use crate::html::{
    image_selector, nav_selector, select_attrs, selected_attrs, AttrPair, AttrPairView,
    MAX_DOCUMENT_CHARS,
};
use crate::text::same_text;
use crate::ui::Error;
use crate::{date_to_file_name, date_to_gg_string, parse_gg_string_for_date};

verus! {

/// A page as it was fetched: where it is, where its image is, and its neighbours.
#[derive(Debug, PartialEq, Eq)]
pub struct GirlGeniusPage {
    /// The page itself, read back from the address it was fetched from.
    pub current: PageIdentifier,
    /// The address of the comic image.
    pub current_image: String,
    /// The page before, absent on the first page.
    pub previous: Option<PageIdentifier>,
    /// The page after, absent on the last page so far.
    pub next: Option<PageIdentifier>,
}

/// A `GirlGeniusPage` as plain values.
pub struct PageView {
    pub current: PageIdentifier,
    pub current_image: Seq<char>,
    pub previous: Option<PageIdentifier>,
    pub next: Option<PageIdentifier>,
}

impl View for GirlGeniusPage {
    type V = PageView;

    open spec fn view(&self) -> PageView {
        PageView {
            current: self.current,
            current_image: self.current_image@,
            previous: self.previous,
            next: self.next,
        }
    }
}

/// The link target of the first anchor whose `id` is `name`: nothing where no
/// anchor has that `id`, and an absent target where that anchor has no `href`.
pub open spec fn link_target(
    anchors: Seq<AttrPairView>,
    name: Seq<char>,
) -> Option<Option<Seq<char>>>
    decreases anchors.len(),
{
    if anchors.len() == 0 {
        None
    } else if anchors[0].0 == Some(name) {
        Some(anchors[0].1)
    } else {
        link_target(anchors.drop_first(), name)
    }
}

/// The page that the anchor called `name` leads to. No such anchor is no
/// neighbour; an anchor without a target, or with one that names no page, is an error.
pub open spec fn neighbor(
    anchors: Seq<AttrPairView>,
    name: Seq<char>,
) -> Result<Option<PageIdentifier>, Error> {
    match link_target(anchors, name) {
        None => Ok(None),
        Some(None) => Err(Error::ParseError),
        Some(Some(href)) => match parsed(href) {
            Some(id) => Ok(Some(id)),
            None => Err(Error::MalformedIdentifier),
        },
    }
}

/// The page `id` as its document shows it, given the `id` and `href` of the
/// navigation anchors and the `src` of the comic images as they were selected.
/// The image is looked at first, then the link forward, then the link back.
pub open spec fn page_of(
    id: PageIdentifier,
    anchors: Option<Seq<AttrPairView>>,
    images: Option<Seq<AttrPairView>>,
) -> Result<PageView, Error> {
    if anchors is None || images is None {
        Err(Error::ParseError)
    } else if images->0.len() == 0 || images->0[0].0 is None {
        Err(Error::ImageNotFound)
    } else {
        match neighbor(anchors->0, "topnext"@) {
            Err(e) => Err(e),
            Ok(next) => match neighbor(anchors->0, "topprev"@) {
                Err(e) => Err(e),
                Ok(previous) => Ok(
                    PageView {
                        current: id,
                        current_image: images->0[0].0->0,
                        previous,
                        next,
                    },
                ),
            },
        }
    }
}

/// The page `id` as the document `body` shows it. A document of more than
/// `MAX_DOCUMENT_CHARS` characters is not looked at: it is a parse error.
pub open spec fn fetched(id: PageIdentifier, body: Seq<char>) -> Result<PageView, Error> {
    if body.len() > MAX_DOCUMENT_CHARS {
        Err(Error::ParseError)
    } else {
        page_of(
            id,
            selected_attrs(body, nav_selector(), "id"@, "href"@),
            selected_attrs(body, image_selector(), "src"@, "alt"@),
        )
    }
}

/// A fetched page, or the error of fetching it, as plain values.
pub open spec fn fetched_view(r: Result<GirlGeniusPage, Error>) -> Result<PageView, Error> {
    match r {
        Ok(page) => Ok(page@),
        Err(e) => Err(e),
    }
}

/// Finds the neighbour that the anchor called `name` leads to.
fn find_neighbor(
    anchors: &Vec<AttrPair>,
    name: &str,
) -> (r: Result<Option<PageIdentifier>, Error>)
    ensures
        r == neighbor(anchors.deep_view(), name@),
{
    let ghost all = anchors.deep_view();
    let mut i: usize = 0;
    assert(all.skip(0) =~= all);
    while i < anchors.len()
        invariant
            i <= anchors.len(),
            all == anchors.deep_view(),
            link_target(all, name@) == link_target(all.skip(i as int), name@),
        decreases anchors.len() - i,
    {
        let ghost rest = all.skip(i as int);
        assert(rest[0] == all[i as int]);
        assert(rest.drop_first() =~= all.skip(i + 1));
        let named = match &anchors[i].0 {
            Some(id) => same_text(id.as_str(), name),
            None => false,
        };
        if named {
            return match &anchors[i].1 {
                None => Err(Error::ParseError),
                Some(href) => match parse_gg_string_for_date(href.as_str()) {
                    Ok(id) => Ok(Some(id)),
                    Err(_) => Err(Error::MalformedIdentifier),
                },
            };
        }
        i += 1;
    }
    Ok(None)
}

impl GirlGeniusPage {
    /// Puts a page together from what was selected in its document.
    pub fn from_parts(
        date: &PageIdentifier,
        anchors: &Option<Vec<AttrPair>>,
        images: &Option<Vec<AttrPair>>,
    ) -> (r: Result<GirlGeniusPage, Error>)
        ensures
            fetched_view(r) == page_of(*date, anchors.deep_view(), images.deep_view()),
    {
        let (anchors, images) = match (anchors, images) {
            (Some(a), Some(i)) => (a, i),
            _ => {
                return Err(Error::ParseError);
            },
        };
        if images.len() == 0 {
            return Err(Error::ImageNotFound);
        }
        let current_image = match &images[0].0 {
            Some(src) => src.clone(),
            None => {
                return Err(Error::ImageNotFound);
            },
        };
        let next = find_neighbor(anchors, "topnext")?;
        let previous = find_neighbor(anchors, "topprev")?;
        proof {
            use_type_invariant(date);
            lemma_url_round_trip(*date);
        }
        let address = date_to_gg_string(date);
        let current = parse_gg_string_for_date(address.as_str())?;
        Ok(GirlGeniusPage { current, current_image, previous, next })
    }

    /// Takes apart the document `body` that was fetched for the page `date`.
    pub fn new(date: &PageIdentifier, body: &str) -> (r: Result<GirlGeniusPage, Error>)
        ensures
            fetched_view(r) == fetched(*date, body@),
    {
        if body.unicode_len() > MAX_DOCUMENT_CHARS {
            return Err(Error::ParseError);
        }
        let anchors = select_attrs(body, "div[id=\"topnav\"] > a", "id", "href");
        let images = select_attrs(body, "img[alt=\"Comic\"]", "src", "alt");
        Self::from_parts(date, &anchors, &images)
    }
}

/// The image of a page in the cache directory: there already, or still to be fetched.
#[derive(Debug, PartialEq, Eq)]
pub enum Cached {
    /// The file is there; nothing is fetched.
    Hit { path: String },
    /// The file is missing: the image at `url` is to be written to `path`.
    Miss { url: String, path: String },
}

/// A `Cached` as plain values.
pub enum CachedView {
    Hit { path: Seq<char> },
    Miss { url: Seq<char>, path: Seq<char> },
}

impl View for Cached {
    type V = CachedView;

    open spec fn view(&self) -> CachedView {
        match self {
            Cached::Hit { path } => CachedView::Hit { path: path@ },
            Cached::Miss { url, path } => CachedView::Miss { url: url@, path: path@ },
        }
    }
}

impl CachedView {
    /// Where the image is, or will be.
    pub open spec fn path(self) -> Seq<char> {
        match self {
            CachedView::Hit { path } => path,
            CachedView::Miss { path, .. } => path,
        }
    }
}

/// Where the image of the page `id` is kept below `cache_dir`.
pub open spec fn cache_path(cache_dir: Seq<char>, id: PageIdentifier) -> Seq<char> {
    cache_dir + "/"@ + file_name_of(id)
}

/// Whether the names in `listing` hold the file of the page `id`.
pub open spec fn is_cached(listing: Seq<Seq<char>>, id: PageIdentifier) -> bool {
    listing.contains(file_name_of(id))
}

/// What is to be done for the image of `page`, given the names in the cache directory.
pub open spec fn cache_plan(
    page: PageView,
    cache_dir: Seq<char>,
    listing: Seq<Seq<char>>,
) -> CachedView {
    if is_cached(listing, page.current) {
        CachedView::Hit { path: cache_path(cache_dir, page.current) }
    } else {
        CachedView::Miss { url: page.current_image, path: cache_path(cache_dir, page.current) }
    }
}

/// The file of a page in the cache directory `cache_dir`.
pub fn cache_file(cache_dir: &str, date: &PageIdentifier) -> (r: String)
    ensures
        r@ == cache_path(cache_dir@, *date),
{
    let mut r = String::from_str(cache_dir);
    r.append("/");
    r.append(date_to_file_name(date).as_str());
    r
}

impl GirlGeniusPage {
    /// Whether the image of this page is among the names `listing` of the files
    /// in the cache directory. Only the exact name counts.
    pub fn check(&self, listing: &Vec<String>) -> (has: bool)
        ensures
            has == is_cached(listing.deep_view(), self.current),
    {
        let name = date_to_file_name(&self.current);
        let ghost names = listing.deep_view();
        let mut i: usize = 0;
        while i < listing.len()
            invariant
                i <= listing.len(),
                names == listing.deep_view(),
                name@ == file_name_of(self.current),
                forall|j: int| 0 <= j < i ==> names[j] != name@,
            decreases listing.len() - i,
        {
            if same_text(listing[i].as_str(), name.as_str()) {
                assert(names[i as int] == name@);
                return true;
            }
            i += 1;
        }
        false
    }

    /// Decides what the image of this page needs: nothing where its file is
    /// among `listing`, else a download of the image to that file.
    pub fn save(&self, cache_dir: &str, listing: &Vec<String>) -> (r: Cached)
        ensures
            r@ == cache_plan(self@, cache_dir@, listing.deep_view()),
    {
        let path = cache_file(cache_dir, &self.current);
        if self.check(listing) {
            Cached::Hit { path }
        } else {
            Cached::Miss { url: self.current_image.clone(), path }
        }
    }
}

/// Once the file of a page is in the cache directory, asking again fetches
/// nothing and names the same file as the first time, whatever was there then.
pub proof fn lemma_cache_idempotent(
    page: PageView,
    cache_dir: Seq<char>,
    before: Seq<Seq<char>>,
    after: Seq<Seq<char>>,
)
    requires
        is_cached(after, page.current),
    ensures
        cache_plan(page, cache_dir, after) is Hit,
        cache_plan(page, cache_dir, after).path() == cache_plan(page, cache_dir, before).path(),
{
}

/// The position record: the page last shown and where images are kept.
#[derive(Debug, PartialEq, Eq)]
pub struct Config {
    /// The page last shown, as its eight digits.
    pub latest_page: String,
    /// The cache directory.
    pub cache_dir: String,
}

/// A `Config` as plain values.
pub struct ConfigView {
    pub latest_page: Seq<char>,
    pub cache_dir: Seq<char>,
}

impl View for Config {
    type V = ConfigView;

    open spec fn view(&self) -> ConfigView {
        ConfigView { latest_page: self.latest_page@, cache_dir: self.cache_dir@ }
    }
}

impl Clone for Config {
    fn clone(&self) -> (r: Self)
        ensures
            r == *self,
    {
        Config { latest_page: self.latest_page.clone(), cache_dir: self.cache_dir.clone() }
    }
}

/// The directory of the position file where the user names none.
pub open spec fn default_config_dir(home: Seq<char>) -> Seq<char> {
    home + "/.config/ggg"@
}

/// The position file where the user names none.
pub open spec fn default_config_path(home: Seq<char>) -> Seq<char> {
    home + "/.config/ggg/config.json"@
}

/// The cache directory where neither the user nor the position file names one.
pub open spec fn default_cache_dir(home: Seq<char>) -> Seq<char> {
    home + "/.cache/ggg"@
}

/// The position file: where it is, whose home directory the default places lie
/// in, and the cache directory that the user asked for, if any.
#[derive(Debug, PartialEq, Eq)]
pub struct ConfigFile {
    /// The path of the file.
    pub path: String,
    /// The home directory of the user.
    pub home: String,
    /// The cache directory that the user asked for.
    pub cache_dir: Option<String>,
}

/// A `ConfigFile` as plain values.
pub struct ConfigFileView {
    pub path: Seq<char>,
    pub home: Seq<char>,
    pub cache_dir: Option<Seq<char>>,
}

impl ConfigFileView {
    /// The record that is written where there is none: the first page of the
    /// series, and the cache directory that was asked for or else the default one.
    pub open spec fn fresh_record(self) -> ConfigView {
        ConfigView {
            latest_page: PageIdentifier::first_page().digits(),
            cache_dir: match self.cache_dir {
                Some(dir) => dir,
                None => default_cache_dir(self.home),
            },
        }
    }

    /// The cache directory of this run: the one that was asked for, or else the
    /// one that the record names.
    pub open spec fn session_cache_dir(self, record: ConfigView) -> Seq<char> {
        match self.cache_dir {
            Some(dir) => dir,
            None => record.cache_dir,
        }
    }
}

impl View for ConfigFile {
    type V = ConfigFileView;

    open spec fn view(&self) -> ConfigFileView {
        ConfigFileView {
            path: self.path@,
            home: self.home@,
            cache_dir: match self.cache_dir {
                Some(dir) => Some(dir@),
                None => None,
            },
        }
    }
}

impl Clone for ConfigFile {
    fn clone(&self) -> (r: Self)
        ensures
            r == *self,
    {
        ConfigFile {
            path: self.path.clone(),
            home: self.home.clone(),
            cache_dir: match &self.cache_dir {
                Some(dir) => Some(dir.clone()),
                None => None,
            },
        }
    }
}

/// What was found at the path of the position file.
#[derive(Debug, PartialEq, Eq)]
pub enum StoreFile {
    /// Nothing is there.
    Missing,
    /// Something is there that is no file.
    NotAFile,
    /// A file with the content `text`; `record` is what `text` holds as a
    /// position record, absent where it holds none.
    Text { text: String, record: Option<Config> },
}

/// A `StoreFile` as plain values.
pub enum StoreFileView {
    Missing,
    NotAFile,
    Text { text: Seq<char>, record: Option<ConfigView> },
}

impl View for StoreFile {
    type V = StoreFileView;

    open spec fn view(&self) -> StoreFileView {
        match self {
            StoreFile::Missing => StoreFileView::Missing,
            StoreFile::NotAFile => StoreFileView::NotAFile,
            StoreFile::Text { text, record } => StoreFileView::Text {
                text: text@,
                record: match record {
                    Some(c) => Some(c@),
                    None => None,
                },
            },
        }
    }
}

/// The position that was read, with what has to be put on disk for it.
#[derive(Debug, PartialEq, Eq)]
pub struct Reading {
    /// The record that holds from now on.
    pub config: Config,
    /// The directory to create before anything is written.
    pub create_dir: Option<String>,
    /// Whether `config` is to be written to the path of the position file.
    pub write_back: bool,
}

/// A `Reading` as plain values.
pub struct ReadingView {
    pub config: ConfigView,
    pub create_dir: Option<Seq<char>>,
    pub write_back: bool,
}

impl View for Reading {
    type V = ReadingView;

    open spec fn view(&self) -> ReadingView {
        ReadingView {
            config: self.config@,
            create_dir: match self.create_dir {
                Some(dir) => Some(dir@),
                None => None,
            },
            write_back: self.write_back,
        }
    }
}

/// What reading the position file gives, for each thing found at its path.
///
/// A missing file is made anew only at the default path; elsewhere the user
/// chose the path, and nothing is put there. An empty file is filled with a fresh
/// record wherever it is. A file with a record is left as it is.
pub open spec fn read_plan(
    file: ConfigFileView,
    found: StoreFileView,
) -> Result<ReadingView, Error> {
    match found {
        StoreFileView::Missing => if file.path == default_config_path(file.home) {
            Ok(
                ReadingView {
                    config: file.fresh_record(),
                    create_dir: Some(default_config_dir(file.home)),
                    write_back: true,
                },
            )
        } else {
            Err(Error::ConfigNotFound)
        },
        StoreFileView::NotAFile => Err(Error::ConfigNotFound),
        StoreFileView::Text { text, record } => if text.len() == 0 {
            Ok(ReadingView { config: file.fresh_record(), create_dir: None, write_back: true })
        } else {
            match record {
                Some(config) => Ok(ReadingView { config, create_dir: None, write_back: false }),
                None => Err(Error::ConfigCorrupt),
            }
        },
    }
}

/// A file that is missing at the default path is made anew: with the first page
/// of the series, and with the cache directory that was asked for or else the
/// default one.
pub proof fn lemma_missing_default_file(file: ConfigFileView)
    requires
        file.path == default_config_path(file.home),
    ensures
        read_plan(file, StoreFileView::Missing) is Ok,
        read_plan(file, StoreFileView::Missing)->Ok_0.write_back,
        read_plan(file, StoreFileView::Missing)->Ok_0.create_dir == Some(
            default_config_dir(file.home),
        ),
        read_plan(file, StoreFileView::Missing)->Ok_0.config.latest_page
            == seq!['2', '0', '0', '2', '1', '1', '0', '4'],
        file.cache_dir matches Some(dir) ==> read_plan(
            file,
            StoreFileView::Missing,
        )->Ok_0.config.cache_dir == dir,
        file.cache_dir is None ==> read_plan(file, StoreFileView::Missing)->Ok_0.config.cache_dir
            == default_cache_dir(file.home),
{
    PageIdentifier::lemma_first_page();
}

/// A reading, or the error of it, as plain values.
pub open spec fn reading_view(r: Result<Reading, Error>) -> Result<ReadingView, Error> {
    match r {
        Ok(reading) => Ok(reading@),
        Err(e) => Err(e),
    }
}

/// Whether the cache directory can be used: `Ok(false)` as it is, `Ok(true)`
/// once it has been created. Only the default directory is created; where
/// something other than a directory is in the way, nothing helps.
pub open spec fn cache_dir_verdict(
    home: Seq<char>,
    cache_dir: Seq<char>,
    exists: bool,
    is_file: bool,
) -> Result<bool, Error> {
    if exists {
        if is_file {
            Err(Error::CacheDirUnreadable)
        } else {
            Ok(false)
        }
    } else if cache_dir == default_cache_dir(home) {
        Ok(true)
    } else {
        Err(Error::CacheDirUnreadable)
    }
}

/// `<home>/.config/ggg`
pub fn config_dir_in(home: &str) -> (r: String)
    ensures
        r@ == default_config_dir(home@),
{
    let mut r = String::from_str(home);
    r.append("/.config/ggg");
    r
}

/// `<home>/.config/ggg/config.json`
pub fn config_path_in(home: &str) -> (r: String)
    ensures
        r@ == default_config_path(home@),
{
    let mut r = String::from_str(home);
    r.append("/.config/ggg/config.json");
    r
}

/// `<home>/.cache/ggg`
pub fn cache_dir_in(home: &str) -> (r: String)
    ensures
        r@ == default_cache_dir(home@),
{
    let mut r = String::from_str(home);
    r.append("/.cache/ggg");
    r
}

impl ConfigFile {
    /// The position file of a run: at `path`, or at the default place below
    /// `home` where the user names none.
    pub fn new(home: &str, path: Option<String>, cache_dir: Option<String>) -> (r: ConfigFile)
        ensures
            r@.home == home@,
            path matches Some(p) ==> r@.path == p@,
            path is None ==> r@.path == default_config_path(home@),
            r.cache_dir == cache_dir,
    {
        let path = match path {
            Some(p) => p,
            None => config_path_in(home),
        };
        ConfigFile { path, home: String::from_str(home), cache_dir }
    }

    /// The record that is written where there is none.
    pub fn fresh_record(&self) -> (r: Config)
        ensures
            r@ == self@.fresh_record(),
    {
        let cache_dir = match &self.cache_dir {
            Some(dir) => dir.clone(),
            None => cache_dir_in(self.home.as_str()),
        };
        Config { latest_page: PageIdentifier::series_start().to_digits(), cache_dir }
    }

    /// Decides, from what was found at the path of the file, which record
    /// holds and what has to be put on disk, or why there is no record.
    pub fn read(&self, found: StoreFile) -> (r: Result<Reading, Error>)
        ensures
            reading_view(r) == read_plan(self@, found@),
    {
        match found {
            StoreFile::Missing => {
                let default_path = config_path_in(self.home.as_str());
                if same_text(self.path.as_str(), default_path.as_str()) {
                    Ok(
                        Reading {
                            config: self.fresh_record(),
                            create_dir: Some(config_dir_in(self.home.as_str())),
                            write_back: true,
                        },
                    )
                } else {
                    Err(Error::ConfigNotFound)
                }
            },
            StoreFile::NotAFile => Err(Error::ConfigNotFound),
            StoreFile::Text { text, record } => {
                if text.as_str().unicode_len() == 0 {
                    Ok(Reading { config: self.fresh_record(), create_dir: None, write_back: true })
                } else {
                    match record {
                        Some(config) => Ok(Reading { config, create_dir: None, write_back: false }),
                        None => Err(Error::ConfigCorrupt),
                    }
                }
            },
        }
    }

    /// The record `record` with the page last shown replaced by `date`, and
    /// nothing else changed: what is written back after a move.
    pub fn update_latest_page(&self, record: Config, date: &PageIdentifier) -> (r: Config)
        ensures
            r@.latest_page == date.digits(),
            r.cache_dir == record.cache_dir,
    {
        Config { latest_page: date.to_digits(), cache_dir: record.cache_dir }
    }

    /// The position file for the rest of a run that began with the record
    /// `record`: the cache directory of the run counts as the one asked for, so
    /// that a file made anew during the run names it.
    pub fn for_session(self, record: &Config) -> (r: ConfigFile)
        ensures
            r@.path == self@.path,
            r@.home == self@.home,
            r@.cache_dir == Some(self@.session_cache_dir(record@)),
            r@.fresh_record().cache_dir == self@.session_cache_dir(record@),
            r@.session_cache_dir(record@) == self@.session_cache_dir(record@),
    {
        let cache_dir = self.session_cache_dir(record);
        ConfigFile { path: self.path, home: self.home, cache_dir: Some(cache_dir) }
    }

    /// The cache directory of this run.
    pub fn session_cache_dir(&self, record: &Config) -> (r: String)
        ensures
            r@ == self@.session_cache_dir(record@),
    {
        match &self.cache_dir {
            Some(dir) => dir.clone(),
            None => record.cache_dir.clone(),
        }
    }

    /// Decides whether the cache directory `cache_dir` can be used, given
    /// whether something is at that path and whether it is a file.
    pub fn check_cache_dir(
        &self,
        cache_dir: &str,
        exists: bool,
        is_file: bool,
    ) -> (r: Result<bool, Error>)
        ensures
            r == cache_dir_verdict(self@.home, cache_dir@, exists, is_file),
    {
        if exists {
            if is_file {
                Err(Error::CacheDirUnreadable)
            } else {
                Ok(false)
            }
        } else if same_text(cache_dir, cache_dir_in(self.home.as_str()).as_str()) {
            Ok(true)
        } else {
            Err(Error::CacheDirUnreadable)
        }
    }
}

} // verus!
