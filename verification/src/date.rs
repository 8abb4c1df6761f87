//! Page identifiers: eight decimal digits that read as year, month and day.

use vstd::arithmetic::div_mod::{
    lemma_div_denominator, lemma_fundamental_div_mod, lemma_fundamental_div_mod_converse,
};
use vstd::prelude::*;

verus! {

/// `c` is one of the ten ASCII decimal digits.
pub open spec fn is_digit(c: char) -> bool {
    '0' <= c <= '9'
}

/// The digit character that stands for `d`, for `d` from 0 to 9.
pub open spec fn digit_char(d: int) -> char {
    (d + 48) as char
}

/// The number that the digit character `c` stands for.
pub open spec fn digit_value(c: char) -> int {
    c as int - 48
}

/// `t` is exactly eight decimal digits.
pub open spec fn is_token(t: Seq<char>) -> bool {
    t.len() == 8 && forall|k: int| 0 <= k < 8 ==> is_digit(#[trigger] t[k])
}

/// Eight decimal digits stand in `text` from index `i` on.
pub open spec fn token_at(text: Seq<char>, i: int) -> bool {
    0 <= i && i + 8 <= text.len() && forall|k: int| i <= k < i + 8 ==> is_digit(#[trigger] text[k])
}

/// `i` is the least index from which eight decimal digits stand in `text`.
pub open spec fn first_token_at(text: Seq<char>, i: int) -> bool {
    token_at(text, i) && forall|j: int| 0 <= j < i ==> !token_at(text, j)
}

/// Somewhere in `text` eight decimal digits stand in a row.
pub open spec fn has_token(text: Seq<char>) -> bool {
    exists|i: int| token_at(text, i)
}

/// The first eight decimal digits that stand in a row in `text`.
pub open spec fn first_token(text: Seq<char>) -> Seq<char> {
    let i = choose|i: int| first_token_at(text, i);
    text.subrange(i, i + 8)
}

/// The pattern handed to the regular expression engine: eight ASCII digits.
pub open spec fn date_pattern() -> Seq<char> {
    "[0-9]{8}"@
}

/// What reading `text` for an identifier gives: the identifier written with the
/// first eight digits that stand in a row, or nothing where there is no such run.
pub open spec fn parsed(text: Seq<char>) -> Option<PageIdentifier> {
    if has_token(text) {
        Some(PageIdentifier::of_token(first_token(text)))
    } else {
        None
    }
}

/// What every page address begins with.
pub open spec fn site_prefix() -> Seq<char> {
    "https://www.girlgeniusonline.com/comic.php?date="@
}

/// The address of the page `id`.
pub open spec fn url_of(id: PageIdentifier) -> Seq<char> {
    site_prefix() + id.digits()
}

/// The name of the file that holds the image of the page `id`.
pub open spec fn file_name_of(id: PageIdentifier) -> Seq<char> {
    id.digits() + ".jpg"@
}

/// A page of the series, named by the date it appeared on.
///
/// The value is held as three numbers; `digits` is its written form, the only
/// one that leaves the library. Nothing asks that the date exists in a
/// calendar: month 13 and day 00 are kept as they are read.
#[derive(Clone, Copy, Debug, PartialEq, Eq, Structural)]
pub struct PageIdentifier {
    year: u16,
    month: u8,
    day: u8,
}

impl PageIdentifier {
    /// The first four digits as a number.
    pub closed spec fn year(self) -> int {
        self.year as int
    }

    /// The fifth and sixth digit as a number.
    pub closed spec fn month(self) -> int {
        self.month as int
    }

    /// The last two digits as a number.
    pub closed spec fn day(self) -> int {
        self.day as int
    }

    /// Each part fits the digits it is written with.
    #[verifier::type_invariant]
    pub open spec fn wf(self) -> bool {
        &&& 0 <= self.year() <= 9999
        &&& 0 <= self.month() <= 99
        &&& 0 <= self.day() <= 99
    }

    /// The written form: four digits of the year, two of the month, two of the day.
    pub open spec fn digits(self) -> Seq<char> {
        seq![
            digit_char(self.year() / 1000),
            digit_char(self.year() / 100 % 10),
            digit_char(self.year() / 10 % 10),
            digit_char(self.year() % 10),
            digit_char(self.month() / 10),
            digit_char(self.month() % 10),
            digit_char(self.day() / 10),
            digit_char(self.day() % 10),
        ]
    }

    /// The identifier that the eight digits `t` are the written form of.
    pub closed spec fn of_token(t: Seq<char>) -> PageIdentifier {
        PageIdentifier {
            year: (digit_value(t[0]) * 1000 + digit_value(t[1]) * 100 + digit_value(t[2]) * 10
                + digit_value(t[3])) as u16,
            month: (digit_value(t[4]) * 10 + digit_value(t[5])) as u8,
            day: (digit_value(t[6]) * 10 + digit_value(t[7])) as u8,
        }
    }

    /// The first page of the series, 4 November 2002.
    pub closed spec fn first_page() -> PageIdentifier {
        PageIdentifier { year: 2002, month: 11, day: 4 }
    }

    /// The identifier with these three parts, where each can be written with its digits.
    pub fn new(year: u16, month: u8, day: u8) -> (r: Option<PageIdentifier>)
        ensures
            r is Some <==> year <= 9999 && month <= 99 && day <= 99,
            r matches Some(id) ==> id.year() == year && id.month() == month && id.day() == day,
    {
        if year <= 9999 && month <= 99 && day <= 99 {
            Some(PageIdentifier { year, month, day })
        } else {
            None
        }
    }

    /// The first page of the series.
    pub fn series_start() -> (r: PageIdentifier)
        ensures
            r == Self::first_page(),
    {
        PageIdentifier { year: 2002, month: 11, day: 4 }
    }

    /// Reads an identifier from a text that is nothing but its eight digits.
    pub fn from_token(token: &str) -> (r: Option<PageIdentifier>)
        ensures
            r is Some <==> is_token(token@),
            r matches Some(id) ==> id == Self::of_token(token@) && id.digits() == token@,
    {
        if token.unicode_len() != 8 {
            return None;
        }
        let d0: u8 = digit_at(token, 0)?;
        let d1: u8 = digit_at(token, 1)?;
        let d2: u8 = digit_at(token, 2)?;
        let d3: u8 = digit_at(token, 3)?;
        let d4: u8 = digit_at(token, 4)?;
        let d5: u8 = digit_at(token, 5)?;
        let d6: u8 = digit_at(token, 6)?;
        let d7: u8 = digit_at(token, 7)?;
        assert(is_token(token@)) by {
            assert forall|k: int| 0 <= k < 8 implies is_digit(#[trigger] token@[k]) by {
                assert(k == 0 || k == 1 || k == 2 || k == 3 || k == 4 || k == 5 || k == 6 || k
                    == 7);
            }
        }
        proof {
            Self::lemma_of_token(token@);
        }
        let year: u16 = d0 as u16 * 1000 + d1 as u16 * 100 + d2 as u16 * 10 + d3 as u16;
        let month: u8 = d4 * 10 + d5;
        let day: u8 = d6 * 10 + d7;
        Some(PageIdentifier { year, month, day })
    }

    /// Writes the identifier out as its eight digits.
    pub fn to_digits(&self) -> (r: String)
        ensures
            r@ == self.digits(),
    {
        proof {
            use_type_invariant(self);
            lemma_split_four(self.year());
            lemma_split_two(self.month());
            lemma_split_two(self.day());
        }
        let mut r = String::new();
        r.append(digit_text((self.year / 1000) as u8));
        r.append(digit_text((self.year / 100 % 10) as u8));
        r.append(digit_text((self.year / 10 % 10) as u8));
        r.append(digit_text((self.year % 10) as u8));
        r.append(digit_text(self.month / 10));
        r.append(digit_text(self.month % 10));
        r.append(digit_text(self.day / 10));
        r.append(digit_text(self.day % 10));
        assert(r@ =~= self.digits());
        r
    }

    /// Reading eight digits gives a valid identifier that is written with those digits.
    pub proof fn lemma_of_token(t: Seq<char>)
        requires
            is_token(t),
        ensures
            Self::of_token(t).wf(),
            Self::of_token(t).digits() == t,
    {
        let id = Self::of_token(t);
        lemma_digit_chars(t[0]);
        lemma_digit_chars(t[1]);
        lemma_digit_chars(t[2]);
        lemma_digit_chars(t[3]);
        lemma_digit_chars(t[4]);
        lemma_digit_chars(t[5]);
        lemma_digit_chars(t[6]);
        lemma_digit_chars(t[7]);
        lemma_join_four(
            digit_value(t[0]),
            digit_value(t[1]),
            digit_value(t[2]),
            digit_value(t[3]),
        );
        lemma_join_two(digit_value(t[4]), digit_value(t[5]));
        lemma_join_two(digit_value(t[6]), digit_value(t[7]));
        assert(id.digits() =~= t);
    }

    /// A valid identifier is written with eight digits, and reading them gives it back.
    pub proof fn lemma_digits(self)
        requires
            self.wf(),
        ensures
            is_token(self.digits()),
            Self::of_token(self.digits()) == self,
    {
        let t = self.digits();
        lemma_split_four(self.year());
        lemma_split_two(self.month());
        lemma_split_two(self.day());
        lemma_digit_values(self.year() / 1000);
        lemma_digit_values(self.year() / 100 % 10);
        lemma_digit_values(self.year() / 10 % 10);
        lemma_digit_values(self.year() % 10);
        lemma_digit_values(self.month() / 10);
        lemma_digit_values(self.month() % 10);
        lemma_digit_values(self.day() / 10);
        lemma_digit_values(self.day() % 10);
        assert(is_digit(t[0]) && is_digit(t[1]) && is_digit(t[2]) && is_digit(t[3]));
        assert(is_digit(t[4]) && is_digit(t[5]) && is_digit(t[6]) && is_digit(t[7]));
    }

    /// Two valid identifiers that are written alike are the same.
    pub proof fn lemma_digits_injective(a: PageIdentifier, b: PageIdentifier)
        requires
            a.wf(),
            b.wf(),
            a.digits() == b.digits(),
        ensures
            a == b,
    {
        a.lemma_digits();
        b.lemma_digits();
    }

    /// The first page is written `20021104`.
    pub proof fn lemma_first_page()
        ensures
            Self::first_page().wf(),
            Self::first_page().digits() == seq!['2', '0', '0', '2', '1', '1', '0', '4'],
    {
        assert(Self::first_page().digits() =~= seq!['2', '0', '0', '2', '1', '1', '0', '4']);
    }
}

/// The number that the character at place `i` of `token` stands for, if it is a digit.
fn digit_at(token: &str, i: usize) -> (r: Option<u8>)
    requires
        i < token@.len(),
    ensures
        r is Some <==> is_digit(token@[i as int]),
        r matches Some(d) ==> d == digit_value(token@[i as int]) && d <= 9,
{
    let c = token.get_char(i);
    if c >= '0' && c <= '9' {
        Some(c as u8 - 48u8)
    } else {
        None
    }
}

/// The one-character text that a number from 0 to 9 is written as.
fn digit_text(d: u8) -> (r: &'static str)
    requires
        d <= 9,
    ensures
        r@ == seq![digit_char(d as int)],
{
    proof {
        reveal_strlit("0");
        reveal_strlit("1");
        reveal_strlit("2");
        reveal_strlit("3");
        reveal_strlit("4");
        reveal_strlit("5");
        reveal_strlit("6");
        reveal_strlit("7");
        reveal_strlit("8");
        reveal_strlit("9");
    }
    let r = if d == 0 {
        "0"
    } else if d == 1 {
        "1"
    } else if d == 2 {
        "2"
    } else if d == 3 {
        "3"
    } else if d == 4 {
        "4"
    } else if d == 5 {
        "5"
    } else if d == 6 {
        "6"
    } else if d == 7 {
        "7"
    } else if d == 8 {
        "8"
    } else {
        "9"
    };
    assert(r@ =~= seq![digit_char(d as int)]);
    r
}

/// A digit character and the number it stands for determine each other.
proof fn lemma_digit_chars(c: char)
    requires
        is_digit(c),
    ensures
        0 <= digit_value(c) <= 9,
        digit_char(digit_value(c)) == c,
{
}

/// A number from 0 to 9 is written with one digit character.
proof fn lemma_digit_values(d: int)
    requires
        0 <= d <= 9,
    ensures
        is_digit(digit_char(d)),
        digit_value(digit_char(d)) == d,
{
}

/// Four decimal digits make a number below 10000 from which each can be read again.
proof fn lemma_join_four(a: int, b: int, c: int, d: int)
    requires
        0 <= a <= 9,
        0 <= b <= 9,
        0 <= c <= 9,
        0 <= d <= 9,
    ensures
        0 <= a * 1000 + b * 100 + c * 10 + d <= 9999,
        (a * 1000 + b * 100 + c * 10 + d) / 1000 == a,
        (a * 1000 + b * 100 + c * 10 + d) / 100 % 10 == b,
        (a * 1000 + b * 100 + c * 10 + d) / 10 % 10 == c,
        (a * 1000 + b * 100 + c * 10 + d) % 10 == d,
{
    let n = a * 1000 + b * 100 + c * 10 + d;
    lemma_fundamental_div_mod_converse(n, 1000, a, b * 100 + c * 10 + d);
    lemma_fundamental_div_mod_converse(n, 100, a * 10 + b, c * 10 + d);
    lemma_fundamental_div_mod_converse(a * 10 + b, 10, a, b);
    lemma_fundamental_div_mod_converse(n, 10, a * 100 + b * 10 + c, d);
    lemma_fundamental_div_mod_converse(a * 100 + b * 10 + c, 10, a * 10 + b, c);
}

/// Two decimal digits make a number below 100 from which each can be read again.
proof fn lemma_join_two(a: int, b: int)
    requires
        0 <= a <= 9,
        0 <= b <= 9,
    ensures
        0 <= a * 10 + b <= 99,
        (a * 10 + b) / 10 == a,
        (a * 10 + b) % 10 == b,
{
}

/// A number below 10000 is the sum of its four decimal digits, each in its place.
proof fn lemma_split_four(n: int)
    requires
        0 <= n <= 9999,
    ensures
        0 <= n / 1000 <= 9,
        0 <= n / 100 % 10 <= 9,
        0 <= n / 10 % 10 <= 9,
        0 <= n % 10 <= 9,
        n == (n / 1000) * 1000 + (n / 100 % 10) * 100 + (n / 10 % 10) * 10 + n % 10,
{
    let h = n / 100;
    let t = n / 10;
    lemma_fundamental_div_mod(n, 10);
    lemma_fundamental_div_mod(t, 10);
    lemma_fundamental_div_mod(h, 10);
    assert(t / 10 == h) by {
        lemma_div_denominator(n, 10, 10);
    }
    assert(h / 10 == n / 1000) by {
        lemma_div_denominator(n, 100, 10);
    }
}

/// A number below 100 is the sum of its two decimal digits, each in its place.
proof fn lemma_split_two(n: int)
    requires
        0 <= n <= 99,
    ensures
        0 <= n / 10 <= 9,
        0 <= n % 10 <= 9,
        n == (n / 10) * 10 + n % 10,
{
}

/// The least index of a run of eight digits is unique.
pub proof fn lemma_first_token_unique(text: Seq<char>, i: int, j: int)
    requires
        first_token_at(text, i),
        first_token_at(text, j),
    ensures
        i == j,
{
}

/// Where eight digits stand in a row at all, there is a first place where they do.
pub proof fn lemma_first_token_exists(text: Seq<char>, i: int)
    requires
        token_at(text, i),
    ensures
        exists|j: int| 0 <= j <= i && first_token_at(text, j),
    decreases i,
{
    if exists|j: int| 0 <= j < i && token_at(text, j) {
        let j = choose|j: int| 0 <= j < i && token_at(text, j);
        lemma_first_token_exists(text, j);
    } else {
        assert(first_token_at(text, i));
    }
}

/// What `first_token` is, given the place of the first run of eight digits.
pub proof fn lemma_first_token(text: Seq<char>, i: int)
    requires
        first_token_at(text, i),
    ensures
        has_token(text),
        first_token(text) == text.subrange(i, i + 8),
        is_token(first_token(text)),
{
    let j = choose|j: int| first_token_at(text, j);
    lemma_first_token_unique(text, i, j);
    let t = text.subrange(i, i + 8);
    assert forall|k: int| 0 <= k < 8 implies is_digit(#[trigger] t[k]) by {
        assert(is_digit(text[i + k]));
    }
}

/// Searches `text` with `regex::Regex::find` for the pattern of eight ASCII digits.
///
/// Trusted: the engine reports the leftmost place where the pattern matches, and
/// `[0-9]{8}` matches at a place exactly when the next eight characters are ASCII
/// digits. The result is the matched part of `text`, as `regex::Match::as_str`
/// gives it, or nothing where no place matches. The pattern compiles, so the
/// error of `regex::Regex::new` does not occur.
#[verifier::external_body]
pub(crate) fn first_match(pattern: &str, text: &str) -> (found: Option<String>)
    requires
        pattern@ == date_pattern(),
    ensures
        found matches Some(token) ==> exists|i: int|
            first_token_at(text@, i) && token@ == text@.subrange(i, i + 8),
        found is None ==> !has_token(text@),
{
    match regex::Regex::new(pattern) {
        Ok(re) => re.find(text).map(|m| m.as_str().to_string()),
        Err(_) => None,
    }
}

/// A run of eight digits in a text is what reading the text gives, unless an
/// earlier run reads otherwise: the text before and after it may be anything.
pub proof fn lemma_embedded_token(before: Seq<char>, token: Seq<char>, after: Seq<char>)
    requires
        is_token(token),
        forall|j: int|
            0 <= j < before.len() && first_token_at(before + token + after, j) ==> (before + token
                + after).subrange(j, j + 8) == token,
    ensures
        parsed(before + token + after) == Some(PageIdentifier::of_token(token)),
        parsed(before + token + after).unwrap().digits() == token,
{
    let text = before + token + after;
    let at = before.len() as int;
    assert(token_at(text, at)) by {
        assert forall|k: int| at <= k < at + 8 implies is_digit(#[trigger] text[k]) by {
            assert(text[k] == token[k - at]);
        }
    }
    assert(text.subrange(at, at + 8) =~= token);
    lemma_first_token_exists(text, at);
    let first = choose|j: int| 0 <= j <= at && first_token_at(text, j);
    lemma_first_token(text, first);
    PageIdentifier::lemma_of_token(token);
}

/// No character of the address prefix is a digit.
proof fn lemma_site_prefix()
    ensures
        site_prefix().len() == 48,
        forall|k: int| 0 <= k < 48 ==> !is_digit(#[trigger] site_prefix()[k]),
{
    reveal_strlit("https://www.girlgeniusonline.com/comic.php?date=");
}

/// Reading the address of a page gives the page back, so writing the address
/// again gives the same address.
pub proof fn lemma_url_round_trip(id: PageIdentifier)
    requires
        id.wf(),
    ensures
        parsed(url_of(id)) == Some(id),
        url_of(parsed(url_of(id)).unwrap()) == url_of(id),
{
    let text = url_of(id);
    id.lemma_digits();
    lemma_site_prefix();
    assert(text.subrange(48, 56) =~= id.digits());
    assert(token_at(text, 48)) by {
        assert forall|k: int| 48 <= k < 56 implies is_digit(#[trigger] text[k]) by {
            assert(text[k] == id.digits()[k - 48]);
        }
    }
    assert forall|j: int| 0 <= j < 48 implies !token_at(text, j) by {
        assert(text[j] == site_prefix()[j]);
    }
    lemma_first_token(text, 48);
}

} // verus!
