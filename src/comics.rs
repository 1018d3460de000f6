//! Comics, their addresses, and the decoding of the API's responses.
use vstd::prelude::*;
use vstd::string::*;
use crate::calendar::{ComicDate, is_calendar_date, MIN_YEAR, MAX_YEAR};
use crate::errors::{Error, ErrorView};
use crate::json::{JsonMember, json_object, parse_object, text_member, integer_member};
use crate::numerals::{int_text, numeral_value, decimal_text};

verus! {

/// The canonical page of comic `n`.
pub open spec fn permalink(n: int) -> Seq<char> {
    "http://xkcd.com/"@ + int_text(n)
}

/// The API address of comic `n`.
pub open spec fn info_url(n: int) -> Seq<char> {
    permalink(n) + "/info.0.json"@
}

/// The API address of the latest comic.
pub open spec fn latest_info_url() -> Seq<char> {
    "http://xkcd.com/info.0.json"@
}

/// The canonical page of comic `n`: `http://xkcd.com/{n}`.
pub fn permalink_of(n: i32) -> (r: String)
    ensures
        r@ == permalink(n as int),
{
    let mut s = String::from_str("http://xkcd.com/");
    let digits = decimal_text(n);
    s.append(digits.as_str());
    s
}

/// The API address of comic `n`: `http://xkcd.com/{n}/info.0.json`.
pub fn info_url_of(n: i32) -> (r: String)
    ensures
        r@ == info_url(n as int),
{
    let mut s = permalink_of(n);
    s.append("/info.0.json");
    s
}

/// The API address of the latest comic: `http://xkcd.com/info.0.json`.
pub fn latest_url() -> (r: String)
    ensures
        r@ == latest_info_url(),
{
    String::from_str("http://xkcd.com/info.0.json")
}

/// One comic, as the API describes it.
#[derive(Clone, Debug, PartialEq, Eq)]
pub struct Comic {
    /// Title of the comic.
    pub title: String,
    /// Canonical page of the comic, `http://xkcd.com/{number}`.
    pub url: String,
    /// Address of the comic's image.
    pub img_url: String,
    /// Alt text, shown as the image's tooltip; may be empty.
    pub alt_text: String,
    /// Number of the comic, from 1 up.
    pub number: i32,
    /// Day the comic was published.
    pub date: ComicDate,
}

/// The mathematical value of a [`Comic`].
pub struct ComicView {
    pub title: Seq<char>,
    pub url: Seq<char>,
    pub img_url: Seq<char>,
    pub alt_text: Seq<char>,
    pub number: i32,
    pub date: ComicDate,
}

impl View for Comic {
    type V = ComicView;

    open spec fn view(&self) -> ComicView {
        ComicView {
            title: self.title@,
            url: self.url@,
            img_url: self.img_url@,
            alt_text: self.alt_text@,
            number: self.number,
            date: self.date,
        }
    }
}

impl ComicView {
    /// A comic has a positive number, the page that its number gives, and a real date.
    pub open spec fn wf(&self) -> bool {
        &&& self.number >= 1
        &&& self.url == permalink(self.number as int)
        &&& self.date.wf()
    }
}

/// The value of a lookup's outcome.
pub open spec fn outcome_view(r: Result<Comic, Error>) -> Result<ComicView, ErrorView> {
    match r {
        Ok(c) => Ok(c@),
        Err(e) => Err(e@),
    }
}

/// The view of an optional text.
pub open spec fn text_view(t: Option<String>) -> Option<Seq<char>> {
    match t {
        Some(s) => Some(s@),
        None => None,
    }
}

/// The members of a response that a comic is made from, each as found: `None`
/// where it is absent or not of its JSON type (an integer for `num`, a string for
/// the others).
#[derive(Clone, Debug)]
pub struct ResponseFields {
    pub num: Option<i64>,
    pub title: Option<String>,
    pub img: Option<String>,
    pub alt: Option<String>,
    pub year: Option<String>,
    pub month: Option<String>,
    pub day: Option<String>,
}

/// The mathematical value of [`ResponseFields`].
pub struct FieldsView {
    pub num: Option<int>,
    pub title: Option<Seq<char>>,
    pub img: Option<Seq<char>>,
    pub alt: Option<Seq<char>>,
    pub year: Option<Seq<char>>,
    pub month: Option<Seq<char>>,
    pub day: Option<Seq<char>>,
}

impl View for ResponseFields {
    type V = FieldsView;

    open spec fn view(&self) -> FieldsView {
        FieldsView {
            num: match self.num {
                Some(n) => Some(n as int),
                None => None,
            },
            title: text_view(self.title),
            img: text_view(self.img),
            alt: text_view(self.alt),
            year: text_view(self.year),
            month: text_view(self.month),
            day: text_view(self.day),
        }
    }
}

/// The string member `key` of a parsed object, if there is one.
pub open spec fn member_text(doc: Option<Map<Seq<char>, JsonMember>>, key: Seq<char>) -> Option<
    Seq<char>,
> {
    match doc {
        Some(m) => if m.contains_key(key) {
            match m[key] {
                JsonMember::Text(t) => Some(t),
                _ => None,
            }
        } else {
            None
        },
        None => None,
    }
}

/// The integer member `key` of a parsed object, if there is one.
pub open spec fn member_integer(doc: Option<Map<Seq<char>, JsonMember>>, key: Seq<char>) -> Option<
    int,
> {
    match doc {
        Some(m) => if m.contains_key(key) {
            match m[key] {
                JsonMember::Integer(i) => Some(i),
                _ => None,
            }
        } else {
            None
        },
        None => None,
    }
}

/// The comic fields found in a parsed response; a response that is not a JSON
/// object has none.
pub open spec fn fields_in(doc: Option<Map<Seq<char>, JsonMember>>) -> FieldsView {
    FieldsView {
        num: member_integer(doc, "num"@),
        title: member_text(doc, "title"@),
        img: member_text(doc, "img"@),
        alt: member_text(doc, "alt"@),
        year: member_text(doc, "year"@),
        month: member_text(doc, "month"@),
        day: member_text(doc, "day"@),
    }
}

/// A text field read as a `u32` numeral.
pub open spec fn unsigned_field(t: Option<Seq<char>>) -> Option<int> {
    match t {
        Some(s) => match numeral_value(s, false) {
            Some(v) => if 0 <= v <= u32::MAX {
                Some(v)
            } else {
                None
            },
            None => None,
        },
        None => None,
    }
}

/// A text field read as an `i32` numeral.
pub open spec fn signed_field(t: Option<Seq<char>>) -> Option<int> {
    match t {
        Some(s) => match numeral_value(s, true) {
            Some(v) => if i32::MIN <= v <= i32::MAX {
                Some(v)
            } else {
                None
            },
            None => None,
        },
        None => None,
    }
}

/// The field to blame for a year, month and day that name no day.
pub open spec fn date_culprit(year: int, month: int) -> Seq<char> {
    if !(1 <= month <= 12) {
        "month"@
    } else if !(MIN_YEAR <= year <= MAX_YEAR) {
        "year"@
    } else {
        "day"@
    }
}

/// The comic that the fields describe, or the first field, in the order `num`,
/// `month`, `day`, `year`, `title`, `img`, `alt`, that is absent or malformed.
pub open spec fn decode(f: FieldsView) -> Result<ComicView, ErrorView> {
    if !(f.num matches Some(n) && 1 <= n <= i32::MAX) {
        Err(ErrorView::DecodeError("num"@))
    } else if unsigned_field(f.month) is None {
        Err(ErrorView::DecodeError("month"@))
    } else if unsigned_field(f.day) is None {
        Err(ErrorView::DecodeError("day"@))
    } else if signed_field(f.year) is None {
        Err(ErrorView::DecodeError("year"@))
    } else if !is_calendar_date(
        signed_field(f.year)->0,
        unsigned_field(f.month)->0,
        unsigned_field(f.day)->0,
    ) {
        Err(
            ErrorView::DecodeError(
                date_culprit(signed_field(f.year)->0, unsigned_field(f.month)->0),
            ),
        )
    } else if f.title is None {
        Err(ErrorView::DecodeError("title"@))
    } else if f.img is None {
        Err(ErrorView::DecodeError("img"@))
    } else if f.alt is None {
        Err(ErrorView::DecodeError("alt"@))
    } else {
        Ok(
            ComicView {
                title: f.title->0,
                url: permalink(f.num->0),
                img_url: f.img->0,
                alt_text: f.alt->0,
                number: f.num->0 as i32,
                date: ComicDate {
                    year: signed_field(f.year)->0 as i32,
                    month: unsigned_field(f.month)->0 as u32,
                    day: unsigned_field(f.day)->0 as u32,
                },
            },
        )
    }
}

/// What a response body decodes to.
pub open spec fn decode_body(body: Seq<char>) -> Result<ComicView, ErrorView> {
    decode(fields_in(json_object(body)))
}

/// A body that decodes gives a well-formed comic.
pub proof fn lemma_decoded_comic_wf(body: Seq<char>)
    ensures
        decode_body(body) matches Ok(c) ==> c.wf(),
{
}

fn decode_error(field: &str) -> (r: Error)
    ensures
        r@ == ErrorView::DecodeError(field@),
{
    Error::DecodeError(String::from_str(field))
}

fn unsigned_of(t: &Option<String>) -> (r: Option<u32>)
    ensures
        r is Some <==> unsigned_field(text_view(*t)) is Some,
        r matches Some(v) ==> unsigned_field(text_view(*t)) == Some(v as int),
{
    match t {
        Some(s) => crate::numerals::parse_u32(s.as_str()),
        None => None,
    }
}

fn signed_of(t: &Option<String>) -> (r: Option<i32>)
    ensures
        r is Some <==> signed_field(text_view(*t)) is Some,
        r matches Some(v) ==> signed_field(text_view(*t)) == Some(v as int),
{
    match t {
        Some(s) => crate::numerals::parse_i32(s.as_str()),
        None => None,
    }
}

impl ResponseFields {
    /// The comic fields of a response body.
    pub fn read(body: &str) -> (r: ResponseFields)
        ensures
            r@ == fields_in(json_object(body@)),
    {
        match parse_object(body) {
            Some(m) => ResponseFields {
                num: integer_member(&m, "num"),
                title: text_member(&m, "title"),
                img: text_member(&m, "img"),
                alt: text_member(&m, "alt"),
                year: text_member(&m, "year"),
                month: text_member(&m, "month"),
                day: text_member(&m, "day"),
            },
            None => ResponseFields {
                num: None,
                title: None,
                img: None,
                alt: None,
                year: None,
                month: None,
                day: None,
            },
        }
    }
}

/// Builds the comic that `fields` describe, or names the first field that is
/// absent or malformed.
pub fn decode_fields(fields: &ResponseFields) -> (r: Result<Comic, Error>)
    ensures
        outcome_view(r) == decode(fields@),
        r matches Ok(c) ==> c@.wf(),
{
    let num: i32 = match fields.num {
        Some(n) => {
            if 1 <= n && n <= i32::MAX as i64 {
                n as i32
            } else {
                return Err(decode_error("num"));
            }
        },
        None => {
            return Err(decode_error("num"));
        },
    };
    let month = match unsigned_of(&fields.month) {
        Some(m) => m,
        None => {
            return Err(decode_error("month"));
        },
    };
    let day = match unsigned_of(&fields.day) {
        Some(d) => d,
        None => {
            return Err(decode_error("day"));
        },
    };
    let year = match signed_of(&fields.year) {
        Some(y) => y,
        None => {
            return Err(decode_error("year"));
        },
    };
    let date = match ComicDate::new(year, month, day) {
        Some(d) => d,
        None => {
            if month < 1 || month > 12 {
                return Err(decode_error("month"));
            } else if year < MIN_YEAR || year > MAX_YEAR {
                return Err(decode_error("year"));
            } else {
                return Err(decode_error("day"));
            }
        },
    };
    let title = match &fields.title {
        Some(t) => t.clone(),
        None => {
            return Err(decode_error("title"));
        },
    };
    let img_url = match &fields.img {
        Some(t) => t.clone(),
        None => {
            return Err(decode_error("img"));
        },
    };
    let alt_text = match &fields.alt {
        Some(t) => t.clone(),
        None => {
            return Err(decode_error("alt"));
        },
    };
    Ok(Comic { title, url: permalink_of(num), img_url, alt_text, number: num, date })
}

/// Decodes a response body of the comic API into a comic.
pub fn parse_comic(body: &str) -> (r: Result<Comic, Error>)
    ensures
        outcome_view(r) == decode_body(body@),
        r matches Ok(c) ==> c@.wf(),
{
    let fields = ResponseFields::read(body);
    decode_fields(&fields)
}

impl Comic {
    /// The comic's title.
    pub fn get_title(&self) -> (r: String)
        ensures
            r@ == self.title@,
    {
        self.title.clone()
    }

    /// The comic's page.
    pub fn get_url(&self) -> (r: String)
        ensures
            r@ == self.url@,
    {
        self.url.clone()
    }

    /// The address of the comic's image.
    pub fn get_img_url(&self) -> (r: String)
        ensures
            r@ == self.img_url@,
    {
        self.img_url.clone()
    }

    /// The comic's alt text.
    pub fn get_alt_text(&self) -> (r: String)
        ensures
            r@ == self.alt_text@,
    {
        self.alt_text.clone()
    }

    /// The comic's number.
    pub fn get_number(&self) -> (r: i32)
        ensures
            r == self.number,
    {
        self.number
    }

    /// The day the comic was published.
    pub fn get_date(&self) -> (r: ComicDate)
        ensures
            r == self.date,
    {
        self.date
    }
}

} // verus!
