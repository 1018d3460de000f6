//! Explanations of comics, from the explain xkcd wiki.
use vstd::prelude::*;
use vstd::string::*;
use crate::comics::Comic;
use crate::errors::{Error, ErrorView};
use crate::numerals::{decimal_text, int_text};
use crate::resolver::{Action, Goal, Resolution, start};

verus! {

/// The wiki page that explains comic `n`.
pub open spec fn explanation_page(n: int) -> Seq<char> {
    "https://www.explainxkcd.com/wiki/index.php/"@ + int_text(n)
}

/// The comic's own page, as the wiki links it.
pub open spec fn comic_page(n: int) -> Seq<char> {
    "https://xkcd.com/"@ + int_text(n)
}

/// The wiki page that explains comic `num`:
/// `https://www.explainxkcd.com/wiki/index.php/{num}`.
pub fn explanation_url_of(num: i32) -> (r: String)
    ensures
        r@ == explanation_page(num as int),
{
    let mut s = String::from_str("https://www.explainxkcd.com/wiki/index.php/");
    let digits = decimal_text(num);
    s.append(digits.as_str());
    s
}

/// The explanation of one comic.
#[derive(Clone, Debug, PartialEq, Eq)]
pub struct Explanation {
    /// The wiki page as retrieved; no rule cuts the explanation section out of it.
    pub explanation: String,
    /// The wiki page's address.
    pub explanation_url: String,
    /// The comic's page.
    pub xkcd_url: String,
    /// The comic's number.
    pub xkcd_num: i32,
}

/// The explanation of comic `num` that the wiki page `html` gives.
pub fn parse_html(html: &str, num: i32) -> (r: Explanation)
    ensures
        r.explanation@ == html@,
        r.explanation_url@ == explanation_page(num as int),
        r.xkcd_url@ == comic_page(num as int),
        r.xkcd_num == num,
{
    let mut xkcd_url = String::from_str("https://xkcd.com/");
    let digits = decimal_text(num);
    xkcd_url.append(digits.as_str());
    Explanation {
        explanation: String::from_str(html),
        explanation_url: explanation_url_of(num),
        xkcd_url,
        xkcd_num: num,
    }
}

impl Explanation {
    /// The explanation of comic `num`, from the answer to a request for
    /// `explanation_url_of(num)`: the page, or the transport's diagnostic.
    pub fn explain(num: i32, page: Result<String, String>) -> (r: Result<Explanation, Error>)
        ensures
            page matches Err(d) ==> r matches Err(e) && e@ == ErrorView::RequestError(d@),
            page matches Ok(html) ==> r matches Ok(x) && x.explanation@ == html@
                && x.explanation_url@ == explanation_page(num as int) && x.xkcd_url@
                == comic_page(num as int) && x.xkcd_num == num,
    {
        match page {
            Ok(html) => Ok(parse_html(html.as_str(), num)),
            Err(detail) => Err(Error::RequestError(detail)),
        }
    }

    /// Starts the lookup of the comic that this explains.
    pub fn get_comic(&self) -> (r: (Resolution, Action))
        ensures
            (r.0.stage, r.1@) == start(Goal::Number(self.xkcd_num)),
    {
        Comic::get_comic(self.xkcd_num)
    }

    /// Starts the lookup of the comic that this explains.
    pub fn get_xkcd(&self) -> (r: (Resolution, Action))
        ensures
            (r.0.stage, r.1@) == start(Goal::Number(self.xkcd_num)),
    {
        self.get_comic()
    }

    /// The explanation's text.
    pub fn get_explanation(&self) -> (r: String)
        ensures
            r@ == self.explanation@,
    {
        self.explanation.clone()
    }

    /// The wiki page's address.
    pub fn get_explanation_url(&self) -> (r: String)
        ensures
            r@ == self.explanation_url@,
    {
        self.explanation_url.clone()
    }

    /// The comic's page.
    pub fn get_xkcd_url(&self) -> (r: String)
        ensures
            r@ == self.xkcd_url@,
    {
        self.xkcd_url.clone()
    }

    /// The comic's number.
    pub fn get_xkcd_number(&self) -> (r: i32)
        ensures
            r == self.xkcd_num,
    {
        self.xkcd_num
    }
}

impl Comic {
    /// The explanation of this comic, from the answer to a request for
    /// `explanation_url_of(self.number)`.
    pub fn explain(&self, page: Result<String, String>) -> (r: Result<Explanation, Error>)
        ensures
            page matches Err(d) ==> r matches Err(e) && e@ == ErrorView::RequestError(d@),
            page matches Ok(html) ==> r matches Ok(x) && x.explanation@ == html@
                && x.explanation_url@ == explanation_page(self.number as int) && x.xkcd_url@
                == comic_page(self.number as int) && x.xkcd_num == self.number,
    {
        Explanation::explain(self.number, page)
    }
}

} // verus!
