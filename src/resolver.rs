//! Resolving a request for a comic: by number, the latest, or a random one.
//!
//! A [`Resolution`] decides and the caller fetches. Each step hands the caller an
//! [`Action`]: fetch an address and give the answer back through
//! [`Resolution::on_response`], or finish with the outcome.
use vstd::prelude::*;
use crate::comics::{
    Comic,
    ComicView,
    decode_body,
    info_url,
    info_url_of,
    permalink,
    latest_info_url,
    latest_url,
    parse_comic,
};
use crate::errors::{Error, ErrorView};

verus! {

/// What a resolution is after.
#[derive(Clone, Copy, Debug, PartialEq, Eq, Structural)]
pub enum Goal {
    /// The comic with this number.
    Number(i32),
    /// The latest comic.
    Latest,
    /// A comic drawn uniformly from the first up to the latest.
    Random,
}

/// Where a resolution stands.
#[derive(Clone, Copy, Debug, PartialEq, Eq, Structural)]
pub enum Stage {
    /// Waiting for the latest comic, which gives the goal's bound or is the goal.
    AwaitingLatest(Goal),
    /// Waiting for the comic with this number.
    AwaitingComic(i32),
    /// Done; the last action carried the outcome.
    Finished,
}

/// What the caller is to do next.
#[derive(Debug)]
pub enum Action {
    /// Fetch the body at this address and hand it back.
    Fetch(String),
    /// Stop: this is the outcome.
    Finish(Result<Comic, Error>),
}

/// The mathematical value of an [`Action`].
pub enum ActionView {
    Fetch(Seq<char>),
    Finish(Result<ComicView, ErrorView>),
}

impl View for Action {
    type V = ActionView;

    open spec fn view(&self) -> ActionView {
        match self {
            Action::Fetch(url) => ActionView::Fetch(url@),
            Action::Finish(Ok(c)) => ActionView::Finish(Ok(c@)),
            Action::Finish(Err(e)) => ActionView::Finish(Err(e@)),
        }
    }
}

/// The value of a response handed back: the body, or the transport's diagnostic.
pub open spec fn response_view(r: Result<String, String>) -> Result<Seq<char>, Seq<char>> {
    match r {
        Ok(body) => Ok(body@),
        Err(detail) => Err(detail@),
    }
}

/// The first stage and action of a resolution after `goal`.
pub open spec fn start(goal: Goal) -> (Stage, ActionView) {
    match goal {
        Goal::Number(n) => if n <= 0 {
            (Stage::Finished, ActionView::Finish(Err(ErrorView::InvalidNumber(n))))
        } else {
            (Stage::AwaitingLatest(goal), ActionView::Fetch(latest_info_url()))
        },
        _ => (Stage::AwaitingLatest(goal), ActionView::Fetch(latest_info_url())),
    }
}

/// The stage and action that ask for comic `n`.
pub open spec fn toward(n: int) -> (Stage, ActionView) {
    (Stage::AwaitingComic(n as i32), ActionView::Fetch(info_url(n)))
}

/// The step from `stage` on `response`. For a random goal `pick` is the number drawn;
/// the other steps do not read it.
pub open spec fn transition(stage: Stage, response: Result<Seq<char>, Seq<char>>, pick: int) -> (
    Stage,
    ActionView,
) {
    match response {
        Err(detail) => (
            Stage::Finished,
            ActionView::Finish(Err(ErrorView::RequestError(detail))),
        ),
        Ok(body) => match stage {
            Stage::AwaitingComic(_) => (Stage::Finished, ActionView::Finish(decode_body(body))),
            Stage::AwaitingLatest(goal) => match decode_body(body) {
                Err(e) => (Stage::Finished, ActionView::Finish(Err(e))),
                Ok(latest) => match goal {
                    Goal::Latest => (Stage::Finished, ActionView::Finish(Ok(latest))),
                    Goal::Number(n) => if n > latest.number {
                        (Stage::Finished, ActionView::Finish(Err(ErrorView::InvalidNumber(n))))
                    } else {
                        toward(n as int)
                    },
                    Goal::Random => toward(pick),
                },
            },
            Stage::Finished => (Stage::Finished, ActionView::Fetch(Seq::empty())),
        },
    }
}

/// Whether `pick` may be drawn when `response` answers the request for the latest
/// comic: it lies between 1 and the latest comic's number.
pub open spec fn pick_fits(response: Result<Seq<char>, Seq<char>>, pick: int) -> bool {
    match response {
        Ok(body) => match decode_body(body) {
            Ok(latest) => 1 <= pick <= latest.number,
            Err(_) => true,
        },
        Err(_) => true,
    }
}

/// Relies on `rand::Rng::gen_range` on `rand::thread_rng()`: a number drawn
/// uniformly from `lo..=hi`. It panics on an empty range, which `requires` rules out.
#[verifier::external_body]
fn draw_between(lo: i32, hi: i32) -> (r: i32)
    requires
        lo <= hi,
    ensures
        lo <= r <= hi,
{
    rand::Rng::gen_range(&mut rand::thread_rng(), lo..=hi)
}

/// A request for a comic in progress.
#[derive(Clone, Copy, Debug, PartialEq, Eq, Structural)]
pub struct Resolution {
    pub stage: Stage,
}

impl Resolution {
    fn begin(goal: Goal) -> (r: (Resolution, Action))
        ensures
            (r.0.stage, r.1@) == start(goal),
    {
        match goal {
            Goal::Number(n) => {
                if n <= 0 {
                    return (
                        Resolution { stage: Stage::Finished },
                        Action::Finish(Err(Error::InvalidNumber(n))),
                    );
                }
            },
            _ => {},
        }
        (Resolution { stage: Stage::AwaitingLatest(goal) }, Action::Fetch(latest_url()))
    }

    /// Whether the resolution is done.
    pub fn is_finished(&self) -> (r: bool)
        ensures
            r == (self.stage is Finished),
    {
        match self.stage {
            Stage::Finished => true,
            _ => false,
        }
    }

    fn aim(&mut self, n: i32) -> (a: Action)
        ensures
            (final(self).stage, a@) == toward(n as int),
    {
        self.stage = Stage::AwaitingComic(n);
        Action::Fetch(info_url_of(n))
    }

    fn finish(&mut self, outcome: Result<Comic, Error>) -> (a: Action)
        ensures
            final(self).stage is Finished,
            a@ == ActionView::Finish(
                match outcome {
                    Ok(c) => Ok(c@),
                    Err(e) => Err(e@),
                },
            ),
    {
        self.stage = Stage::Finished;
        Action::Finish(outcome)
    }

    /// Takes the answer to the last `Fetch`: the body, or the transport's diagnostic.
    /// A random goal draws its number here, between 1 and the latest comic's number.
    pub fn on_response(&mut self, response: Result<String, String>) -> (a: Action)
        requires
            !(old(self).stage is Finished),
        ensures
            exists|pick: int|
                pick_fits(response_view(response), pick) && (final(self).stage, a@) == transition(
                    old(self).stage,
                    response_view(response),
                    pick,
                ),
    {
        let ghost resp = response_view(response);
        proof {
            if let Ok(b) = resp {
                crate::comics::lemma_decoded_comic_wf(b);
            }
            assert(pick_fits(resp, 1));
        }
        let body = match response {
            Ok(b) => b,
            Err(detail) => {
                return self.finish(Err(Error::RequestError(detail)));
            },
        };
        match self.stage {
            Stage::AwaitingComic(_) => self.finish(parse_comic(body.as_str())),
            Stage::AwaitingLatest(goal) => match parse_comic(body.as_str()) {
                Err(e) => self.finish(Err(e)),
                Ok(latest) => match goal {
                    Goal::Latest => self.finish(Ok(latest)),
                    Goal::Number(n) => {
                        if n > latest.number {
                            self.finish(Err(Error::InvalidNumber(n)))
                        } else {
                            self.aim(n)
                        }
                    },
                    Goal::Random => {
                        let k = draw_between(1, latest.number);
                        let a = self.aim(k);
                        assert(pick_fits(resp, k as int));
                        a
                    },
                },
            },
            Stage::Finished => Action::Fetch(String::new()),
        }
    }
}

/// How a lookup of comic `n` ends, given `latest`, the answer to the request for the
/// latest comic, and `target`, the answer to the request for comic `n`. An answer to
/// a request that is never made goes unread.
pub open spec fn number_outcome(
    n: i32,
    latest: Result<Seq<char>, Seq<char>>,
    target: Result<Seq<char>, Seq<char>>,
) -> ActionView {
    let first = start(Goal::Number(n));
    if first.0 is Finished {
        first.1
    } else {
        let second = transition(first.0, latest, 0);
        if second.0 is Finished {
            second.1
        } else {
            transition(second.0, target, 0).1
        }
    }
}

/// How a lookup of the latest comic ends, given the answer to its request.
pub open spec fn latest_outcome(latest: Result<Seq<char>, Seq<char>>) -> ActionView {
    transition(start(Goal::Latest).0, latest, 0).1
}

/// How a random lookup ends, given the answer to the request for the latest comic,
/// the number drawn, and the answer to the request for the drawn comic.
pub open spec fn random_outcome(
    latest: Result<Seq<char>, Seq<char>>,
    pick: int,
    target: Result<Seq<char>, Seq<char>>,
) -> ActionView {
    let second = transition(start(Goal::Random).0, latest, pick);
    if second.0 is Finished {
        second.1
    } else {
        transition(second.0, target, pick).1
    }
}

/// A lookup by number is deterministic: once `n` is within the bound, the outcome is
/// what the answer for comic `n` decodes to, whichever latest comic the bound came
/// from. Two lookups of a published comic that get the same answer for it end
/// with the same comic.
pub proof fn lemma_lookup_deterministic(
    n: i32,
    latest1: Seq<char>,
    latest2: Seq<char>,
    target: Result<Seq<char>, Seq<char>>,
)
    requires
        1 <= n,
        decode_body(latest1) matches Ok(c) && n <= c.number,
        decode_body(latest2) matches Ok(c) && n <= c.number,
    ensures
        number_outcome(n, Ok(latest1), target) == number_outcome(n, Ok(latest2), target),
        number_outcome(n, Ok(latest1), target) == transition(Stage::AwaitingComic(n), target, 0).1,
{
}

/// A number below 1 is rejected with `InvalidNumber` before anything is fetched, and
/// a number beyond the latest comic's is rejected with `InvalidNumber` after the
/// latest comic alone is fetched.
pub proof fn lemma_bounds_rejection(
    n: i32,
    latest: Result<Seq<char>, Seq<char>>,
    target: Result<Seq<char>, Seq<char>>,
)
    ensures
        n <= 0 ==> start(Goal::Number(n)) == (
            Stage::Finished,
            ActionView::Finish(Err(ErrorView::InvalidNumber(n))),
        ),
        n <= 0 ==> number_outcome(n, latest, target) == ActionView::Finish(
            Err(ErrorView::InvalidNumber(n)),
        ),
        (latest matches Ok(b) && decode_body(b) matches Ok(c) && n > c.number) ==> transition(
            start(Goal::Number(n)).0,
            latest,
            0,
        ) == (Stage::Finished, ActionView::Finish(Err(ErrorView::InvalidNumber(n)))),
        (latest matches Ok(b) && decode_body(b) matches Ok(c) && n > c.number) ==> number_outcome(
            n,
            latest,
            target,
        ) == ActionView::Finish(Err(ErrorView::InvalidNumber(n))),
{
}

/// The latest comic, looked up by its own number, is the latest comic: where the
/// comic's address answers as the latest address did, both lookups end with it.
pub proof fn lemma_latest_consistency(body: Seq<char>, latest: ComicView)
    requires
        decode_body(body) == Ok::<ComicView, ErrorView>(latest),
    ensures
        latest_outcome(Ok(body)) == ActionView::Finish(Ok(latest)),
        number_outcome(latest.number, Ok(body), Ok(body)) == latest_outcome(Ok(body)),
{
    crate::comics::lemma_decoded_comic_wf(body);
}

/// A random lookup asks for a number between 1 and the latest comic's number, and
/// ends as a lookup of that number would, given the same answers.
pub proof fn lemma_random_validity(
    latest_body: Seq<char>,
    latest: ComicView,
    pick: int,
    target: Result<Seq<char>, Seq<char>>,
)
    requires
        decode_body(latest_body) == Ok::<ComicView, ErrorView>(latest),
        pick_fits(Ok(latest_body), pick),
    ensures
        1 <= pick <= latest.number,
        transition(start(Goal::Random).0, Ok(latest_body), pick) == toward(pick),
        random_outcome(Ok(latest_body), pick, target) == number_outcome(
            pick as i32,
            Ok(latest_body),
            target,
        ),
{
    crate::comics::lemma_decoded_comic_wf(latest_body);
}

/// Every comic that a resolution finishes with has a positive number, a real date,
/// and the page that its number gives, which is also the stem of the address that
/// the comic is requested at.
pub proof fn lemma_permalink_derivation(
    stage: Stage,
    response: Result<Seq<char>, Seq<char>>,
    pick: int,
)
    ensures
        transition(stage, response, pick).1 matches ActionView::Finish(Ok(c)) ==> c.wf() && c.url
            == permalink(c.number as int) && info_url(c.number as int) == c.url + "/info.0.json"@,
{
    if let Ok(body) = response {
        crate::comics::lemma_decoded_comic_wf(body);
    }
}

impl Comic {
    /// Starts the lookup of comic `comic_num`. A number below 1 finishes at once with
    /// `InvalidNumber`, with nothing fetched; any other first asks for the latest comic,
    /// whose number bounds the request.
    pub fn get_comic(comic_num: i32) -> (r: (Resolution, Action))
        ensures
            (r.0.stage, r.1@) == start(Goal::Number(comic_num)),
    {
        Resolution::begin(Goal::Number(comic_num))
    }

    /// Starts the lookup of the latest comic.
    pub fn get_latest_comic() -> (r: (Resolution, Action))
        ensures
            (r.0.stage, r.1@) == start(Goal::Latest),
    {
        Resolution::begin(Goal::Latest)
    }

    /// Starts the lookup of a random comic: the latest comic first, then one drawn
    /// uniformly between 1 and its number.
    pub fn get_random_comic() -> (r: (Resolution, Action))
        ensures
            (r.0.stage, r.1@) == start(Goal::Random),
    {
        Resolution::begin(Goal::Random)
    }
}

} // verus!
