use rusty_xkcd::{Action, Comic, ComicDate, Error, Resolution};

const LATEST_NUMBER: i32 = 2950;

fn comic_body(num: i32) -> String {
    if num == 589 {
        String::from(
            "{\"month\": \"5\", \"num\": 589, \"year\": \"2009\", \
             \"alt\": \"Calling a cab means cutting into beer money.\", \
             \"img\": \"https://imgs.xkcd.com/comics/designated_drivers.png\", \
             \"title\": \"Designated Drivers\", \"day\": \"27\"}",
        )
    } else {
        format!(
            "{{\"month\": \"6\", \"num\": {}, \"year\": \"2024\", \"alt\": \"\", \
             \"img\": \"https://imgs.xkcd.com/comics/c{}.png\", \"title\": \"Comic {}\", \"day\": \"1\"}}",
            num, num, num
        )
    }
}

/// Answers as the comic API would, for comics 1 up to `LATEST_NUMBER`.
fn upstream(url: &str) -> Result<String, String> {
    if url == "http://xkcd.com/info.0.json" {
        return Ok(comic_body(LATEST_NUMBER));
    }
    let num = url
        .strip_prefix("http://xkcd.com/")
        .and_then(|rest| rest.strip_suffix("/info.0.json"))
        .and_then(|n| n.parse::<i32>().ok());
    match num {
        Some(n) if 1 <= n && n <= LATEST_NUMBER => Ok(comic_body(n)),
        _ => Err(format!("404 Not Found: {}", url)),
    }
}

fn get_comic(num: i32) -> Result<Comic, Error> {
    let (mut resolution, mut action): (Resolution, Action) = Comic::get_comic(num);
    loop {
        match action {
            Action::Fetch(url) => action = resolution.on_response(upstream(&url)),
            Action::Finish(outcome) => return outcome,
        }
    }
}

#[test]
fn comic_tests_get_comic_test() {
    let test_comic: Comic = get_comic(589).unwrap();
    let control_comic: Comic = Comic {
        title: String::from("Designated Drivers"),
        // The permalink is written without a trailing slash, everywhere.
        url: String::from("http://xkcd.com/589"),
        img_url: String::from("https://imgs.xkcd.com/comics/designated_drivers.png"),
        alt_text: String::from("Calling a cab means cutting into beer money."),
        number: 589,
        date: ComicDate { year: 2009, month: 5, day: 27 },
    };

    assert_eq!(test_comic.title, control_comic.title);
    assert_eq!(test_comic.url, control_comic.url);
    assert_eq!(test_comic.img_url, control_comic.img_url);
    assert_eq!(test_comic.alt_text, control_comic.alt_text);
    assert_eq!(test_comic.number, control_comic.number);
    assert_eq!(test_comic.date, control_comic.date);
}

#[test]
#[should_panic]
fn comic_higher_than_bounds_test() {
    let _test_comic: Comic = get_comic(999999999).unwrap();
}

#[test]
#[should_panic]
fn comic_lower_than_bounds_test() {
    let _test_comic: Comic = get_comic(-1).unwrap();
}
