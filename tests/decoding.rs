use rusty_xkcd::{decode_fields, parse_comic, ComicDate, Error, ResponseFields};

fn full_fields() -> ResponseFields {
    ResponseFields {
        num: Some(589),
        title: Some(String::from("Designated Drivers")),
        img: Some(String::from("https://imgs.xkcd.com/comics/designated_drivers.png")),
        alt: Some(String::from("Calling a cab means cutting into beer money.")),
        year: Some(String::from("2009")),
        month: Some(String::from("5")),
        day: Some(String::from("27")),
    }
}

fn decode_error(field: &str) -> Error {
    Error::DecodeError(String::from(field))
}

const BODY_589: &str = "{\"month\": \"5\", \"num\": 589, \"link\": \"\", \"year\": \"2009\", \
    \"news\": \"\", \"safe_title\": \"Designated Drivers\", \"transcript\": \"\", \
    \"alt\": \"Calling a cab means cutting into beer money.\", \
    \"img\": \"https://imgs.xkcd.com/comics/designated_drivers.png\", \
    \"title\": \"Designated Drivers\", \"day\": \"27\"}";

#[test]
fn decodes_a_complete_response() {
    let comic = decode_fields(&full_fields()).unwrap();
    assert_eq!(comic.title, "Designated Drivers");
    assert_eq!(comic.url, "http://xkcd.com/589");
    assert_eq!(comic.img_url, "https://imgs.xkcd.com/comics/designated_drivers.png");
    assert_eq!(comic.alt_text, "Calling a cab means cutting into beer money.");
    assert_eq!(comic.number, 589);
    assert_eq!(comic.date, ComicDate { year: 2009, month: 5, day: 27 });
}

#[test]
fn parses_a_response_body() {
    let comic = parse_comic(BODY_589).unwrap();
    assert_eq!(comic.title, "Designated Drivers");
    assert_eq!(comic.url, "http://xkcd.com/589");
    assert_eq!(comic.img_url, "https://imgs.xkcd.com/comics/designated_drivers.png");
    assert_eq!(comic.alt_text, "Calling a cab means cutting into beer money.");
    assert_eq!(comic.number, 589);
    assert_eq!(comic.date, ComicDate { year: 2009, month: 5, day: 27 });
}

#[test]
fn body_without_alt_is_a_decode_error() {
    let body = "{\"month\": \"5\", \"num\": 589, \"year\": \"2009\", \
        \"img\": \"https://imgs.xkcd.com/comics/designated_drivers.png\", \
        \"title\": \"Designated Drivers\", \"day\": \"27\"}";
    assert_eq!(parse_comic(body), Err(decode_error("alt")));
}

#[test]
fn fields_without_alt_are_a_decode_error() {
    let mut fields = full_fields();
    fields.alt = None;
    assert_eq!(decode_fields(&fields), Err(decode_error("alt")));
}

#[test]
fn empty_alt_text_is_kept() {
    let mut fields = full_fields();
    fields.alt = Some(String::new());
    assert_eq!(decode_fields(&fields).unwrap().alt_text, "");
}

#[test]
fn body_that_is_not_json_lacks_every_field() {
    assert_eq!(parse_comic("<html>not json</html>"), Err(decode_error("num")));
    assert_eq!(parse_comic(""), Err(decode_error("num")));
    assert_eq!(parse_comic("[1, 2, 3]"), Err(decode_error("num")));
}

#[test]
fn num_must_be_a_positive_integer() {
    let with_num = |num: &str| {
        parse_comic(&format!(
            "{{\"month\": \"5\", \"num\": {}, \"year\": \"2009\", \"alt\": \"a\", \
             \"img\": \"i\", \"title\": \"t\", \"day\": \"27\"}}",
            num
        ))
    };
    assert_eq!(with_num("\"589\""), Err(decode_error("num")));
    assert_eq!(with_num("589.5"), Err(decode_error("num")));
    assert_eq!(with_num("0"), Err(decode_error("num")));
    assert_eq!(with_num("-4"), Err(decode_error("num")));
    assert_eq!(with_num("2147483648"), Err(decode_error("num")));
    assert_eq!(with_num("null"), Err(decode_error("num")));
    assert_eq!(with_num("2147483647").unwrap().number, 2147483647);
    assert_eq!(with_num("1").unwrap().url, "http://xkcd.com/1");
}

#[test]
fn fields_are_checked_in_order() {
    let mut fields = full_fields();
    fields.title = None;
    fields.alt = None;
    assert_eq!(decode_fields(&fields), Err(decode_error("title")));
    fields.img = None;
    assert_eq!(decode_fields(&fields), Err(decode_error("title")));
    fields.year = None;
    assert_eq!(decode_fields(&fields), Err(decode_error("year")));
    fields.day = None;
    assert_eq!(decode_fields(&fields), Err(decode_error("day")));
    fields.month = None;
    assert_eq!(decode_fields(&fields), Err(decode_error("month")));
    fields.num = None;
    assert_eq!(decode_fields(&fields), Err(decode_error("num")));
}

#[test]
fn missing_title_and_img_are_decode_errors() {
    let mut fields = full_fields();
    fields.img = None;
    assert_eq!(decode_fields(&fields), Err(decode_error("img")));
    let mut fields = full_fields();
    fields.title = None;
    assert_eq!(decode_fields(&fields), Err(decode_error("title")));
}

#[test]
fn date_components_must_be_numerals() {
    let mut fields = full_fields();
    fields.month = Some(String::from("May"));
    assert_eq!(decode_fields(&fields), Err(decode_error("month")));
    let mut fields = full_fields();
    fields.day = Some(String::from(" 27"));
    assert_eq!(decode_fields(&fields), Err(decode_error("day")));
    let mut fields = full_fields();
    fields.day = Some(String::from("-1"));
    assert_eq!(decode_fields(&fields), Err(decode_error("day")));
    let mut fields = full_fields();
    fields.year = Some(String::from("2009a"));
    assert_eq!(decode_fields(&fields), Err(decode_error("year")));
    let mut fields = full_fields();
    fields.year = Some(String::from("+2009"));
    fields.month = Some(String::from("05"));
    assert_eq!(decode_fields(&fields).unwrap().date, ComicDate { year: 2009, month: 5, day: 27 });
}

#[test]
fn date_must_name_a_real_day() {
    let mut fields = full_fields();
    fields.month = Some(String::from("13"));
    assert_eq!(decode_fields(&fields), Err(decode_error("month")));
    let mut fields = full_fields();
    fields.month = Some(String::from("0"));
    assert_eq!(decode_fields(&fields), Err(decode_error("month")));
    let mut fields = full_fields();
    fields.month = Some(String::from("2"));
    fields.day = Some(String::from("29"));
    assert_eq!(decode_fields(&fields), Err(decode_error("day")));
    fields.year = Some(String::from("2008"));
    assert_eq!(decode_fields(&fields).unwrap().date, ComicDate { year: 2008, month: 2, day: 29 });
    let mut fields = full_fields();
    fields.year = Some(String::from("300000"));
    assert_eq!(decode_fields(&fields), Err(decode_error("year")));
}

#[test]
fn permalink_follows_the_number() {
    let comic = parse_comic(BODY_589).unwrap();
    assert_eq!(comic.url, format!("http://xkcd.com/{}", comic.number));
    assert_eq!(
        rusty_xkcd::comics::info_url_of(comic.number),
        format!("{}/info.0.json", comic.url)
    );
}
