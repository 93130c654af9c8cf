use anilist::build_request_body;
use anilist::parse_u32;
use anilist::render_genres;
use anilist::trim;
use anilist::u32_to_string;
use anilist::AnilistEntry;
use anilist::CoverImage;
use anilist::Data;
use anilist::Media;
use anilist::Title;

fn title(english: Option<&str>, romaji: Option<&str>, native: Option<&str>) -> Title {
    Title {
        english: english.map(String::from),
        romaji: romaji.map(String::from),
        native: native.map(String::from),
    }
}

#[test]
fn title_prefers_english() {
    let t = title(Some("Eng"), Some("Romaji"), Some("Native"));
    assert_eq!(t.resolve(), "Eng");
}

#[test]
fn title_falls_back_to_romaji() {
    let t = title(None, Some("Romaji"), Some("Native"));
    assert_eq!(t.resolve(), "Romaji");
}

#[test]
fn title_falls_back_to_native() {
    let t = title(None, None, Some("Native"));
    assert_eq!(t.resolve(), "Native");
}

#[test]
fn title_placeholder_when_all_absent() {
    let t = title(None, None, None);
    assert_eq!(t.resolve(), "<no title>");
}

#[test]
fn parse_reads_digits() {
    assert_eq!(parse_u32("123"), Some(123));
    assert_eq!(parse_u32("0"), Some(0));
    assert_eq!(parse_u32("007"), Some(7));
}

#[test]
fn parse_rejects_empty_and_letters() {
    assert_eq!(parse_u32(""), None);
    assert_eq!(parse_u32("abc"), None);
    assert_eq!(parse_u32("12a"), None);
    assert_eq!(parse_u32("-5"), None);
    assert_eq!(parse_u32("1 2"), None);
}

#[test]
fn parse_respects_the_largest_value() {
    assert_eq!(parse_u32("4294967295"), Some(u32::MAX));
    assert_eq!(parse_u32("4294967296"), None);
    assert_eq!(parse_u32("99999999999999999999"), None);
}

#[test]
fn trim_strips_blank_space() {
    assert_eq!(trim("  exit \n"), "exit");
    assert_eq!(trim("exit"), "exit");
    assert_eq!(trim("   \t\r\n"), "");
    assert_eq!(trim(""), "");
    assert_eq!(trim(" a b "), "a b");
}

#[test]
fn renders_decimal_digits() {
    assert_eq!(u32_to_string(0), "0");
    assert_eq!(u32_to_string(105), "105");
    assert_eq!(u32_to_string(u32::MAX), "4294967295");
}

#[test]
fn rendering_then_parsing_is_the_identity() {
    for n in [0u32, 1, 9, 10, 99, 100, 15125, u32::MAX] {
        assert_eq!(parse_u32(&u32_to_string(n)), Some(n));
    }
}

#[test]
fn request_body_holds_query_and_identifier() {
    let body = build_request_body(15125);
    let expected = "{\"query\": \"query ($id: Int) { Media (id: $id) { id title { romaji english native } format genres coverImage { medium } } }\", \"variables\": {\"id\": 15125}}";
    assert_eq!(body, expected);
}

#[test]
fn genres_render_quoted_and_bracketed() {
    let gs = vec![String::from("Action"), String::from("Drama")];
    assert_eq!(render_genres(&gs), "[\"Action\", \"Drama\"]");
    let one = vec![String::from("Action")];
    assert_eq!(render_genres(&one), "[\"Action\"]");
    let none: Vec<String> = Vec::new();
    assert_eq!(render_genres(&none), "[]");
}

fn sample_media(cover: Option<CoverImage>) -> Media {
    Media {
        id: 7,
        title: title(Some("Foo"), None, None),
        format: Some(String::from("TV")),
        genres: vec![String::from("Action"), String::from("Drama")],
        cover_image: cover,
    }
}

#[test]
fn render_prints_all_text_fields() {
    let entry = AnilistEntry {
        data: Data { media: Some(sample_media(None)) },
        image: anilist::make_cover(None),
    };
    assert_eq!(
        entry.render(),
        "\nID: 7\nName: Foo\nFormat: TV\nGenres: [\"Action\", \"Drama\"]",
    );
}

#[test]
fn render_labels_a_missing_format() {
    let mut media = sample_media(None);
    media.format = None;
    let entry = AnilistEntry {
        data: Data { media: Some(media) },
        image: anilist::make_cover(None),
    };
    assert_eq!(
        entry.render(),
        "\nID: 7\nName: Foo\nFormat: <unknown>\nGenres: [\"Action\", \"Drama\"]",
    );
}

#[test]
fn render_reports_an_absent_record() {
    let entry = AnilistEntry {
        data: Data { media: None },
        image: anilist::make_cover(None),
    };
    assert_eq!(entry.render(), "Entry not found");
}

#[test]
fn absent_record_asks_for_no_image() {
    let data = Data { media: None };
    assert!(data.cover_request().is_none());
}

#[test]
fn missing_cover_url_asks_for_no_image() {
    let data = Data { media: Some(sample_media(None)) };
    assert!(data.cover_request().is_none());
    let data = Data { media: Some(sample_media(Some(CoverImage { img: None }))) };
    assert!(data.cover_request().is_none());
}

#[test]
fn present_cover_url_is_requested() {
    let url = String::from("https://example.invalid/cover.png");
    let data = Data {
        media: Some(sample_media(Some(CoverImage { img: Some(url.clone()) }))),
    };
    assert_eq!(data.cover_request(), Some(url));
}
