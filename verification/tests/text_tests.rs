//! Text helpers, decimal formatting and parsing, and the domain value
//! types.

use ui_common::api::ApiErrorResponse;
use ui_common::api::ErrorCodeResponse;
use ui_common::api::WrappingResponse;
use ui_common::digits::format_i64;
use ui_common::digits::format_u64;
use ui_common::digits::parse_i64;
use ui_common::digits::parse_u64;
use ui_common::digits::parse_u8;
use ui_common::error::Error;
use ui_common::specific::id::BookId;
use ui_common::specific::id::ImageIdType;
use ui_common::specific::id::PersonId;
use ui_common::specific::image::ImageType;
use ui_common::specific::image::ThumbnailStore;
use ui_common::specific::language::get_language_id;
use ui_common::specific::language::get_language_name;
use ui_common::specific::source::Agent;
use ui_common::specific::source::Source;
use ui_common::util::truncate_on_indices;
use ui_common::util::upper_case_first_char;

#[test]
fn truncate_counts_characters_not_bytes() {
    let mut s = "héllo wörld".to_string();
    truncate_on_indices(&mut s, 6);
    assert_eq!(s, "héllo ");
    let mut short = "ab".to_string();
    truncate_on_indices(&mut short, 6);
    assert_eq!(short, "ab");
}

#[test]
fn upper_case_first_char_uppercases_only_the_first() {
    assert_eq!(upper_case_first_char("hello".to_string()), "Hello");
    assert_eq!(upper_case_first_char("Hello".to_string()), "Hello");
    assert_eq!(upper_case_first_char("".to_string()), "");
    // A character whose uppercase takes several characters.
    assert_eq!(upper_case_first_char("ßeta".to_string()), "SSeta");
}

#[test]
fn decimal_formatting_exact_values() {
    assert_eq!(format_u64(0), "0");
    assert_eq!(format_u64(7), "7");
    assert_eq!(format_u64(1234567890), "1234567890");
    assert_eq!(format_u64(u64::MAX), "18446744073709551615");
    assert_eq!(format_i64(-1), "-1");
    assert_eq!(format_i64(i64::MIN), "-9223372036854775808");
    assert_eq!(format_i64(i64::MAX), "9223372036854775807");
}

#[test]
fn decimal_parsing_exact_values_and_rejections() {
    assert_eq!(parse_u64("0"), Some(0));
    assert_eq!(parse_u64("18446744073709551615"), Some(u64::MAX));
    assert_eq!(parse_u64("18446744073709551616"), None); // one past the top
    assert_eq!(parse_u64(""), None);
    assert_eq!(parse_u64("12a"), None);
    assert_eq!(parse_u64("-3"), None); // digits only
    assert_eq!(parse_u8("255"), Some(255));
    assert_eq!(parse_u8("256"), None);
    assert_eq!(parse_i64("9223372036854775807"), Some(i64::MAX));
    assert_eq!(parse_i64("9223372036854775808"), None);
}

#[test]
fn image_id_round_trips_through_text() {
    let id = ImageIdType::new_book(BookId::new(42));
    assert_eq!(id.as_string(), "42-0");
    assert_eq!(ImageIdType::from_str("42-0"), id);

    let pid = ImageIdType::new_person(PersonId::new(7));
    assert_eq!(pid.as_string(), "7-1");
    assert_eq!(ImageIdType::from_str("7-1"), pid);
}

#[test]
fn malformed_image_id_falls_back_to_zero_book() {
    let fallback = ImageIdType {
        id: 0,
        type_of: ImageType::Book,
    };
    assert_eq!(ImageIdType::from_str(""), fallback);
    assert_eq!(ImageIdType::from_str("42"), fallback); // no separator
    assert_eq!(ImageIdType::from_str("42-9"), fallback); // unknown kind
    assert_eq!(ImageIdType::from_str("x-0"), fallback); // bad number
    assert_eq!(ImageIdType::from_str("-5-0"), fallback); // negative id
}

#[test]
fn image_type_numbering() {
    assert_eq!(ImageType::Book.as_num(), 0);
    assert_eq!(ImageType::Person.as_num(), 1);
    assert_eq!(ImageType::from_number(0), Some(ImageType::Book));
    assert_eq!(ImageType::from_number(1), Some(ImageType::Person));
    assert_eq!(ImageType::from_number(2), None);
}

#[test]
fn thumbnail_store_accessors() {
    let t = ThumbnailStore::Path("a/b.jpg".to_string());
    assert!(t.is_some());
    assert!(!t.is_none());
    assert_eq!(t.as_value(), Some("a/b.jpg"));
    assert_eq!(t.into_value(), Some("a/b.jpg".to_string()));
    let none = ThumbnailStore::Missing;
    assert!(none.is_none());
    assert_eq!(none.as_value(), None);
    assert_eq!(none.into_value(), None);
}

#[test]
fn source_splits_at_the_first_colon() {
    let s = Source::try_from("openlibrary:OL123:x").unwrap();
    assert_eq!(s.agent.as_str(), "openlibrary");
    assert_eq!(s.value, "OL123:x");
    assert_eq!(s.to_text(), "openlibrary:OL123:x");
}

#[test]
fn source_without_colon_is_rejected() {
    assert_eq!(Source::try_from("openlibrary"), Err(Error::SourceSplit));
}

#[test]
fn agents_wrap_their_names() {
    assert_eq!(Agent::new_static("local").as_str(), "local");
    assert_eq!(Agent::new_owned("remote".to_string()).as_str(), "remote");
}

#[test]
fn language_table_has_one_entry() {
    assert_eq!(get_language_id("English"), 0);
    assert_eq!(get_language_id("klingon"), 0);
    assert_eq!(get_language_name(0), "english");
    assert_eq!(get_language_name(9), "english");
}

#[test]
fn wrapping_response_round_trip() {
    let ok: WrappingResponse<u32> = WrappingResponse::okay(5);
    match ok.as_ok() {
        Ok(v) => assert_eq!(*v, 5),
        Err(_) => panic!("a success response must stay a success"),
    }
    match ok.ok() {
        Ok(v) => assert_eq!(v, 5),
        Err(_) => panic!("a success response must stay a success"),
    }

    let err: WrappingResponse<u32> = WrappingResponse::error("boom".to_string());
    match err.ok() {
        Err(e) => {
            assert_eq!(e.description, "boom");
            assert_eq!(e.code, ErrorCodeResponse::Unset);
        }
        Ok(_) => panic!("an error response must not turn into a value"),
    }
}

#[test]
fn wrapping_response_map_transforms_only_success() {
    let ok: WrappingResponse<u32> = WrappingResponse::okay(5);
    match ok.map(|v| v * 2) {
        WrappingResponse::Resp(v) => assert_eq!(v, 10),
        WrappingResponse::Error(_) => panic!("mapping must keep success"),
    }
    let err: WrappingResponse<u32> =
        WrappingResponse::error_code("denied".to_string(), ErrorCodeResponse::NotLoggedIn);
    match err.map(|v| v * 2) {
        WrappingResponse::Error(e) => assert_eq!(e.code, ErrorCodeResponse::NotLoggedIn),
        WrappingResponse::Resp(_) => panic!("mapping must keep the error"),
    }
}

#[test]
fn api_error_constructors() {
    let e = ApiErrorResponse::new("nope".to_string());
    assert_eq!(e.code, ErrorCodeResponse::Unset);
    let e2 = ApiErrorResponse::new_with_code("client".to_string(), ErrorCodeResponse::Client);
    assert_eq!(e2.code, ErrorCodeResponse::Client);
    assert_eq!(e2.description, "client");
}
