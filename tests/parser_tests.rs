use chrono::{Datelike, NaiveDate};
use koreader_highlights::date::Date;
use koreader_highlights::lua::{LuaExpr, LuaField};
use koreader_highlights::parser::{
    book_from_returns, extract_annotations, extract_single_annotation, filter_by_date,
    is_metadata_file_name, parse_datetime, parse_metadata, ParseError,
};

const SAMPLE_LUA: &str = r#"
return {
    ["annotations"] = {
        [1] = {
            ["chapter"] = "Chapter 1",
            ["datetime"] = "2026-01-25 10:30:00",
            ["pageno"] = 42,
            ["text"] = "This is a highlighted text",
        },
        [2] = {
            ["chapter"] = "Chapter 2",
            ["datetime"] = "2026-01-26 14:00:00",
            ["pageno"] = 100,
            ["text"] = "Another highlight",
        },
    },
    ["doc_props"] = {
        ["title"] = "Test Book",
        ["authors"] = "Test Author",
    },
}
"#;

const LUA_WITHOUT_TITLE: &str = r#"
return {
    ["doc_props"] = {
        ["authors"] = "Some Author",
    },
}
"#;

const LUA_INVALID: &str = r#"
return { this is not valid lua [[[
"#;

const LUA_WITH_BAD_ANNOTATIONS: &str = r#"
return {
    ["doc_props"] = {
        ["title"] = "Mixed",
    },
    ["annotations"] = {
        [1] = {
            ["datetime"] = "2026-01-25 10:30:00",
            ["pageno"] = 1,
        },
        [2] = {
            ["datetime"] = "yesterday",
            ["text"] = "bad stamp",
        },
        [3] = {
            ["text"] = "no stamp",
        },
        [4] = {
            ["datetime"] = "2026-01-27 08:00:00",
            ["text"] = "kept",
            ["pageno"] = "seven",
        },
        [5] = {
            ["datetime"] = "2026-01-28 08:00:00",
            ["text"] = "",
        },
    },
}
"#;

fn date(y: i32, m: u32, d: u32) -> Date {
    let n = NaiveDate::from_ymd_opt(y, m, d).unwrap().num_days_from_ce();
    Date::from_day_number(n).unwrap()
}

fn s(t: &str) -> LuaExpr {
    LuaExpr::Str(t.to_string())
}

fn keyed(k: &str, v: LuaExpr) -> LuaField {
    LuaField::Keyed(s(k), v)
}

#[test]
fn test_parse_valid_metadata() {
    let result = parse_metadata(SAMPLE_LUA, "test.lua").unwrap();

    assert_eq!(result.title, "Test Book");
    assert_eq!(result.author, "Test Author");
    assert_eq!(result.highlights.len(), 2);

    let h1 = &result.highlights[0];
    assert_eq!(h1.chapter, Some("Chapter 1".to_string()));
    assert_eq!(h1.page, 42);
    assert_eq!(h1.text, "This is a highlighted text");
}

#[test]
fn test_parse_missing_title() {
    let result = parse_metadata(LUA_WITHOUT_TITLE, "nobook.lua");

    assert!(matches!(result, Err(ParseError::MissingTitle(_))));
}

#[test]
fn test_parse_invalid_lua() {
    let result = parse_metadata(LUA_INVALID, "broken.lua");

    assert!(matches!(result, Err(ParseError::InvalidLua(_))));
}

#[test]
fn test_filter_by_date_includes_range() {
    let book = parse_metadata(SAMPLE_LUA, "test.lua").unwrap();
    let from = date(2026, 1, 25);
    let to = date(2026, 1, 25);

    let filtered = filter_by_date(book.highlights, from, to);

    assert_eq!(filtered.len(), 1);
    assert_eq!(filtered[0].text, "This is a highlighted text");
}

#[test]
fn test_filter_by_date_full_range() {
    let book = parse_metadata(SAMPLE_LUA, "test.lua").unwrap();
    let from = date(2026, 1, 25);
    let to = date(2026, 1, 26);

    let filtered = filter_by_date(book.highlights, from, to);

    assert_eq!(filtered.len(), 2);
}

#[test]
fn test_filter_by_date_empty() {
    let book = parse_metadata(SAMPLE_LUA, "test.lua").unwrap();
    let from = date(2026, 2, 1);
    let to = date(2026, 2, 10);

    let filtered = filter_by_date(book.highlights, from, to);

    assert!(filtered.is_empty());
}

#[test]
fn sample_highlights_in_source_order() {
    let book = parse_metadata(SAMPLE_LUA, "test.lua").unwrap();
    let h2 = &book.highlights[1];
    assert_eq!(h2.chapter, Some("Chapter 2".to_string()));
    assert_eq!(h2.page, 100);
    assert_eq!(h2.text, "Another highlight");
    assert_eq!(h2.note, None);
    assert_eq!(h2.datetime.date, date(2026, 1, 26));
    assert_eq!(h2.datetime.secs, 14 * 3600);
    assert_eq!(book.highlights[0].datetime.secs, 10 * 3600 + 30 * 60);
}

#[test]
fn missing_title_keeps_label() {
    let result = parse_metadata(LUA_WITHOUT_TITLE, "nobook.lua");
    assert_eq!(result, Err(ParseError::MissingTitle("nobook.lua".to_string())));
}

#[test]
fn invalid_lua_names_file() {
    match parse_metadata(LUA_INVALID, "broken.lua") {
        Err(ParseError::InvalidLua(detail)) => assert!(detail.starts_with("broken.lua: ")),
        other => panic!("unexpected {:?}", other),
    }
}

#[test]
fn no_return_gives_missing_title() {
    let result = parse_metadata("local x = 1", "empty.lua");
    assert_eq!(result, Err(ParseError::MissingTitle("empty.lua".to_string())));
    let result = parse_metadata("return 5", "five.lua");
    assert_eq!(result, Err(ParseError::MissingTitle("five.lua".to_string())));
}

#[test]
fn empty_title_is_missing() {
    let lua = r#"return { ["doc_props"] = { ["title"] = "" } }"#;
    assert_eq!(parse_metadata(lua, "e.lua"), Err(ParseError::MissingTitle("e.lua".to_string())));
}

#[test]
fn author_defaults_to_unknown() {
    let lua = r#"return { ["doc_props"] = { ["title"] = "T", ["authors"] = 3 } }"#;
    let book = parse_metadata(lua, "t.lua").unwrap();
    assert_eq!(book.title, "T");
    assert_eq!(book.author, "Unknown");
    assert!(book.highlights.is_empty());
}

#[test]
fn name_keys_and_other_fields_are_ignored() {
    let lua = r#"return { doc_props = { ["title"] = "Hidden" }, ["other"] = 1 }"#;
    assert!(matches!(parse_metadata(lua, "n.lua"), Err(ParseError::MissingTitle(_))));
}

#[test]
fn later_doc_props_overrides_earlier() {
    let lua = r#"return {
        ["doc_props"] = { ["title"] = "First", ["authors"] = "A" },
        ["doc_props"] = { ["title"] = "Second" },
    }"#;
    let book = parse_metadata(lua, "o.lua").unwrap();
    assert_eq!(book.title, "Second");
    assert_eq!(book.author, "Unknown");
}

#[test]
fn bad_annotations_are_dropped_alone() {
    let book = parse_metadata(LUA_WITH_BAD_ANNOTATIONS, "mixed.lua").unwrap();
    assert_eq!(book.highlights.len(), 1);
    let h = &book.highlights[0];
    assert_eq!(h.text, "kept");
    assert_eq!(h.page, 0);
    assert_eq!(h.chapter, None);
    assert_eq!(h.datetime.date, date(2026, 1, 27));
}

#[test]
fn negative_page_numbers_read() {
    let lua = r#"return { ["doc_props"] = { ["title"] = "T" }, ["annotations"] = {
        [1] = { ["text"] = "a", ["datetime"] = "2026-01-25 00:00:00", ["pageno"] = -5 },
        [2] = { ["text"] = "b", ["datetime"] = "2026-01-25 00:00:01", ["pageno"] = 1e3 },
        [3] = { ["text"] = "c", ["datetime"] = "2026-01-25 00:00:02", ["pageno"] = 99999999999 },
    } }"#;
    let book = parse_metadata(lua, "p.lua").unwrap();
    assert_eq!(book.highlights.len(), 3);
    assert_eq!(book.highlights[0].page, 0);
    assert_eq!(book.highlights[1].page, 0);
    assert_eq!(book.highlights[2].page, 0);
}

#[test]
fn page_number_is_read_exactly() {
    let lua = r#"return { ["doc_props"] = { ["title"] = "T" }, ["annotations"] = {
        [1] = { ["text"] = "a", ["datetime"] = "2026-01-25 00:00:00", ["pageno"] = 2147483647 },
    } }"#;
    let book = parse_metadata(lua, "p.lua").unwrap();
    assert_eq!(book.highlights[0].page, i32::MAX);
}

#[test]
fn tree_without_title_is_refused() {
    let props = LuaExpr::Table(vec![keyed("authors", s("A"))]);
    let top = LuaExpr::Table(vec![keyed("doc_props", props)]);
    let result = book_from_returns(&vec![top], "label");
    assert_eq!(result, Err(ParseError::MissingTitle("label".to_string())));
}

#[test]
fn tree_with_two_return_values() {
    let props = LuaExpr::Table(vec![keyed("title", s("From second"))]);
    let first = LuaExpr::Number("1".to_string());
    let second = LuaExpr::Table(vec![keyed("doc_props", props), LuaField::Other]);
    let book = book_from_returns(&vec![first, second], "label").unwrap();
    assert_eq!(book.title, "From second");
    assert_eq!(book.author, "Unknown");
}

#[test]
fn single_annotation_from_tree() {
    let annot = vec![
        keyed("text", s("words")),
        keyed("datetime", s("2026-01-25 23:59:59")),
        keyed("pageno", LuaExpr::Number("7".to_string())),
        keyed("chapter", s("Ch")),
    ];
    let h = extract_single_annotation(&annot).unwrap();
    assert_eq!(h.text, "words");
    assert_eq!(h.page, 7);
    assert_eq!(h.chapter, Some("Ch".to_string()));
    assert_eq!(h.datetime.secs, 86399);

    let no_text = vec![keyed("datetime", s("2026-01-25 23:59:59"))];
    assert!(extract_single_annotation(&no_text).is_none());
    let text_not_string = vec![keyed("text", LuaExpr::Other), keyed("datetime", s("2026-01-25 23:59:59"))];
    assert!(extract_single_annotation(&text_not_string).is_none());
}

#[test]
fn annotations_keep_order_and_skip_non_tables() {
    let a = |t: &str, d: &str| {
        LuaExpr::Table(vec![keyed("text", s(t)), keyed("datetime", s(d))])
    };
    let fields = vec![
        LuaField::Keyed(LuaExpr::Number("1".to_string()), a("one", "2026-01-02 00:00:00")),
        LuaField::Keyed(LuaExpr::Number("2".to_string()), s("not a table")),
        LuaField::Other,
        LuaField::Keyed(LuaExpr::Number("3".to_string()), a("three", "bad")),
        LuaField::Keyed(LuaExpr::Number("4".to_string()), a("four", "2026-01-01 00:00:00")),
    ];
    let hs = extract_annotations(&fields);
    assert_eq!(hs.len(), 2);
    assert_eq!(hs[0].text, "one");
    assert_eq!(hs[1].text, "four");
}

#[test]
fn datetime_reading() {
    let t = parse_datetime("2026-01-25 10:30:05").unwrap();
    assert_eq!(t.date, date(2026, 1, 25));
    assert_eq!(t.secs, 10 * 3600 + 30 * 60 + 5);
    assert!(parse_datetime("2026-01-25").is_none());
    assert!(parse_datetime("2026-02-30 10:00:00").is_none());
    assert_eq!(
        t.date.day_number(),
        NaiveDate::from_ymd_opt(2026, 1, 25).unwrap().num_days_from_ce()
    );
}

#[test]
fn filter_bounds_are_inclusive() {
    let book = parse_metadata(SAMPLE_LUA, "test.lua").unwrap();
    let filtered = filter_by_date(book.highlights, date(2026, 1, 26), date(2026, 1, 26));
    assert_eq!(filtered.len(), 1);
    assert_eq!(filtered[0].text, "Another highlight");
    assert!(filter_by_date(Vec::new(), date(2026, 1, 1), date(2026, 12, 31)).is_empty());
}

#[test]
fn metadata_file_name() {
    assert!(is_metadata_file_name("metadata.epub.lua"));
    assert!(!is_metadata_file_name("metadata.pdf.lua"));
    assert!(!is_metadata_file_name("xmetadata.epub.lua"));
    assert!(!is_metadata_file_name(""));
}

#[test]
fn invalid_lua_detail_follows_label() {
    match parse_metadata("return { [1] = ", "some/dir/metadata.epub.lua") {
        Err(ParseError::InvalidLua(detail)) => {
            assert!(detail.starts_with("some/dir/metadata.epub.lua: "));
            assert!(detail.len() > "some/dir/metadata.epub.lua: ".len());
        }
        other => panic!("unexpected {:?}", other),
    }
}
