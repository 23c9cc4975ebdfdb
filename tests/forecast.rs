use weather_notifier::json::JsonValue;
use weather_notifier::model::{Area, AreaDetail, DocumentError, TimeSeries, WeatherReport};
use weather_notifier::report::{render_table, Field, ReportError};
use weather_notifier::text::sanitize_unicode_spaces;
use weather_notifier::time::day_of_week;

fn text(s: &str) -> JsonValue {
    JsonValue::Text(s.to_string())
}

fn list(items: &[&str]) -> JsonValue {
    JsonValue::Array(items.iter().map(|s| text(s)).collect())
}

fn obj(members: Vec<(&str, JsonValue)>) -> JsonValue {
    JsonValue::Object(members.into_iter().map(|(k, v)| (k.to_string(), v)).collect())
}

fn area_json(name: &str, code: &str, lists: Vec<(&str, JsonValue)>) -> JsonValue {
    let mut members = vec![("area", obj(vec![("name", text(name)), ("code", text(code))]))];
    members.extend(lists);
    obj(members)
}

fn doc_json(blocks: Vec<JsonValue>) -> JsonValue {
    obj(vec![
        ("publishingOffice", text("Japan Meteorological Agency")),
        ("reportDatetime", text("2024-01-01T05:00:00+09:00")),
        ("timeSeries", JsonValue::Array(blocks)),
    ])
}

fn block_json(times: &[&str], areas: Vec<JsonValue>) -> JsonValue {
    obj(vec![("timeDefines", list(times)), ("areas", JsonValue::Array(areas))])
}

fn tokyo_doc() -> WeatherReport {
    let area = area_json(
        "Tokyo",
        "130000",
        vec![("weathers", list(&["Sunny"])), ("temps", list(&["5", "12"]))],
    );
    let v = doc_json(vec![block_json(&["2024-01-01T06:00:00+09:00"], vec![area])]);
    WeatherReport::from_json(&v).unwrap()
}

#[test]
fn basic_table_render() {
    let doc = tokyo_doc();
    let weather = doc.display_time_specific_data(Field::Weather).ok().unwrap();
    assert_eq!(
        weather,
        "| Time            | Area         | Weather         |\n\
         | --------------- | ------------ | --------------- |\n\
         | 01/01 06:00 Mon | Tokyo        | Sunny           |"
    );
    let temps = doc.display_time_specific_data(Field::Temperature).ok().unwrap();
    assert_eq!(
        temps,
        "| Time            | Area         | Temperature (\u{2103}) |\n\
         | --------------- | ------------ | ---------------- |\n\
         | 01/01 06:00 Mon | Tokyo        | 5 / 12           |"
    );
}

#[test]
fn weather_and_temperature_report() {
    let doc = tokyo_doc();
    let out = doc.display_weather_and_temperature().ok().unwrap();
    assert!(out.starts_with("Time-specific Weather:\n| Time "));
    assert!(out.contains("| 01/01 06:00 Mon | Tokyo        | Sunny           |\n\nTime-specific Temperature:\n"));
    assert!(out.ends_with("| 01/01 06:00 Mon | Tokyo        | 5 / 12           |\n"));
}

#[test]
fn empty_array_fetch() {
    let v = JsonValue::Array(vec![]);
    assert!(matches!(WeatherReport::from_fetched(&v), Err(DocumentError::EmptyDocumentArray)));
}

#[test]
fn fetched_array_takes_first_element() {
    let first = doc_json(vec![]);
    let v = JsonValue::Array(vec![first, JsonValue::Null]);
    let doc = WeatherReport::from_fetched(&v).unwrap();
    assert_eq!(doc.publishingOffice, "Japan Meteorological Agency");
    assert!(doc.timeSeries.is_empty());
    let single = WeatherReport::from_fetched(&doc_json(vec![])).unwrap();
    assert_eq!(single.reportDatetime, "2024-01-01T05:00:00+09:00");
}

#[test]
fn missing_optional_fields() {
    let area = area_json(
        "Tokyo",
        "130000",
        vec![
            ("weatherCodes", list(&["100"])),
            ("weathers", list(&["Sunny"])),
            ("temps", list(&["5"])),
        ],
    );
    let a = Area::from_json(&area).unwrap();
    assert!(a.winds.is_empty());
    assert!(a.waves.is_empty());
    assert!(a.pops.is_empty());
    assert_eq!(a.weather_codes, vec!["100".to_string()]);
    let v = doc_json(vec![block_json(&["2024-01-01T06:00:00+09:00"], vec![area])]);
    let s = WeatherReport::from_json(&v).unwrap().summary();
    assert!(!s.contains("Winds:"));
    assert!(!s.contains("Waves:"));
    assert!(!s.contains("Pops:"));
    assert!(s.contains("    Weather Codes: [\"100\"]\n"));
}

#[test]
fn omitted_lists_default_to_empty() {
    let keys = ["weatherCodes", "weathers", "winds", "waves", "pops", "temps"];
    for omitted in 0..keys.len() {
        let lists: Vec<(&str, JsonValue)> = keys
            .iter()
            .enumerate()
            .filter(|(i, _)| *i != omitted)
            .map(|(i, k)| (*k, list(&[keys[i]])))
            .collect();
        let a = Area::from_json(&area_json("X", "1", lists)).unwrap();
        let got = [&a.weather_codes, &a.weathers, &a.winds, &a.waves, &a.pops, &a.temps];
        for (i, l) in got.iter().enumerate() {
            if i == omitted {
                assert!(l.is_empty());
            } else {
                assert_eq!(**l, vec![keys[i].to_string()]);
            }
        }
    }
}

#[test]
fn mistyped_list_is_malformed() {
    let area = area_json("Tokyo", "130000", vec![("winds", text("north"))]);
    assert!(matches!(Area::from_json(&area), Err(DocumentError::Malformed(_))));
    let null_list = area_json("Tokyo", "130000", vec![("pops", JsonValue::Null)]);
    assert!(matches!(Area::from_json(&null_list), Err(DocumentError::Malformed(_))));
}

#[test]
fn missing_required_field_is_malformed() {
    let no_code = obj(vec![("area", obj(vec![("name", text("Tokyo"))]))]);
    assert!(matches!(Area::from_json(&no_code), Err(DocumentError::Malformed(_))));
    assert!(matches!(AreaDetail::from_json(&text("Tokyo")), Err(DocumentError::Malformed(_))));
    let no_office = obj(vec![
        ("reportDatetime", text("2024-01-01T05:00:00+09:00")),
        ("timeSeries", JsonValue::Array(vec![])),
    ]);
    assert!(matches!(WeatherReport::from_json(&no_office), Err(DocumentError::Malformed(_))));
    let no_times = obj(vec![("areas", JsonValue::Array(vec![]))]);
    assert!(matches!(TimeSeries::from_json(&no_times), Err(DocumentError::Malformed(_))));
    assert!(matches!(WeatherReport::from_fetched(&JsonValue::Null), Err(DocumentError::Malformed(_))));
}

#[test]
fn space_normalization() {
    assert_eq!(sanitize_unicode_spaces("Sunny then cloudy"), "Sunny then cloudy");
    assert_eq!(sanitize_unicode_spaces("\u{6674}\u{3000}\u{6642}\u{3005}\u{3000}\u{66c7}"), "\u{6674} \u{6642}\u{3005} \u{66c7}");
    assert_eq!(sanitize_unicode_spaces(""), "");
    let once = sanitize_unicode_spaces("a\u{3000}\u{3000}b");
    assert_eq!(once, "a  b");
    assert_eq!(sanitize_unicode_spaces(&once), once);
}

#[test]
fn extraction_count_and_order() {
    let b1 = block_json(
        &["2024-01-01T06:00:00+09:00", "2024-01-02T00:00:00+09:00"],
        vec![
            area_json("A", "1", vec![("weathers", list(&["w1", "w2"]))]),
            area_json("B", "2", vec![]),
        ],
    );
    let b2 = block_json(
        &["2024-01-03T00:00:00+09:00"],
        vec![
            area_json("C", "3", vec![("temps", list(&["1"]))]),
            area_json("D", "4", vec![]),
            area_json("E", "5", vec![]),
        ],
    );
    let doc = WeatherReport::from_json(&doc_json(vec![b1, b2])).unwrap();
    let data = doc.extract_time_specific_data().ok().unwrap();
    assert_eq!(data.len(), 5);
    let names: Vec<&str> = data.iter().map(|d| d.area_name.as_str()).collect();
    assert_eq!(names, vec!["A", "B", "C", "D", "E"]);
    assert_eq!((data[0].time.month, data[0].time.day, data[0].time.hour), (1, 1, 6));
    assert_eq!((data[1].time.month, data[1].time.day), (1, 1));
    assert_eq!((data[2].time.day, data[2].time.weekday), (3, 2));
    assert_eq!(data[0].weathers, vec!["w1".to_string(), "w2".to_string()]);
    assert_eq!(data[2].temps, vec!["1".to_string()]);
}

#[test]
fn table_emptiness() {
    let area = area_json("Tokyo", "130000", vec![("temps", list(&["5"]))]);
    let v = doc_json(vec![block_json(&["2024-01-01T06:00:00+09:00"], vec![area])]);
    let doc = WeatherReport::from_json(&v).unwrap();
    assert_eq!(doc.display_time_specific_data(Field::Weather).ok().unwrap(), "");
    assert_eq!(render_table(&vec![], Field::Temperature), "");
    let none = WeatherReport::from_json(&doc_json(vec![])).unwrap();
    assert_eq!(none.display_weather_and_temperature().ok().unwrap(), "Time-specific Weather:\n\n\nTime-specific Temperature:\n\n");
}

#[test]
fn table_rows_are_filtered_joined_and_normalized() {
    let b = block_json(
        &["2024-03-10T17:05:00+09:00"],
        vec![
            area_json("Izu Islands North", "130020", vec![("weathers", list(&["Cloudy\u{3000}later rain", "Rain"]))]),
            area_json("Skip", "0", vec![]),
        ],
    );
    let doc = WeatherReport::from_json(&doc_json(vec![b])).unwrap();
    let t = doc.display_time_specific_data(Field::Weather).ok().unwrap();
    let rows: Vec<&str> = t.lines().collect();
    assert_eq!(rows.len(), 3);
    assert_eq!(rows[2], "| 03/10 17:05 Sun | Izu Islands North | Cloudy later rain / Rain |");
}

#[test]
fn bad_timestamp_fails_render() {
    let bad = block_json(&["tomorrow"], vec![area_json("A", "1", vec![("weathers", list(&["x"]))])]);
    let doc = WeatherReport::from_json(&doc_json(vec![bad])).unwrap();
    assert!(matches!(doc.extract_time_specific_data(), Err(ReportError::TimestampParseError)));
    assert!(matches!(doc.display_weather_and_temperature(), Err(ReportError::TimestampParseError)));
    let empty = block_json(&[], vec![]);
    let doc2 = WeatherReport::from_json(&doc_json(vec![empty])).unwrap();
    assert!(matches!(doc2.display_time_specific_data(Field::Temperature), Err(ReportError::TimestampParseError)));
}

#[test]
fn summary_dump() {
    let area = area_json(
        "Tokyo",
        "130000",
        vec![
            ("weathers", list(&["Sunny\u{3000}then cloudy"])),
            ("winds", list(&["North\u{3000}wind"])),
            ("pops", list(&["10", "20"])),
        ],
    );
    let v = doc_json(vec![block_json(&["2024-01-01T06:00:00+09:00"], vec![area])]);
    let s = WeatherReport::from_json(&v).unwrap().summary();
    let expected = "Publishing Office: Japan Meteorological Agency\n\
        Report Datetime: 2024-01-01T05:00:00+09:00\n\
        Time Series:\n  [0] Time Defines:\n    2024-01-01T06:00:00+09:00\n  [0] Areas:\n    Area: Tokyo (130000)\n    Weathers: [\"Sunny then cloudy\"]\n    Winds: [\"North wind\"]\n    Pops: [\"10\", \"20\"]\n";
    assert_eq!(s, expected);
}

#[test]
fn summary_numbers_blocks() {
    let blocks: Vec<JsonValue> = (0..11).map(|_| block_json(&[], vec![])).collect();
    let s = WeatherReport::from_json(&doc_json(blocks)).unwrap().summary();
    assert!(s.contains("  [9] Areas:\n  [10] Time Defines:\n  [10] Areas:\n"));
}

#[test]
fn weekday_names() {
    let names: Vec<&str> = (0..7).map(day_of_week).collect();
    assert_eq!(names, vec!["Mon", "Tue", "Wed", "Thu", "Fri", "Sat", "Sun"]);
}
