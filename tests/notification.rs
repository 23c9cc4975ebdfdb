use weather_notifier::json::JsonValue;
use weather_notifier::notify::{notification_payload, WeatherOverview};

fn member<'a>(v: &'a JsonValue, key: &str) -> &'a JsonValue {
    match v {
        JsonValue::Object(m) => &m.iter().find(|(k, _)| k == key).unwrap().1,
        _ => panic!("not an object"),
    }
}

fn as_text(v: &JsonValue) -> &str {
    match v {
        JsonValue::Text(s) => s.as_str(),
        _ => panic!("not a string"),
    }
}

fn embed(v: &JsonValue) -> &JsonValue {
    match member(v, "embeds") {
        JsonValue::Array(items) => {
            assert_eq!(items.len(), 1);
            &items[0]
        }
        _ => panic!("not an array"),
    }
}

#[test]
fn notification_payload_shape() {
    let p = notification_payload("Clear skies expected", "2024-01-01T06:00:00+09:00");
    assert_eq!(as_text(member(&p, "username")), "Ageha");
    assert_eq!(as_text(member(&p, "avatar_url")), "https://github.com/raiga0310.png");
    assert_eq!(as_text(member(&p, "content")), "weather overview");
    let e = embed(&p);
    assert_eq!(as_text(member(e, "title")), "Overview");
    assert_eq!(as_text(member(e, "description")), "Clear skies expected");
    assert_eq!(as_text(member(e, "url")), "https://www.jma.go.jp/bosai/#pattern=forecast");
    assert_eq!(as_text(member(e, "timestamp")), "2024-01-01T06:00:00+09:00");
    assert_eq!(as_text(member(member(e, "footer"), "text")), "Ageha Weather Notification");
}

#[test]
fn notification_uses_headline_and_send_time() {
    let o = WeatherOverview {
        publishingOffice: "Japan Meteorological Agency".to_string(),
        reportDatetime: "2024-01-01T05:00:00+09:00".to_string(),
        targetArea: "Tokyo".to_string(),
        headlineText: "Clear skies expected".to_string(),
        text: "Fine all day.".to_string(),
    };
    let p = o.notification();
    let e = embed(&p);
    assert_eq!(as_text(member(e, "description")), "Clear skies expected");
    let ts = as_text(member(e, "timestamp"));
    assert!(chrono::DateTime::parse_from_rfc3339(ts).is_ok());
}

#[test]
fn overview_from_json() {
    let keys = ["publishingOffice", "reportDatetime", "targetArea", "headlineText", "text"];
    let full: Vec<(String, JsonValue)> = keys
        .iter()
        .map(|k| (k.to_string(), JsonValue::Text(format!("v-{}", k))))
        .collect();
    let o = WeatherOverview::from_json(&JsonValue::Object(full)).unwrap();
    assert_eq!(o.headlineText, "v-headlineText");
    assert_eq!(o.targetArea, "v-targetArea");
    let partial: Vec<(String, JsonValue)> = keys[..4]
        .iter()
        .map(|k| (k.to_string(), JsonValue::Text(k.to_string())))
        .collect();
    assert!(WeatherOverview::from_json(&JsonValue::Object(partial)).is_err());
}
