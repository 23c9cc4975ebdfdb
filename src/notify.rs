//! The chat-webhook notification and the overview document it announces.
use vstd::prelude::*;
use crate::json::{JsonValue, get_member, lookup};
use crate::model::{DocumentError, array_member, members_of, required_text, text_of};

verus! {

/// The overview document: a headline and a free text for one target area.
#[allow(non_snake_case)]
#[derive(Debug, Clone)]
pub struct WeatherOverview {
    pub publishingOffice: String,
    pub reportDatetime: String,
    pub targetArea: String,
    pub headlineText: String,
    pub text: String,
}

pub open spec fn overview_ok(v: JsonValue) -> bool {
    let m = members_of(v)->0;
    &&& members_of(v) is Some
    &&& required_text(m, "publishingOffice"@) is Some
    &&& required_text(m, "reportDatetime"@) is Some
    &&& required_text(m, "targetArea"@) is Some
    &&& required_text(m, "headlineText"@) is Some
    &&& required_text(m, "text"@) is Some
}

pub open spec fn overview_from(v: JsonValue, o: WeatherOverview) -> bool {
    let m = members_of(v)->0;
    &&& required_text(m, "publishingOffice"@) == Some(o.publishingOffice@)
    &&& required_text(m, "reportDatetime"@) == Some(o.reportDatetime@)
    &&& required_text(m, "targetArea"@) == Some(o.targetArea@)
    &&& required_text(m, "headlineText"@) == Some(o.headlineText@)
    &&& required_text(m, "text"@) == Some(o.text@)
}

fn text_member(m: &Vec<(String, JsonValue)>, key: &str) -> (r: Option<String>)
    ensures
        match r {
            Some(s) => required_text(m@, key@) == Some(s@),
            None => required_text(m@, key@) is None,
        },
{
    let k = String::from_str(key);
    match get_member(m, &k) {
        Some(JsonValue::Text(s)) => Some(s.clone()),
        _ => None,
    }
}

impl WeatherOverview {
    /// Reads an overview object; all five members are required strings.
    pub fn from_json(v: &JsonValue) -> (r: Result<WeatherOverview, DocumentError>)
        ensures
            r is Ok <==> overview_ok(*v),
            r matches Ok(o) ==> overview_from(*v, o),
            r matches Err(e) ==> e is Malformed,
    {
        match v {
            JsonValue::Object(m) => {
                let a = text_member(m, "publishingOffice");
                let b = text_member(m, "reportDatetime");
                let c = text_member(m, "targetArea");
                let d = text_member(m, "headlineText");
                let e = text_member(m, "text");
                match (a, b, c, d, e) {
                    (Some(a), Some(b), Some(c), Some(d), Some(e)) => Ok(WeatherOverview {
                        publishingOffice: a,
                        reportDatetime: b,
                        targetArea: c,
                        headlineText: d,
                        text: e,
                    }),
                    _ => Err(DocumentError::Malformed(String::from_str("overview"))),
                }
            },
            _ => Err(DocumentError::Malformed(String::from_str("overview"))),
        }
    }
}

pub const SENDER_NAME: &'static str = "Ageha";

pub const AVATAR_URL: &'static str = "https://github.com/raiga0310.png";

pub const CONTENT: &'static str = "weather overview";

pub const EMBED_TITLE: &'static str = "Overview";

pub const PORTAL_URL: &'static str = "https://www.jma.go.jp/bosai/#pattern=forecast";

pub const FOOTER: &'static str = "Ageha Weather Notification";

/// The string member `key` of an object.
pub open spec fn member_text(v: JsonValue, key: Seq<char>) -> Option<Seq<char>> {
    match members_of(v) {
        Some(m) => required_text(m, key),
        None => None,
    }
}

/// The notification's one embed.
pub open spec fn embed_of(v: JsonValue) -> JsonValue {
    array_member(members_of(v)->0, "embeds"@)->0[0]
}

/// `v` is the notification for `headline` sent at `timestamp`: sender name,
/// avatar and content fixed; one embed with a fixed title, the headline as its
/// description, the portal link, the timestamp and a fixed footer.
pub open spec fn payload_shape(v: JsonValue, headline: Seq<char>, timestamp: Seq<char>) -> bool {
    let e = embed_of(v);
    &&& members_of(v) is Some
    &&& members_of(v)->0.len() == 4
    &&& member_text(v, "username"@) == Some(SENDER_NAME@)
    &&& member_text(v, "avatar_url"@) == Some(AVATAR_URL@)
    &&& member_text(v, "content"@) == Some(CONTENT@)
    &&& array_member(members_of(v)->0, "embeds"@) matches Some(items) && items.len() == 1
    &&& members_of(e) is Some
    &&& members_of(e)->0.len() == 5
    &&& member_text(e, "title"@) == Some(EMBED_TITLE@)
    &&& member_text(e, "description"@) == Some(headline)
    &&& member_text(e, "url"@) == Some(PORTAL_URL@)
    &&& member_text(e, "timestamp"@) == Some(timestamp)
    &&& lookup(members_of(e)->0, "footer"@) matches Some(f) && members_of(f) matches Some(fm)
        && fm.len() == 1 && member_text(f, "text"@) == Some(FOOTER@)
}

fn text_value(s: &str) -> (r: JsonValue)
    ensures
        text_of(r) == Some(s@),
{
    JsonValue::Text(String::from_str(s))
}

/// Builds the notification for `headline`, stamped with `timestamp`.
pub fn notification_payload(headline: &str, timestamp: &str) -> (r: JsonValue)
    ensures
        payload_shape(r, headline@, timestamp@),
{
    proof {
        reveal_strlit("username");
        reveal_strlit("avatar_url");
        reveal_strlit("content");
        reveal_strlit("embeds");
        reveal_strlit("title");
        reveal_strlit("description");
        reveal_strlit("url");
        reveal_strlit("timestamp");
        reveal_strlit("footer");
        reveal_strlit("text");
    }
    let mut footer: Vec<(String, JsonValue)> = Vec::new();
    footer.push((String::from_str("text"), text_value(FOOTER)));
    let mut embed: Vec<(String, JsonValue)> = Vec::new();
    embed.push((String::from_str("title"), text_value(EMBED_TITLE)));
    embed.push((String::from_str("description"), text_value(headline)));
    embed.push((String::from_str("url"), text_value(PORTAL_URL)));
    embed.push((String::from_str("timestamp"), text_value(timestamp)));
    embed.push((String::from_str("footer"), JsonValue::Object(footer)));
    let mut embeds: Vec<JsonValue> = Vec::new();
    embeds.push(JsonValue::Object(embed));
    let mut top: Vec<(String, JsonValue)> = Vec::new();
    top.push((String::from_str("username"), text_value(SENDER_NAME)));
    top.push((String::from_str("avatar_url"), text_value(AVATAR_URL)));
    top.push((String::from_str("content"), text_value(CONTENT)));
    top.push((String::from_str("embeds"), JsonValue::Array(embeds)));
    let r = JsonValue::Object(top);
    proof {
        reveal_with_fuel(lookup, 6);
        assert("username"@.len() == 8);
        assert("avatar_url"@.len() == 10);
        assert("content"@.len() == 7);
        assert("embeds"@.len() == 6);
        assert("title"@.len() == 5);
        assert("description"@.len() == 11);
        assert("url"@.len() == 3);
        assert("timestamp"@.len() == 9);
        assert("footer"@.len() == 6);
    }
    r
}

/// Relies on chrono's `Local::now` and `DateTime::to_rfc3339`: the current
/// local time in RFC 3339; nothing is assumed of its value.
#[verifier::external_body]
fn now_rfc3339() -> (r: String) {
    chrono::Local::now().to_rfc3339()
}

impl WeatherOverview {
    /// The notification announcing this overview's headline, stamped with the
    /// time of sending.
    pub fn notification(&self) -> (r: JsonValue)
        ensures
            exists|ts: Seq<char>| payload_shape(r, self.headlineText@, ts),
    {
        let ts = now_rfc3339();
        let r = notification_payload(self.headlineText.as_str(), ts.as_str());
        assert(payload_shape(r, self.headlineText@, ts@));
        r
    }
}

} // verus!
