//! The forecast document and its decoding from a JSON tree.
use vstd::prelude::*;
use crate::json::{JsonValue, lookup, get_member};

verus! {

/// A geographic subdivision: its name and code.
#[derive(Debug, Clone)]
pub struct AreaDetail {
    pub name: String,
    pub code: String,
}

/// One area of a time-series block, with its parallel attribute lists; a list
/// that the source omits is empty.
#[derive(Debug, Clone)]
pub struct Area {
    pub area: AreaDetail,
    pub weather_codes: Vec<String>,
    pub weathers: Vec<String>,
    pub winds: Vec<String>,
    pub waves: Vec<String>,
    pub pops: Vec<String>,
    pub temps: Vec<String>,
}

/// One forecast horizon: its instants and its areas.
#[derive(Debug, Clone)]
pub struct TimeSeries {
    pub time_defines: Vec<String>,
    pub areas: Vec<Area>,
}

/// A forecast document of one publishing office.
#[derive(Debug, Clone)]
#[allow(non_snake_case)]
pub struct WeatherReport {
    pub publishingOffice: String,
    pub reportDatetime: String,
    pub timeSeries: Vec<TimeSeries>,
}

/// Why a document could not be taken from a JSON tree.
#[derive(Debug, Clone)]
pub enum DocumentError {
    /// The top level is an array with no element.
    EmptyDocumentArray,
    /// The tree does not have the document's shape; the text says where.
    Malformed(String),
}

/// The texts that a list of strings holds.
pub open spec fn texts(v: Seq<String>) -> Seq<Seq<char>> {
    v.map_values(|s: String| s@)
}

pub open spec fn text_of(v: JsonValue) -> Option<Seq<char>> {
    match v {
        JsonValue::Text(s) => Some(s@),
        _ => None,
    }
}

pub open spec fn is_text(v: JsonValue) -> bool {
    v is Text
}

pub open spec fn text_or_empty(v: JsonValue) -> Seq<char> {
    match v {
        JsonValue::Text(s) => s@,
        _ => Seq::empty(),
    }
}

/// The strings of a JSON array of strings; `None` for any other value.
pub open spec fn text_list_of(v: JsonValue) -> Option<Seq<Seq<char>>> {
    match v {
        JsonValue::Array(items) => if forall|i: int| 0 <= i < items@.len() ==> is_text(#[trigger] items@[i]) {
            Some(items@.map_values(|x: JsonValue| text_or_empty(x)))
        } else {
            None
        },
        _ => None,
    }
}

pub open spec fn members_of(v: JsonValue) -> Option<Seq<(String, JsonValue)>> {
    match v {
        JsonValue::Object(m) => Some(m@),
        _ => None,
    }
}

/// A required string member.
pub open spec fn required_text(m: Seq<(String, JsonValue)>, key: Seq<char>) -> Option<Seq<char>> {
    match lookup(m, key) {
        Some(v) => text_of(v),
        None => None,
    }
}

/// A required list-of-strings member.
pub open spec fn required_list(m: Seq<(String, JsonValue)>, key: Seq<char>) -> Option<Seq<Seq<char>>> {
    match lookup(m, key) {
        Some(v) => text_list_of(v),
        None => None,
    }
}

/// An optional list-of-strings member: absent means empty.
pub open spec fn optional_list(m: Seq<(String, JsonValue)>, key: Seq<char>) -> Option<Seq<Seq<char>>> {
    match lookup(m, key) {
        Some(v) => text_list_of(v),
        None => Some(Seq::empty()),
    }
}

/// `v` is an area detail object and `d` holds its name and code.
pub open spec fn area_detail_from(v: JsonValue, d: Option<AreaDetail>) -> bool {
    match members_of(v) {
        Some(m) => if required_text(m, "name"@) is Some && required_text(m, "code"@) is Some {
            d matches Some(d) && d.name@ == required_text(m, "name"@)->0 && d.code@ == required_text(
                m,
                "code"@,
            )->0
        } else {
            d is None
        },
        None => d is None,
    }
}

pub open spec fn area_detail_ok(v: JsonValue) -> bool {
    members_of(v) matches Some(m) && required_text(m, "name"@) is Some && required_text(m, "code"@) is Some
}

/// The six optional attribute lists of an area object are all well typed.
pub open spec fn lists_ok(m: Seq<(String, JsonValue)>) -> bool {
    &&& optional_list(m, "weatherCodes"@) is Some
    &&& optional_list(m, "weathers"@) is Some
    &&& optional_list(m, "winds"@) is Some
    &&& optional_list(m, "waves"@) is Some
    &&& optional_list(m, "pops"@) is Some
    &&& optional_list(m, "temps"@) is Some
}

/// `v` is an area object.
pub open spec fn area_ok(v: JsonValue) -> bool {
    let m = members_of(v)->0;
    &&& members_of(v) is Some
    &&& lookup(m, "area"@) is Some
    &&& area_detail_ok(lookup(m, "area"@)->0)
    &&& lists_ok(m)
}

/// `a` is what the area object `v` holds, each omitted list empty.
pub open spec fn area_from(v: JsonValue, a: Area) -> bool {
    let m = members_of(v)->0;
    &&& area_detail_from(lookup(m, "area"@)->0, Some(a.area))
    &&& Some(texts(a.weather_codes@)) == optional_list(m, "weatherCodes"@)
    &&& Some(texts(a.weathers@)) == optional_list(m, "weathers"@)
    &&& Some(texts(a.winds@)) == optional_list(m, "winds"@)
    &&& Some(texts(a.waves@)) == optional_list(m, "waves"@)
    &&& Some(texts(a.pops@)) == optional_list(m, "pops"@)
    &&& Some(texts(a.temps@)) == optional_list(m, "temps"@)
}

/// The members of an array, if `v` is one.
pub open spec fn items_of(v: JsonValue) -> Option<Seq<JsonValue>> {
    match v {
        JsonValue::Array(items) => Some(items@),
        _ => None,
    }
}

/// The elements of an array member.
pub open spec fn array_member(m: Seq<(String, JsonValue)>, key: Seq<char>) -> Option<Seq<JsonValue>> {
    match lookup(m, key) {
        Some(x) => items_of(x),
        None => None,
    }
}

/// `v` is a time-series object.
pub open spec fn series_ok(v: JsonValue) -> bool {
    let m = members_of(v)->0;
    let items = array_member(m, "areas"@)->0;
    &&& members_of(v) is Some
    &&& required_list(m, "timeDefines"@) is Some
    &&& array_member(m, "areas"@) is Some
    &&& forall|i: int| 0 <= i < items.len() ==> area_ok(#[trigger] items[i])
}

/// `t` is what the time-series object `v` holds.
pub open spec fn series_from(v: JsonValue, t: TimeSeries) -> bool {
    let m = members_of(v)->0;
    let items = array_member(m, "areas"@)->0;
    &&& Some(texts(t.time_defines@)) == required_list(m, "timeDefines"@)
    &&& t.areas@.len() == items.len()
    &&& forall|i: int| 0 <= i < items.len() ==> area_from(items[i], #[trigger] t.areas@[i])
}

/// `v` is a forecast document object.
pub open spec fn report_ok(v: JsonValue) -> bool {
    let m = members_of(v)->0;
    let items = array_member(m, "timeSeries"@)->0;
    &&& members_of(v) is Some
    &&& required_text(m, "publishingOffice"@) is Some
    &&& required_text(m, "reportDatetime"@) is Some
    &&& array_member(m, "timeSeries"@) is Some
    &&& forall|i: int| 0 <= i < items.len() ==> series_ok(#[trigger] items[i])
}

/// `r` is what the forecast document object `v` holds.
pub open spec fn report_from(v: JsonValue, r: WeatherReport) -> bool {
    let m = members_of(v)->0;
    let items = array_member(m, "timeSeries"@)->0;
    &&& Some(r.publishingOffice@) == required_text(m, "publishingOffice"@)
    &&& Some(r.reportDatetime@) == required_text(m, "reportDatetime"@)
    &&& r.timeSeries@.len() == items.len()
    &&& forall|i: int| 0 <= i < items.len() ==> series_from(items[i], #[trigger] r.timeSeries@[i])
}

/// The document that a fetched tree carries: the tree itself when it is an
/// object, its first element when it is a non-empty array.
pub open spec fn document_of(v: JsonValue) -> Option<JsonValue> {
    match v {
        JsonValue::Array(items) => if items@.len() > 0 {
            Some(items@[0])
        } else {
            None
        },
        JsonValue::Object(_) => Some(v),
        _ => None,
    }
}

fn malformed(field: &str) -> (e: DocumentError)
    ensures
        e is Malformed,
{
    let mut text = String::from_str("missing or invalid field: ");
    text.append(field);
    DocumentError::Malformed(text)
}

/// Reads an array of strings.
pub fn decode_text_list(v: &JsonValue) -> (r: Option<Vec<String>>)
    ensures
        match r {
            Some(l) => text_list_of(*v) == Some(texts(l@)),
            None => text_list_of(*v) is None,
        },
{
    match v {
        JsonValue::Array(items) => {
            let mut out: Vec<String> = Vec::new();
            let mut i: usize = 0;
            while i < items.len()
                invariant
                    *v == JsonValue::Array(*items),
                    i <= items@.len(),
                    out@.len() == i,
                    forall|j: int|
                        0 <= j < i ==> is_text(#[trigger] items@[j]) && out@[j]@ == text_or_empty(
                            items@[j],
                        ),
                decreases items.len() - i,
            {
                match &items[i] {
                    JsonValue::Text(s) => {
                        out.push(s.clone());
                    },
                    _ => {
                        assert(!is_text(items@[i as int]));
                        assert(!(forall|j: int|
                            0 <= j < items@.len() ==> is_text(#[trigger] items@[j])));
                        return None;
                    },
                }
                i = i + 1;
            }
            assert(texts(out@) =~= items@.map_values(|x: JsonValue| text_or_empty(x)));
            Some(out)
        },
        _ => None,
    }
}

/// Reads a required string member.
fn decode_required_text(m: &Vec<(String, JsonValue)>, key: &str) -> (r: Result<String, DocumentError>)
    ensures
        match r {
            Ok(s) => required_text(m@, key@) == Some(s@),
            Err(e) => required_text(m@, key@) is None && e is Malformed,
        },
{
    let k = String::from_str(key);
    match get_member(m, &k) {
        Some(JsonValue::Text(s)) => Ok(s.clone()),
        _ => Err(malformed(key)),
    }
}

/// Reads a required list-of-strings member.
fn decode_required_list(m: &Vec<(String, JsonValue)>, key: &str) -> (r: Result<Vec<String>, DocumentError>)
    ensures
        match r {
            Ok(l) => required_list(m@, key@) == Some(texts(l@)),
            Err(e) => required_list(m@, key@) is None && e is Malformed,
        },
{
    let k = String::from_str(key);
    match get_member(m, &k) {
        Some(v) => match decode_text_list(v) {
            Some(l) => Ok(l),
            None => Err(malformed(key)),
        },
        None => Err(malformed(key)),
    }
}

/// Reads an optional list-of-strings member; an absent one is empty.
fn decode_optional_list(m: &Vec<(String, JsonValue)>, key: &str) -> (r: Result<Vec<String>, DocumentError>)
    ensures
        match r {
            Ok(l) => optional_list(m@, key@) == Some(texts(l@)),
            Err(e) => optional_list(m@, key@) is None && e is Malformed,
        },
{
    let k = String::from_str(key);
    match get_member(m, &k) {
        Some(v) => match decode_text_list(v) {
            Some(l) => Ok(l),
            None => Err(malformed(key)),
        },
        None => {
            let empty: Vec<String> = Vec::new();
            assert(texts(empty@) =~= Seq::empty());
            Ok(empty)
        },
    }
}

impl AreaDetail {
    /// Reads an area detail object.
    pub fn from_json(v: &JsonValue) -> (r: Result<AreaDetail, DocumentError>)
        ensures
            r is Ok <==> area_detail_ok(*v),
            r matches Ok(d) ==> area_detail_from(*v, Some(d)),
            r matches Err(e) ==> e is Malformed,
    {
        match v {
            JsonValue::Object(m) => {
                let name = decode_required_text(m, "name")?;
                let code = decode_required_text(m, "code")?;
                Ok(AreaDetail { name, code })
            },
            _ => Err(malformed("area")),
        }
    }
}

impl Area {
    /// Reads an area object; each attribute list that it omits is empty.
    pub fn from_json(v: &JsonValue) -> (r: Result<Area, DocumentError>)
        ensures
            r is Ok <==> area_ok(*v),
            r matches Ok(a) ==> area_from(*v, a),
            r matches Err(e) ==> e is Malformed,
    {
        match v {
            JsonValue::Object(m) => {
                let k = String::from_str("area");
                let area = match get_member(m, &k) {
                    Some(d) => AreaDetail::from_json(d)?,
                    None => {
                        return Err(malformed("area"));
                    },
                };
                let weather_codes = decode_optional_list(m, "weatherCodes")?;
                let weathers = decode_optional_list(m, "weathers")?;
                let winds = decode_optional_list(m, "winds")?;
                let waves = decode_optional_list(m, "waves")?;
                let pops = decode_optional_list(m, "pops")?;
                let temps = decode_optional_list(m, "temps")?;
                Ok(Area { area, weather_codes, weathers, winds, waves, pops, temps })
            },
            _ => Err(malformed("areas")),
        }
    }
}

impl TimeSeries {
    /// Reads a time-series object.
    pub fn from_json(v: &JsonValue) -> (r: Result<TimeSeries, DocumentError>)
        ensures
            r is Ok <==> series_ok(*v),
            r matches Ok(t) ==> series_from(*v, t),
            r matches Err(e) ==> e is Malformed,
    {
        match v {
            JsonValue::Object(m) => {
                let time_defines = decode_required_list(m, "timeDefines")?;
                let k = String::from_str("areas");
                match get_member(m, &k) {
                    Some(JsonValue::Array(items)) => {
                        let mut areas: Vec<Area> = Vec::new();
                        let mut i: usize = 0;
                        while i < items.len()
                            invariant
                                *v == JsonValue::Object(*m),
                                lookup(m@, "areas"@) == Some(JsonValue::Array(*items)),
                                i <= items@.len(),
                                areas@.len() == i,
                                forall|j: int|
                                    0 <= j < i ==> area_ok(#[trigger] items@[j]) && area_from(
                                        items@[j],
                                        areas@[j],
                                    ),
                            decreases items.len() - i,
                        {
                            match Area::from_json(&items[i]) {
                                Ok(a) => areas.push(a),
                                Err(e) => {
                                    let ghost its = array_member(members_of(*v)->0, "areas"@)->0;
                                    assert(its[i as int] == items@[i as int]);
                                    assert(!area_ok(its[i as int]));
                                    return Err(e);
                                },
                            }
                            i = i + 1;
                        }
                        Ok(TimeSeries { time_defines, areas })
                    },
                    _ => Err(malformed("areas")),
                }
            },
            _ => Err(malformed("timeSeries")),
        }
    }
}

impl WeatherReport {
    /// Reads a forecast document object.
    pub fn from_json(v: &JsonValue) -> (r: Result<WeatherReport, DocumentError>)
        ensures
            r is Ok <==> report_ok(*v),
            r matches Ok(rep) ==> report_from(*v, rep),
            r matches Err(e) ==> e is Malformed,
    {
        match v {
            JsonValue::Object(m) => {
                let office = decode_required_text(m, "publishingOffice")?;
                let datetime = decode_required_text(m, "reportDatetime")?;
                let k = String::from_str("timeSeries");
                match get_member(m, &k) {
                    Some(JsonValue::Array(items)) => {
                        let mut series: Vec<TimeSeries> = Vec::new();
                        let mut i: usize = 0;
                        while i < items.len()
                            invariant
                                *v == JsonValue::Object(*m),
                                lookup(m@, "timeSeries"@) == Some(JsonValue::Array(*items)),
                                i <= items@.len(),
                                series@.len() == i,
                                forall|j: int|
                                    0 <= j < i ==> series_ok(#[trigger] items@[j]) && series_from(
                                        items@[j],
                                        series@[j],
                                    ),
                            decreases items.len() - i,
                        {
                            match TimeSeries::from_json(&items[i]) {
                                Ok(t) => series.push(t),
                                Err(e) => {
                                    let ghost its = array_member(members_of(*v)->0, "timeSeries"@)->0;
                                    assert(its[i as int] == items@[i as int]);
                                    assert(!series_ok(its[i as int]));
                                    return Err(e);
                                },
                            }
                            i = i + 1;
                        }
                        Ok(WeatherReport { publishingOffice: office, reportDatetime: datetime, timeSeries: series })
                    },
                    _ => Err(malformed("timeSeries")),
                }
            },
            _ => Err(malformed("document")),
        }
    }

    /// Takes the document out of a fetched tree: the tree itself when it is
    /// an object, its first element when it is an array (the rest is not
    /// read). An empty array is `EmptyDocumentArray`.
    pub fn from_fetched(v: &JsonValue) -> (r: Result<WeatherReport, DocumentError>)
        ensures
            r is Ok <==> (document_of(*v) matches Some(d) && report_ok(d)),
            r matches Ok(rep) ==> report_from(document_of(*v)->0, rep),
            r matches Err(e) ==> (e is EmptyDocumentArray <==> items_of(*v) == Some(
                Seq::<JsonValue>::empty(),
            )),
    {
        match v {
            JsonValue::Array(items) => {
                if items.len() == 0 {
                    assert(items@ =~= Seq::<JsonValue>::empty());
                    Err(DocumentError::EmptyDocumentArray)
                } else {
                    WeatherReport::from_json(&items[0])
                }
            },
            JsonValue::Object(_) => WeatherReport::from_json(v),
            _ => Err(malformed("document")),
        }
    }
}

/// An attribute list that an area object omits is read as empty; one that it
/// carries is read as it stands.
pub open spec fn list_read(m: Seq<(String, JsonValue)>, key: Seq<char>, l: Seq<Seq<char>>) -> bool {
    match lookup(m, key) {
        None => l == Seq::<Seq<char>>::empty(),
        Some(x) => text_list_of(x) == Some(l),
    }
}

/// Each of the six optional attribute lists of a read area is empty where the
/// object omits it and holds the object's strings where it carries it.
pub proof fn lemma_optional_lists(v: JsonValue, a: Area)
    requires
        area_ok(v),
        area_from(v, a),
    ensures
        list_read(members_of(v)->0, "weatherCodes"@, texts(a.weather_codes@)),
        list_read(members_of(v)->0, "weathers"@, texts(a.weathers@)),
        list_read(members_of(v)->0, "winds"@, texts(a.winds@)),
        list_read(members_of(v)->0, "waves"@, texts(a.waves@)),
        list_read(members_of(v)->0, "pops"@, texts(a.pops@)),
        list_read(members_of(v)->0, "temps"@, texts(a.temps@)),
{
}

} // verus!
