//! Extraction of time-labelled observations and the table reports.
use vstd::prelude::*;
use crate::model::{Area, TimeSeries, WeatherReport, texts};
use crate::text::{joined, normalized, padded, push_joined, push_padded, sanitize_unicode_spaces};
use crate::time::{Stamp, clock_fields, parse_stamp, time_label};

verus! {

/// One area of one block, labelled with the first instant of its block.
#[derive(Debug, Clone)]
pub struct TimeSpecificData {
    pub time: Stamp,
    pub area_name: String,
    pub weathers: Vec<String>,
    pub temps: Vec<String>,
}

/// Why a report could not be rendered.
#[derive(Debug, Clone)]
pub enum ReportError {
    /// A block has no first instant, or it is not a date-time with an offset.
    TimestampParseError,
}

/// The attribute that a table shows.
#[derive(Debug, Clone, Copy)]
pub enum Field {
    Weather,
    Temperature,
}

/// The first instant of the block can be read.
pub open spec fn block_time_ok(b: TimeSeries) -> bool {
    b.time_defines@.len() > 0 && clock_fields(b.time_defines@[0]@) is Some
}

pub open spec fn times_ok(blocks: Seq<TimeSeries>) -> bool {
    forall|i: int| 0 <= i < blocks.len() ==> block_time_ok(#[trigger] blocks[i])
}

/// The (block, area) positions of a document, block by block and area by
/// area within a block.
pub open spec fn slots(blocks: Seq<TimeSeries>) -> Seq<(int, int)>
    decreases blocks.len(),
{
    if blocks.len() == 0 {
        Seq::empty()
    } else {
        slots(blocks.drop_last()) + Seq::new(
            blocks.last().areas@.len(),
            |j: int| ((blocks.len() - 1) as int, j),
        )
    }
}

/// The number of areas over all blocks.
pub open spec fn area_total(blocks: Seq<TimeSeries>) -> nat
    decreases blocks.len(),
{
    if blocks.len() == 0 {
        0
    } else {
        area_total(blocks.drop_last()) + blocks.last().areas@.len()
    }
}

/// `r` is the record of area `a` of block `b`.
pub open spec fn record_from(b: TimeSeries, a: Area, r: TimeSpecificData) -> bool {
    &&& r.time.wf()
    &&& clock_fields(b.time_defines@[0]@) == Some(r.time.fields())
    &&& r.area_name@ == a.area.name@
    &&& texts(r.weathers@) == texts(a.weathers@)
    &&& texts(r.temps@) == texts(a.temps@)
}

/// `out` holds one record for each position of `slots(blocks)`, in that order.
pub open spec fn extracted(blocks: Seq<TimeSeries>, out: Seq<TimeSpecificData>) -> bool {
    let s = slots(blocks);
    &&& out.len() == s.len()
    &&& forall|k: int|
        0 <= k < out.len() ==> record_from(
            blocks[s[k].0],
            blocks[s[k].0].areas@[s[k].1],
            #[trigger] out[k],
        )
}

proof fn lemma_slots_bounds(blocks: Seq<TimeSeries>)
    ensures
        forall|k: int|
            0 <= k < slots(blocks).len() ==> 0 <= (#[trigger] slots(blocks)[k]).0 < blocks.len()
                && 0 <= slots(blocks)[k].1 < blocks[slots(blocks)[k].0].areas@.len(),
    decreases blocks.len(),
{
    if blocks.len() > 0 {
        lemma_slots_bounds(blocks.drop_last());
        assert forall|k: int| 0 <= k < slots(blocks).len() implies 0 <= (
        #[trigger] slots(blocks)[k]).0 < blocks.len() && 0 <= slots(blocks)[k].1 < blocks[slots(
            blocks,
        )[k].0].areas@.len() by {
            let p = slots(blocks.drop_last());
            if k < p.len() {
                assert(slots(blocks)[k] == p[k]);
                assert(blocks.drop_last()[p[k].0] == blocks[p[k].0]);
            }
        }
    }
}

/// The record count is the number of areas over all blocks.
pub proof fn lemma_extraction_count(blocks: Seq<TimeSeries>)
    ensures
        slots(blocks).len() == area_total(blocks),
    decreases blocks.len(),
{
    if blocks.len() > 0 {
        lemma_extraction_count(blocks.drop_last());
    }
}

fn copy_texts(v: &Vec<String>) -> (r: Vec<String>)
    ensures
        texts(r@) == texts(v@),
{
    let mut out: Vec<String> = Vec::new();
    let mut i: usize = 0;
    while i < v.len()
        invariant
            i <= v@.len(),
            out@.len() == i,
            forall|j: int| 0 <= j < i ==> (#[trigger] out@[j])@ == v@[j]@,
        decreases v.len() - i,
    {
        out.push(v[i].clone());
        i = i + 1;
    }
    assert(texts(out@) =~= texts(v@));
    out
}

impl WeatherReport {
    /// One record per area of each block, in block order and then area order;
    /// every area of a block is labelled with the block's first instant.
    pub fn extract_time_specific_data(&self) -> (r: Result<Vec<TimeSpecificData>, ReportError>)
        ensures
            r is Ok <==> times_ok(self.timeSeries@),
            r matches Ok(out) ==> extracted(self.timeSeries@, out@) && out@.len() == area_total(
                self.timeSeries@,
            ),
    {
        let blocks = &self.timeSeries;
        let mut data: Vec<TimeSpecificData> = Vec::new();
        let mut i: usize = 0;
        while i < blocks.len()
            invariant
                blocks == &self.timeSeries,
                i <= blocks@.len(),
                forall|b: int| 0 <= b < i ==> block_time_ok(#[trigger] blocks@[b]),
                extracted(blocks@.subrange(0, i as int), data@),
            decreases blocks.len() - i,
        {
            let block = &blocks[i];
            if block.time_defines.len() == 0 {
                assert(!block_time_ok(blocks@[i as int]));
                return Err(ReportError::TimestampParseError);
            }
            let time = match parse_stamp(block.time_defines[0].as_str()) {
                Some(t) => t,
                None => {
                    assert(!block_time_ok(blocks@[i as int]));
                    return Err(ReportError::TimestampParseError);
                },
            };
            let ghost pre = blocks@.subrange(0, i as int);
            let ghost next = blocks@.subrange(0, i + 1);
            assert(next.drop_last() =~= pre);
            let ghost base = data@.len();
            proof {
                lemma_slots_bounds(pre);
            }
            let mut j: usize = 0;
            while j < block.areas.len()
                invariant
                    block == &blocks@[i as int],
                    i < blocks@.len(),
                    clock_fields(block.time_defines@[0]@) == Some(time.fields()),
                    time.wf(),
                    pre == blocks@.subrange(0, i as int),
                    base == slots(pre).len(),
                    forall|k: int|
                        0 <= k < slots(pre).len() ==> 0 <= (#[trigger] slots(pre)[k]).0 < pre.len()
                            && 0 <= slots(pre)[k].1 < pre[slots(pre)[k].0].areas@.len(),
                    j <= block.areas@.len(),
                    data@.len() == base + j,
                    forall|k: int|
                        0 <= k < base ==> record_from(
                            pre[slots(pre)[k].0],
                            pre[slots(pre)[k].0].areas@[slots(pre)[k].1],
                            #[trigger] data@[k],
                        ),
                    forall|jj: int|
                        0 <= jj < j ==> record_from(
                            *block,
                            block.areas@[jj],
                            #[trigger] data@[base + jj],
                        ),
                decreases block.areas.len() - j,
            {
                let area = &block.areas[j];
                let rec = TimeSpecificData {
                    time,
                    area_name: area.area.name.clone(),
                    weathers: copy_texts(&area.weathers),
                    temps: copy_texts(&area.temps),
                };
                data.push(rec);
                assert(data@[base + j] == rec);
                j = j + 1;
            }
            proof {
                let s = slots(next);
                assert(s =~= slots(pre) + Seq::new(
                    blocks@[i as int].areas@.len(),
                    |jj: int| (i as int, jj),
                ));
                assert forall|k: int| 0 <= k < data@.len() implies record_from(
                    next[s[k].0],
                    next[s[k].0].areas@[s[k].1],
                    #[trigger] data@[k],
                ) by {
                    if k < base {
                        assert(s[k] == slots(pre)[k]);
                        assert(next[s[k].0] == pre[s[k].0]);
                    } else {
                        assert(s[k] == (i as int, k - base));
                        assert(next[i as int] == blocks@[i as int]);
                        assert(data@[base + (k - base)] == data@[k]);
                    }
                }
            }
            i = i + 1;
        }
        assert(blocks@.subrange(0, blocks@.len() as int) =~= blocks@);
        proof {
            lemma_extraction_count(blocks@);
        }
        Ok(data)
    }
}

/// The values of the selected attribute as shown: weather texts with their
/// ideographic spaces normalised, temperatures as they are.
pub open spec fn field_texts(r: TimeSpecificData, f: Field) -> Seq<Seq<char>> {
    match f {
        Field::Weather => texts(r.weathers@).map_values(|t: Seq<char>| normalized(t)),
        Field::Temperature => texts(r.temps@),
    }
}

pub open spec fn value_width(f: Field) -> nat {
    match f {
        Field::Weather => 15,
        Field::Temperature => 16,
    }
}

/// One table row: time, area name and the joined values, each column padded.
pub open spec fn row(r: TimeSpecificData, f: Field) -> Seq<char> {
    "| "@ + padded(time_label(r.time), 15) + " | "@ + padded(r.area_name@, 12) + " | "@ + padded(
        joined(field_texts(r, f), " / "@),
        value_width(f),
    ) + " |"@
}

/// The rows of the records whose selected attribute is not empty, in order.
pub open spec fn rows(obs: Seq<TimeSpecificData>, f: Field) -> Seq<Seq<char>>
    decreases obs.len(),
{
    if obs.len() == 0 {
        Seq::empty()
    } else if field_texts(obs.last(), f).len() > 0 {
        rows(obs.drop_last(), f).push(row(obs.last(), f))
    } else {
        rows(obs.drop_last(), f)
    }
}

/// The column titles and the dashed rule under them.
pub open spec fn header(f: Field) -> Seq<char> {
    match f {
        Field::Weather => WEATHER_HEADER@,
        Field::Temperature => TEMPERATURE_HEADER@,
    }
}

/// The table: header and rows on separate lines; empty when no row is shown.
pub open spec fn table(obs: Seq<TimeSpecificData>, f: Field) -> Seq<char> {
    let rs = rows(obs, f);
    if rs.len() == 0 {
        Seq::empty()
    } else {
        header(f) + "\n"@ + joined(rs, "\n"@)
    }
}

pub const WEATHER_HEADER: &'static str = "| Time            | Area         | Weather         |\n| --------------- | ------------ | --------------- |";

pub const TEMPERATURE_HEADER: &'static str = "| Time            | Area         | Temperature (\u{2103}) |\n| --------------- | ------------ | ---------------- |";

fn sanitized_texts(v: &Vec<String>) -> (r: Vec<String>)
    ensures
        texts(r@) == texts(v@).map_values(|t: Seq<char>| normalized(t)),
{
    let mut out: Vec<String> = Vec::new();
    let mut i: usize = 0;
    while i < v.len()
        invariant
            i <= v@.len(),
            out@.len() == i,
            forall|j: int| 0 <= j < i ==> (#[trigger] out@[j])@ == normalized(v@[j]@),
        decreases v.len() - i,
    {
        out.push(sanitize_unicode_spaces(v[i].as_str()));
        i = i + 1;
    }
    assert(texts(out@) =~= texts(v@).map_values(|t: Seq<char>| normalized(t)));
    out
}

fn push_row(out: &mut String, r: &TimeSpecificData, f: Field)
    requires
        r.time.wf(),
    ensures
        final(out)@ == old(out)@ + row(*r, f),
{
    let mut label = String::new();
    r.time.push_label(&mut label);
    let mut value = String::new();
    match f {
        Field::Weather => {
            let clean = sanitized_texts(&r.weathers);
            push_joined(&mut value, &clean, " / ");
        },
        Field::Temperature => {
            push_joined(&mut value, &r.temps, " / ");
        },
    }
    let width: usize = match f {
        Field::Weather => 15,
        Field::Temperature => 16,
    };
    out.append("| ");
    push_padded(out, label.as_str(), 15);
    out.append(" | ");
    push_padded(out, r.area_name.as_str(), 12);
    out.append(" | ");
    push_padded(out, value.as_str(), width);
    out.append(" |");
    assert(out@ =~= old(out)@ + row(*r, f));
}

/// Renders the table of the selected attribute over the records whose
/// attribute is not empty; with no such record the result is empty.
pub fn render_table(data: &Vec<TimeSpecificData>, f: Field) -> (r: String)
    requires
        forall|i: int| 0 <= i < data@.len() ==> (#[trigger] data@[i]).time.wf(),
    ensures
        r@ == table(data@, f),
{
    let mut content = String::new();
    let mut count: usize = 0;
    let mut i: usize = 0;
    while i < data.len()
        invariant
            forall|i: int| 0 <= i < data@.len() ==> (#[trigger] data@[i]).time.wf(),
            i <= data@.len(),
            count == rows(data@.subrange(0, i as int), f).len(),
            count <= i,
            content@ == joined(rows(data@.subrange(0, i as int), f), "\n"@),
        decreases data.len() - i,
    {
        let ghost pre = data@.subrange(0, i as int);
        let ghost next = data@.subrange(0, i + 1);
        assert(next.drop_last() =~= pre);
        let rec = &data[i];
        let shown = match f {
            Field::Weather => rec.weathers.len() > 0,
            Field::Temperature => rec.temps.len() > 0,
        };
        if shown {
            let ghost rs = rows(pre, f);
            assert(rows(next, f) == rs.push(row(*rec, f)));
            assert(rs.push(row(*rec, f)).drop_last() =~= rs);
            if count > 0 {
                content.append("\n");
            }
            push_row(&mut content, rec, f);
            if count == 0 {
                assert(content@ =~= joined(rs.push(row(*rec, f)), "\n"@));
            } else {
                assert(content@ =~= joined(rs.push(row(*rec, f)), "\n"@));
            }
            count = count + 1;
        }
        i = i + 1;
    }
    assert(data@.subrange(0, data@.len() as int) =~= data@);
    if count == 0 {
        String::new()
    } else {
        let mut out = String::new();
        match f {
            Field::Weather => out.append(WEATHER_HEADER),
            Field::Temperature => out.append(TEMPERATURE_HEADER),
        }
        out.append("\n");
        out.append(content.as_str());
        assert(out@ =~= table(data@, f));
        out
    }
}

/// `s` is the table of the selected attribute over the document's records.
pub open spec fn report_table(blocks: Seq<TimeSeries>, f: Field, s: Seq<char>) -> bool {
    exists|out: Seq<TimeSpecificData>| extracted(blocks, out) && s == table(out, f)
}

proof fn lemma_extracted_wf(blocks: Seq<TimeSeries>, out: Seq<TimeSpecificData>)
    requires
        extracted(blocks, out),
    ensures
        forall|i: int| 0 <= i < out.len() ==> (#[trigger] out[i]).time.wf(),
{
    assert forall|i: int| 0 <= i < out.len() implies (#[trigger] out[i]).time.wf() by {
        let s = slots(blocks);
        assert(record_from(blocks[s[i].0], blocks[s[i].0].areas@[s[i].1], out[i]));
    }
}

impl WeatherReport {
    /// The table of one attribute over the document's records.
    pub fn display_time_specific_data(&self, f: Field) -> (r: Result<String, ReportError>)
        ensures
            r is Ok <==> times_ok(self.timeSeries@),
            r matches Ok(s) ==> report_table(self.timeSeries@, f, s@),
    {
        let data = self.extract_time_specific_data()?;
        proof {
            lemma_extracted_wf(self.timeSeries@, data@);
        }
        let s = render_table(&data, f);
        assert(extracted(self.timeSeries@, data@) && s@ == table(data@, f));
        Ok(s)
    }

    /// The weather table and the temperature table, each under its title.
    pub fn display_weather_and_temperature(&self) -> (r: Result<String, ReportError>)
        ensures
            r is Ok <==> times_ok(self.timeSeries@),
            r matches Ok(s) ==> exists|w: Seq<char>, t: Seq<char>|
                report_table(self.timeSeries@, Field::Weather, w) && report_table(
                    self.timeSeries@,
                    Field::Temperature,
                    t,
                ) && s@ == "Time-specific Weather:\n"@ + w + "\n"@ + "\nTime-specific Temperature:\n"@
                    + t + "\n"@,
    {
        let w = self.display_time_specific_data(Field::Weather)?;
        let t = self.display_time_specific_data(Field::Temperature)?;
        let mut output = String::new();
        output.append("Time-specific Weather:\n");
        output.append(w.as_str());
        output.append("\n");
        output.append("\nTime-specific Temperature:\n");
        output.append(t.as_str());
        output.append("\n");
        assert(output@ =~= "Time-specific Weather:\n"@ + w@ + "\n"@ + "\nTime-specific Temperature:\n"@
            + t@ + "\n"@);
        Ok(output)
    }
}

/// When no record has a value for the selected attribute, the table is empty:
/// not even the header is shown.
pub proof fn lemma_table_empty(obs: Seq<TimeSpecificData>, f: Field)
    requires
        forall|i: int| 0 <= i < obs.len() ==> field_texts(#[trigger] obs[i], f).len() == 0,
    ensures
        table(obs, f) == Seq::<char>::empty(),
{
    lemma_no_rows(obs, f);
}

proof fn lemma_no_rows(obs: Seq<TimeSpecificData>, f: Field)
    requires
        forall|i: int| 0 <= i < obs.len() ==> field_texts(#[trigger] obs[i], f).len() == 0,
    ensures
        rows(obs, f).len() == 0,
    decreases obs.len(),
{
    if obs.len() > 0 {
        let p = obs.drop_last();
        assert forall|i: int| 0 <= i < p.len() implies field_texts(#[trigger] p[i], f).len() == 0 by {
            assert(p[i] == obs[i]);
        }
        lemma_no_rows(p, f);
        assert(field_texts(obs[obs.len() - 1], f).len() == 0);
    }
}

} // verus!
