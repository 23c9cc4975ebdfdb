//! The full text dump of a forecast document.
use vstd::prelude::*;
use crate::model::{Area, TimeSeries, WeatherReport, texts};
use crate::text::{decimal, normalized, push_decimal, sanitize_unicode_spaces};

verus! {

/// The debug notation of a list of texts: brackets, each text quoted and
/// escaped, separated by a comma and a space.
pub uninterp spec fn debug_list(items: Seq<Seq<char>>) -> Seq<char>;

/// Relies on the `Debug` formatting of `Vec<String>`; the result depends on
/// the texts alone.
#[verifier::external_body]
fn debug_texts(v: &Vec<String>) -> (r: String)
    ensures
        r@ == debug_list(texts(v@)),
{
    format!("{:?}", v)
}

/// The texts one after another.
pub open spec fn concat(parts: Seq<Seq<char>>) -> Seq<char>
    decreases parts.len(),
{
    if parts.len() == 0 {
        Seq::empty()
    } else {
        concat(parts.drop_last()) + parts.last()
    }
}

/// A labelled line with the list, or nothing when the list is empty.
pub open spec fn list_line(label: Seq<char>, items: Seq<Seq<char>>) -> Seq<char> {
    if items.len() == 0 {
        Seq::empty()
    } else {
        label + debug_list(items) + "\n"@
    }
}

pub open spec fn normalized_all(items: Seq<Seq<char>>) -> Seq<Seq<char>> {
    items.map_values(|t: Seq<char>| normalized(t))
}

/// The lines of one area: its name and code, then each non-empty attribute
/// list in a fixed order, the free texts normalised.
pub open spec fn area_text(a: Area) -> Seq<char> {
    "    Area: "@ + a.area.name@ + " ("@ + a.area.code@ + ")\n"@
        + list_line("    Weather Codes: "@, texts(a.weather_codes@))
        + list_line("    Weathers: "@, normalized_all(texts(a.weathers@)))
        + list_line("    Winds: "@, normalized_all(texts(a.winds@)))
        + list_line("    Waves: "@, normalized_all(texts(a.waves@)))
        + list_line("    Pops: "@, texts(a.pops@))
        + list_line("    Temps: "@, texts(a.temps@))
}

pub open spec fn instant_line(t: Seq<char>) -> Seq<char> {
    "    "@ + t + "\n"@
}

/// The lines of block number `i`: its instants, then its areas.
pub open spec fn block_text(i: nat, b: TimeSeries) -> Seq<char> {
    "  ["@ + decimal(i) + "] Time Defines:\n"@
        + concat(texts(b.time_defines@).map_values(|t: Seq<char>| instant_line(t)))
        + "  ["@ + decimal(i) + "] Areas:\n"@
        + concat(b.areas@.map_values(|a: Area| area_text(a)))
}

pub open spec fn blocks_text(blocks: Seq<TimeSeries>) -> Seq<char>
    decreases blocks.len(),
{
    if blocks.len() == 0 {
        Seq::empty()
    } else {
        blocks_text(blocks.drop_last()) + block_text((blocks.len() - 1) as nat, blocks.last())
    }
}

/// The whole dump: office, report time, then every block.
pub open spec fn summary_text(r: WeatherReport) -> Seq<char> {
    "Publishing Office: "@ + r.publishingOffice@ + "\n"@ + "Report Datetime: "@
        + r.reportDatetime@ + "\n"@ + "Time Series:\n"@ + blocks_text(r.timeSeries@)
}

fn push_list_line(out: &mut String, label: &str, items: &Vec<String>)
    ensures
        final(out)@ == old(out)@ + list_line(label@, texts(items@)),
{
    if items.len() > 0 {
        out.append(label);
        let d = debug_texts(items);
        out.append(d.as_str());
        out.append("\n");
        assert(out@ =~= old(out)@ + list_line(label@, texts(items@)));
    } else {
        assert(list_line(label@, texts(items@)) =~= Seq::<char>::empty());
        assert(out@ =~= old(out)@ + Seq::<char>::empty());
    }
}

fn sanitized(v: &Vec<String>) -> (r: Vec<String>)
    ensures
        texts(r@) == normalized_all(texts(v@)),
{
    let mut out: Vec<String> = Vec::new();
    let mut i: usize = 0;
    while i < v.len()
        invariant
            i <= v@.len(),
            out@.len() == i,
            forall|j: int| 0 <= j < i ==> (#[trigger] out@[j])@ == normalized(v@[j]@),
        decreases v.len() - i,
    {
        out.push(sanitize_unicode_spaces(v[i].as_str()));
        i = i + 1;
    }
    assert(texts(out@) =~= normalized_all(texts(v@)));
    out
}

fn push_area(out: &mut String, a: &Area)
    ensures
        final(out)@ == old(out)@ + area_text(*a),
{
    out.append("    Area: ");
    out.append(a.area.name.as_str());
    out.append(" (");
    out.append(a.area.code.as_str());
    out.append(")\n");
    push_list_line(out, "    Weather Codes: ", &a.weather_codes);
    push_list_line(out, "    Weathers: ", &sanitized(&a.weathers));
    push_list_line(out, "    Winds: ", &sanitized(&a.winds));
    push_list_line(out, "    Waves: ", &sanitized(&a.waves));
    push_list_line(out, "    Pops: ", &a.pops);
    push_list_line(out, "    Temps: ", &a.temps);
    assert(out@ =~= old(out)@ + area_text(*a));
}

fn push_block(out: &mut String, i: usize, b: &TimeSeries)
    ensures
        final(out)@ == old(out)@ + block_text(i as nat, *b),
{
    out.append("  [");
    push_decimal(out, i);
    out.append("] Time Defines:\n");
    let ghost mid = out@;
    let ghost lines = texts(b.time_defines@).map_values(|t: Seq<char>| instant_line(t));
    let mut k: usize = 0;
    while k < b.time_defines.len()
        invariant
            k <= b.time_defines@.len(),
            lines == texts(b.time_defines@).map_values(|t: Seq<char>| instant_line(t)),
            out@ == mid + concat(lines.subrange(0, k as int)),
        decreases b.time_defines.len() - k,
    {
        assert(lines.subrange(0, k + 1).drop_last() =~= lines.subrange(0, k as int));
        out.append("    ");
        out.append(b.time_defines[k].as_str());
        out.append("\n");
        assert(out@ =~= mid + concat(lines.subrange(0, k + 1)));
        k = k + 1;
    }
    assert(lines.subrange(0, lines.len() as int) =~= lines);
    out.append("  [");
    push_decimal(out, i);
    out.append("] Areas:\n");
    let ghost mid2 = out@;
    let ghost parts = b.areas@.map_values(|a: Area| area_text(a));
    let mut j: usize = 0;
    while j < b.areas.len()
        invariant
            j <= b.areas@.len(),
            parts == b.areas@.map_values(|a: Area| area_text(a)),
            out@ == mid2 + concat(parts.subrange(0, j as int)),
        decreases b.areas.len() - j,
    {
        assert(parts.subrange(0, j + 1).drop_last() =~= parts.subrange(0, j as int));
        push_area(out, &b.areas[j]);
        assert(out@ =~= mid2 + concat(parts.subrange(0, j + 1)));
        j = j + 1;
    }
    assert(parts.subrange(0, parts.len() as int) =~= parts);
    assert(out@ =~= old(out)@ + block_text(i as nat, *b));
}

impl WeatherReport {
    /// The full text dump of the document.
    pub fn summary(&self) -> (r: String)
        ensures
            r@ == summary_text(*self),
    {
        let mut out = String::new();
        out.append("Publishing Office: ");
        out.append(self.publishingOffice.as_str());
        out.append("\n");
        out.append("Report Datetime: ");
        out.append(self.reportDatetime.as_str());
        out.append("\n");
        out.append("Time Series:\n");
        let ghost head = out@;
        let blocks = &self.timeSeries;
        let mut i: usize = 0;
        while i < blocks.len()
            invariant
                blocks == &self.timeSeries,
                i <= blocks@.len(),
                out@ == head + blocks_text(blocks@.subrange(0, i as int)),
            decreases blocks.len() - i,
        {
            let ghost next = blocks@.subrange(0, i + 1);
            assert(next.drop_last() =~= blocks@.subrange(0, i as int));
            push_block(&mut out, i, &blocks[i]);
            assert(out@ =~= head + blocks_text(next));
            i = i + 1;
        }
        assert(blocks@.subrange(0, blocks@.len() as int) =~= blocks@);
        assert(out@ =~= summary_text(*self));
        out
    }
}

} // verus!
