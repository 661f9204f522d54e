use crate::appending::{appended_in_turn, appends_keep_order};
use crate::float_bits::F64Bits;
use crate::sorting::{insertion_sort, neighbours_in_order, SortKey};
use crate::text_layout::{
    align_center, align_left, align_right, push_center, push_left, push_repeated, push_right,
    repeated,
};
use vstd::prelude::*;
use vstd::string::StringExecFns;

verus! {

/// One operation of a category, with its two average timings and the ratio
/// and percentage increase that the caller derived from them.
#[derive(Debug)]
pub struct RatioTableEntry {
    pub pallet: String,
    pub extrinsic: String,
    pub avg_extrinsic_time: F64Bits,
    pub avg_storage_root_time: F64Bits,
    pub ratio: F64Bits,
    pub percentage: F64Bits,
}

impl SortKey for RatioTableEntry {
    open spec fn spec_sort_key(&self) -> F64Bits {
        self.ratio
    }

    fn sort_key(&self) -> (r: F64Bits) {
        self.ratio
    }
}

/// The row that `raw_list` hands out for one entry.
pub type RatioRow<'a> = (&'a str, &'a str, F64Bits, F64Bits, F64Bits, F64Bits);

/// `t` carries every field of `e`, unchanged and in declaration order.
pub open spec fn exports_ratio_entry(t: RatioRow, e: RatioTableEntry) -> bool {
    &&& t.0@ == e.pallet@
    &&& t.1@ == e.extrinsic@
    &&& t.2 == e.avg_extrinsic_time
    &&& t.3 == e.avg_storage_root_time
    &&& t.4 == e.ratio
    &&& t.5 == e.percentage
}

/// Before any sort, the export lists the entries in the order they were
/// appended: rows that export, one for one, a table built from empty by
/// appending `entries` in turn export `entries` themselves.
pub proof fn raw_list_follows_appends(entries: Seq<RatioTableEntry>, rows: Seq<RatioRow>)
    requires
        rows.len() == appended_in_turn(entries).len(),
        forall|i: int|
            0 <= i < rows.len() ==> exports_ratio_entry(
                #[trigger] rows[i],
                appended_in_turn(entries)[i],
            ),
    ensures
        rows.len() == entries.len(),
        forall|i: int| 0 <= i < rows.len() ==> exports_ratio_entry(#[trigger] rows[i], entries[i]),
{
    appends_keep_order(entries);
}

/// The entries are in ascending order of ratio wherever two neighbours are
/// comparable.
pub open spec fn sorted_by_ratio(s: Seq<RatioTableEntry>) -> bool {
    neighbours_in_order(s, false)
}

/// `after` is what `sort_by_ratio` may leave of `before`: the same entries,
/// neighbours in ascending order of ratio, and nothing moved when they
/// already were.
pub open spec fn sorts_by_ratio(before: Seq<RatioTableEntry>, after: Seq<RatioTableEntry>) -> bool {
    &&& after.to_multiset() == before.to_multiset()
    &&& after.len() == before.len()
    &&& sorted_by_ratio(after)
    &&& sorted_by_ratio(before) ==> after == before
}

/// Sorting by ratio a second time changes nothing: whatever the first sort
/// left, the second returns unchanged.
pub proof fn sort_by_ratio_idempotent(
    t0: Seq<RatioTableEntry>,
    t1: Seq<RatioTableEntry>,
    t2: Seq<RatioTableEntry>,
)
    requires
        sorts_by_ratio(t0, t1),
        sorts_by_ratio(t1, t2),
    ensures
        t2 == t1,
{
}

/// Width of each column of the printed table.
pub const COLUMN_WIDTH: usize = 14;

/// Width of the percentage figure, which the two characters ` %` follow.
pub const INCREASE_WIDTH: usize = 12;

/// The header row: the four column titles, each centred.
pub open spec fn header_line() -> Seq<char> {
    seq!['|'] + align_center("Pallet"@, 14) + seq!['|'] + align_center("Extrinsic"@, 14) + seq![
        '|',
    ] + align_center("Ratio"@, 14) + seq!['|'] + align_center("Increase"@, 14) + seq!['|', '\n']
}

/// `count` column-wide runs of dashes, each opened by a `|`.
pub open spec fn dash_groups(count: nat) -> Seq<char>
    decreases count,
{
    if count == 0 {
        Seq::empty()
    } else {
        dash_groups((count - 1) as nat) + seq!['|'] + repeated('-', 14)
    }
}

/// The row of dashes under the header, one run per column.
pub open spec fn separator_line() -> Seq<char> {
    dash_groups(4) + seq!['|', '\n']
}

/// The row of one entry, given its ratio and percentage as text.
pub open spec fn body_line(
    e: RatioTableEntry,
    ratio_text: Seq<char>,
    percentage_text: Seq<char>,
) -> Seq<char> {
    seq!['|'] + align_left(e.pallet@, 14) + seq!['|'] + align_left(e.extrinsic@, 14) + seq!['|']
        + align_left(ratio_text, 14) + seq!['|'] + align_right(percentage_text, 12) + seq![
        ' ',
        '%',
        '|',
        '\n',
    ]
}

/// The rows of `entries`, the `i`th with the `i`th texts.
pub open spec fn body_lines(
    entries: Seq<RatioTableEntry>,
    ratio_texts: Seq<Seq<char>>,
    percentage_texts: Seq<Seq<char>>,
) -> Seq<char>
    decreases entries.len(),
{
    if entries.len() == 0 {
        Seq::empty()
    } else {
        let last = entries.len() - 1;
        body_lines(entries.drop_last(), ratio_texts, percentage_texts) + body_line(
            entries[last],
            ratio_texts[last],
            percentage_texts[last],
        )
    }
}

/// The whole printed table: header, separator, then one row per entry.
pub open spec fn rendered_table(
    entries: Seq<RatioTableEntry>,
    ratio_texts: Seq<Seq<char>>,
    percentage_texts: Seq<Seq<char>>,
) -> Seq<char> {
    header_line() + separator_line() + body_lines(entries, ratio_texts, percentage_texts)
}

pub open spec fn texts_view(v: Seq<String>) -> Seq<Seq<char>> {
    v.map_values(|s: String| s@)
}

/// Appends the row of `e`, with its ratio and percentage given as text.
fn push_body_line(out: &mut String, e: &RatioTableEntry, ratio_text: &str, percentage_text: &str)
    ensures
        final(out)@ == old(out)@ + body_line(*e, ratio_text@, percentage_text@),
{
    proof {
        reveal_strlit("|");
        reveal_strlit(" %|\n");
    }
    out.append("|");
    push_left(out, e.pallet.as_str(), COLUMN_WIDTH);
    out.append("|");
    push_left(out, e.extrinsic.as_str(), COLUMN_WIDTH);
    out.append("|");
    push_left(out, ratio_text, COLUMN_WIDTH);
    out.append("|");
    push_right(out, percentage_text, INCREASE_WIDTH);
    out.append(" %|\n");
    assert(out@ =~= old(out)@ + body_line(*e, ratio_text@, percentage_text@));
}

/// An ordered collection of per-operation ratio measurements.
#[derive(Debug)]
pub struct RatioTable {
    inner: Vec<RatioTableEntry>,
}

impl View for RatioTable {
    type V = Seq<RatioTableEntry>;

    closed spec fn view(&self) -> Seq<RatioTableEntry> {
        self.inner@
    }
}

impl RatioTable {
    pub fn new() -> (r: RatioTable)
        ensures
            r@ == Seq::<RatioTableEntry>::empty(),
    {
        RatioTable { inner: Vec::new() }
    }

    /// Appends one entry at the end.
    pub fn push(
        &mut self,
        pallet: String,
        extrinsic: String,
        avg_extrinsic_time: F64Bits,
        avg_storage_root_time: F64Bits,
        ratio: F64Bits,
        percentage: F64Bits,
    )
        ensures
            final(self)@ == old(self)@.push(
                RatioTableEntry {
                    pallet,
                    extrinsic,
                    avg_extrinsic_time,
                    avg_storage_root_time,
                    ratio,
                    percentage,
                },
            ),
    {
        self.inner.push(
            RatioTableEntry {
                pallet,
                extrinsic,
                avg_extrinsic_time,
                avg_storage_root_time,
                ratio,
                percentage,
            },
        );
    }

    /// The entries in their current order, one row each: pallet, extrinsic,
    /// average extrinsic time, average storage root time, ratio, percentage.
    pub fn raw_list(&self) -> (r: Vec<RatioRow<'_>>)
        ensures
            r@.len() == self@.len(),
            forall|i: int| 0 <= i < r@.len() ==> exports_ratio_entry(#[trigger] r@[i], self@[i]),
    {
        let mut r: Vec<RatioRow<'_>> = Vec::new();
        let n = self.inner.len();
        let mut i: usize = 0;
        while i < n
            invariant
                n == self@.len(),
                i <= n,
                r@.len() == i,
                forall|k: int| 0 <= k < i ==> exports_ratio_entry(#[trigger] r@[k], self@[k]),
            decreases n - i,
        {
            let e = &self.inner[i];
            r.push(
                (
                    e.pallet.as_str(),
                    e.extrinsic.as_str(),
                    e.avg_extrinsic_time,
                    e.avg_storage_root_time,
                    e.ratio,
                    e.percentage,
                ),
            );
            i = i + 1;
        }
        r
    }

    /// Reorders the entries by ascending ratio. A pair involving a NaN counts
    /// as equal; the sort never fails.
    pub fn sort_by_ratio(&mut self)
        ensures
            sorts_by_ratio(old(self)@, final(self)@),
    {
        insertion_sort(&mut self.inner, false);
    }

    /// The table as text, given each entry's ratio and percentage already
    /// written out: a centred header, a separator, and one row per entry in
    /// the current order.
    pub fn render_entries(&self, ratio_texts: &Vec<String>, percentage_texts: &Vec<String>) -> (r:
        String)
        requires
            ratio_texts@.len() == self@.len(),
            percentage_texts@.len() == self@.len(),
        ensures
            r@ == rendered_table(self@, texts_view(ratio_texts@), texts_view(percentage_texts@)),
    {
        let ghost rt = texts_view(ratio_texts@);
        let ghost pt = texts_view(percentage_texts@);
        proof {
            reveal_strlit("|");
            reveal_strlit("|\n");
            reveal_strlit("-");
        }
        let mut out = String::new();
        out.append("|");
        push_center(&mut out, "Pallet", COLUMN_WIDTH);
        out.append("|");
        push_center(&mut out, "Extrinsic", COLUMN_WIDTH);
        out.append("|");
        push_center(&mut out, "Ratio", COLUMN_WIDTH);
        out.append("|");
        push_center(&mut out, "Increase", COLUMN_WIDTH);
        out.append("|\n");
        assert(out@ =~= header_line());
        let mut c: usize = 0;
        while c < 4
            invariant
                c <= 4,
                "|"@ == seq!['|'],
                "-"@ == seq!['-'],
                out@ == header_line() + dash_groups(c as nat),
            decreases 4 - c,
        {
            out.append("|");
            push_repeated(&mut out, "-", COLUMN_WIDTH);
            c = c + 1;
            assert(out@ =~= header_line() + dash_groups(c as nat));
        }
        out.append("|\n");
        assert(out@ =~= header_line() + separator_line());
        let n = self.inner.len();
        let mut i: usize = 0;
        while i < n
            invariant
                n == self@.len(),
                i <= n,
                rt == texts_view(ratio_texts@),
                pt == texts_view(percentage_texts@),
                ratio_texts@.len() == n,
                percentage_texts@.len() == n,
                out@ == header_line() + separator_line() + body_lines(
                    self@.subrange(0, i as int),
                    rt,
                    pt,
                ),
            decreases n - i,
        {
            let e = &self.inner[i];
            let ghost before = out@;
            push_body_line(&mut out, e, ratio_texts[i].as_str(), percentage_texts[i].as_str());
            proof {
                let sub = self@.subrange(0, i + 1);
                assert(sub.drop_last() =~= self@.subrange(0, i as int));
                assert(rt[i as int] == ratio_texts@[i as int]@);
                assert(pt[i as int] == percentage_texts@[i as int]@);
            }
            i = i + 1;
        }
        assert(self@.subrange(0, n as int) =~= self@);
        out
    }
}

} // verus!
