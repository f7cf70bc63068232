//! The typed value projector: renders every cell of a row window as text,
//! dispatching on the column's element kind and shape class, with graceful
//! degradation for unsupported kinds.

use vstd::prelude::*;

use crate::column::CellBlock;
use crate::column::CellValue;
use crate::column::ColumnMeta;
use crate::column::ElemType;
use crate::column::FixedCell;
use crate::column::ProbeOutcomes;
use crate::column::VarCell;
use crate::column::fixed_cell_ok;
use crate::column::scalar_cell_ok;
use crate::column::var_cell_ok;
use crate::text::bool_list_text;
use crate::text::bool_text;
use crate::text::comma_sep;
use crate::text::dec_int;
use crate::text::dec_nat;
use crate::text::fmt_bool;
use crate::text::fmt_bool_list;
use crate::text::fmt_i64;
use crate::text::fmt_row_prefix;
use crate::text::fmt_u64;
use crate::text::join_list;
use crate::text::joined;
use crate::text::lemma_newlines_concat;
use crate::text::lemma_newlines_dec_nat;
use crate::text::lemma_newlines_row_prefix;
use crate::text::lemma_newlines_single;
use crate::text::newlines;
use crate::text::row_prefix;
use crate::text::texts_of;

verus! {

/// The label line that opens every value report.
pub open spec fn values_label() -> Seq<char> {
    seq!['V', 'a', 'l', 'u', 'e', 's', ':', ' ', '\n']
}

/// The header line naming the report's two columns.
pub open spec fn row_value_header() -> Seq<char> {
    seq![':', ' ', 'R', 'O', 'W', ' ', ':', ' ', 'V', 'A', 'L', 'U', 'E', '\n']
}

/// The two lines that precede the data lines of every value report.
pub open spec fn values_header() -> Seq<char> {
    values_label() + row_value_header()
}

/// The placeholder shown for a scalar cell of an unsupported kind.
pub open spec fn not_implemented_text() -> Seq<char> {
    seq!['N', 'o', 't', ' ', 'i', 'm', 'p', 'l', 'e', 'm', 'e', 'n', 't', 'e', 'd']
}

/// The placeholder shown for an array cell of an unsupported kind, naming
/// the store's tag text.
pub open spec fn not_implemented_for_text(tag: Seq<char>) -> Seq<char> {
    not_implemented_text() + seq![' ', 'f', 'o', 'r', ' '] + tag
}

/// The placeholder shown when no probed rank of a variable-shape cell
/// parses.
pub open spec fn parse_failure_text() -> Seq<char> {
    seq![
        'F',
        'a',
        'i',
        'l',
        'e',
        'd',
        ' ',
        't',
        'o',
        ' ',
        'p',
        'a',
        'r',
        's',
        'e',
        ' ',
        'f',
        'i',
        'e',
        'l',
        'd',
        '.',
        '\n',
    ]
}

/// The rendering of one scalar cell value, as its typed accessor returned
/// it: integers in decimal, booleans as `true`/`false`, strings verbatim,
/// floating-point and complex values as the store rendered them.
pub open spec fn shown_value(c: CellValue) -> Seq<char> {
    match c {
        CellValue::Bool(b) => bool_text(b),
        CellValue::Int8(v) => dec_int(v as int),
        CellValue::UInt8(v) => dec_nat(v as nat),
        CellValue::Int16(v) => dec_int(v as int),
        CellValue::UInt16(v) => dec_nat(v as nat),
        CellValue::Int32(v) => dec_int(v as int),
        CellValue::UInt32(v) => dec_nat(v as nat),
        CellValue::Int64(v) => dec_int(v as int),
        CellValue::Text(t) => t@,
        CellValue::Rendered(t) => t@,
    }
}

/// What a scalar cell shows: its value's rendering, or the placeholder for
/// a column of an unsupported kind (which is never read).
pub open spec fn scalar_cell_text(elem: ElemType, c: CellValue) -> Seq<char> {
    if elem is Other {
        not_implemented_text()
    } else {
        shown_value(c)
    }
}

/// What a probed variable-shape cell shows: the first rank that parsed, in
/// the order one, two, three, and the failure placeholder only when none
/// of the three parsed. No fourth rank exists to try.
pub open spec fn probe_text(p: ProbeOutcomes) -> Seq<char> {
    match p.rank1 {
        Some(t1) => t1@ + seq!['\n'],
        None => match p.rank2 {
            Some(t2) => t2@ + seq!['\n'],
            None => match p.rank3 {
                Some(t3) => t3@ + seq!['\n'],
                None => parse_failure_text(),
            },
        },
    }
}

/// Rank probing is an ordered fallback chain: rank one wins whatever the
/// later outcomes hold, rank two is consulted only when rank one failed,
/// rank three only when both failed, and the failure placeholder appears
/// exactly when all three ranks failed to parse.
pub proof fn lemma_probe_order(p: ProbeOutcomes)
    ensures
        p.rank1 matches Some(t) ==> probe_text(p) == t@ + seq!['\n'],
        p.rank1 is None ==> (p.rank2 matches Some(t) ==> probe_text(p) == t@ + seq!['\n']),
        p.rank1 is None && p.rank2 is None ==> (p.rank3 matches Some(t) ==> probe_text(p) == t@
            + seq!['\n']),
        p.rank1 is None && p.rank2 is None && p.rank3 is None ==> probe_text(p)
            == parse_failure_text(),
{
}

/// What one cell of a variable-shape column shows, trailing newline
/// included: the probe outcome for probed kinds, a bracketed join for
/// string cells, and the tagged placeholder for unsupported kinds.
pub open spec fn var_cell_text(elem: ElemType, tag: Seq<char>, c: VarCell) -> Seq<char> {
    if elem.is_probed() {
        match c {
            VarCell::Probed(p) => probe_text(p),
            _ => Seq::empty(),
        }
    } else if elem is Text {
        match c {
            VarCell::Strings(items) => seq!['['] + joined(texts_of(items@), comma_sep()) + seq![
                ']',
                '\n',
            ],
            _ => Seq::empty(),
        }
    } else {
        not_implemented_for_text(tag) + seq!['\n']
    }
}

/// What one cell of a fixed-shape column shows, trailing newline included.
/// The declared rank selects the vector or matrix rendering; a rank outside
/// one and two shows nothing for the value. Boolean cells show an
/// element-wise list except at rank two, string cells show the scalar
/// string, and unsupported kinds show the tagged placeholder.
pub open spec fn fixed_cell_text(elem: ElemType, rank: u64, tag: Seq<char>, c: FixedCell) -> Seq<
    char,
> {
    (match elem {
        ElemType::Bool => match c {
            FixedCell::Rendered(t) => t@,
            FixedCell::Bools(bs) => bool_list_text(bs@),
            _ => Seq::empty(),
        },
        ElemType::Text => match c {
            FixedCell::Text(t) => t@,
            _ => Seq::empty(),
        },
        ElemType::Other => not_implemented_for_text(tag),
        _ => match c {
            FixedCell::Rendered(t) => t@,
            _ => Seq::empty(),
        },
    }) + seq!['\n']
}

/// Renders one scalar cell.
pub fn render_scalar_cell(elem: ElemType, c: &CellValue) -> (s: String)
    requires
        scalar_cell_ok(elem, *c),
    ensures
        s@ == scalar_cell_text(elem, *c),
{
    match elem {
        ElemType::Other => {
            let s = String::from_str("Not implemented");
            proof {
                reveal_strlit("Not implemented");
                assert(s@ =~= not_implemented_text());
            }
            s
        },
        _ => {
            match c {
                CellValue::Bool(b) => fmt_bool(*b),
                CellValue::Int8(v) => fmt_i64(*v as i64),
                CellValue::UInt8(v) => fmt_u64(*v as u64),
                CellValue::Int16(v) => fmt_i64(*v as i64),
                CellValue::UInt16(v) => fmt_u64(*v as u64),
                CellValue::Int32(v) => fmt_i64(*v as i64),
                CellValue::UInt32(v) => fmt_u64(*v as u64),
                CellValue::Int64(v) => fmt_i64(*v),
                CellValue::Text(t) => t.clone(),
                CellValue::Rendered(t) => t.clone(),
            }
        },
    }
}

/// Selects the text of one probed variable-shape cell: the first rank that
/// parsed, in order, or the failure placeholder when all three failed.
pub fn probe_select(p: &ProbeOutcomes) -> (s: String)
    ensures
        s@ == probe_text(*p),
{
    proof {
        reveal_strlit("\n");
        reveal_strlit("Failed to parse field.\n");
    }
    match &p.rank1 {
        Some(t1) => {
            let mut s = t1.clone();
            s.append("\n");
            proof {
                assert(s@ =~= probe_text(*p));
            }
            s
        },
        None => match &p.rank2 {
            Some(t2) => {
                let mut s = t2.clone();
                s.append("\n");
                proof {
                    assert(s@ =~= probe_text(*p));
                }
                s
            },
            None => match &p.rank3 {
                Some(t3) => {
                    let mut s = t3.clone();
                    s.append("\n");
                    proof {
                        assert(s@ =~= probe_text(*p));
                    }
                    s
                },
                None => {
                    let s = String::from_str("Failed to parse field.\n");
                    proof {
                        assert(s@ =~= parse_failure_text());
                    }
                    s
                },
            },
        },
    }
}

/// Renders the tagged placeholder for an array cell of an unsupported kind.
fn render_not_implemented_for(tag_text: &String) -> (s: String)
    ensures
        s@ == not_implemented_for_text(tag_text@),
{
    let mut s = String::from_str("Not implemented for ");
    proof {
        reveal_strlit("Not implemented for ");
        assert(s@ =~= not_implemented_for_text(Seq::<char>::empty()));
        assert(not_implemented_for_text(Seq::<char>::empty()) + tag_text@ =~= not_implemented_for_text(
            tag_text@,
        ));
    }
    s.append(tag_text.as_str());
    s
}

/// Renders one cell of a variable-shape column, trailing newline included.
pub fn render_var_cell(elem: ElemType, tag_text: &String, c: &VarCell) -> (s: String)
    requires
        var_cell_ok(elem, *c),
    ensures
        s@ == var_cell_text(elem, tag_text@, *c),
{
    proof {
        reveal_strlit("[");
        reveal_strlit("]\n");
        reveal_strlit(", ");
        reveal_strlit("\n");
    }
    match c {
        VarCell::Probed(p) => probe_select(p),
        VarCell::Strings(items) => {
            let mut s = String::from_str("[");
            proof {
                assert(s@ =~= seq!['[']);
                assert(", "@ =~= comma_sep());
                assert("]\n"@ =~= seq![']', '\n']);
            }
            let body = join_list(items, ", ");
            s.append(body.as_str());
            s.append("]\n");
            s
        },
        VarCell::Unread => {
            let mut s = render_not_implemented_for(tag_text);
            s.append("\n");
            proof {
                assert(s@ =~= var_cell_text(elem, tag_text@, *c));
            }
            s
        },
    }
}

/// Renders one cell of a fixed-shape column, trailing newline included.
pub fn render_fixed_cell(elem: ElemType, rank: u64, tag_text: &String, c: &FixedCell) -> (s:
    String)
    requires
        fixed_cell_ok(elem, rank, *c),
    ensures
        s@ == fixed_cell_text(elem, rank, tag_text@, *c),
{
    proof {
        reveal_strlit("\n");
        assert("\n"@ =~= seq!['\n']);
    }
    match c {
        FixedCell::Rendered(t) => {
            let mut s = t.clone();
            s.append("\n");
            s
        },
        FixedCell::Bools(bs) => {
            let mut s = fmt_bool_list(bs);
            s.append("\n");
            s
        },
        FixedCell::Text(t) => {
            let mut s = t.clone();
            s.append("\n");
            s
        },
        FixedCell::Unread => {
            match elem {
                ElemType::Other => {
                    let mut s = render_not_implemented_for(tag_text);
                    s.append("\n");
                    s
                },
                _ => {
                    let s = String::from_str("\n");
                    proof {
                        assert(s@ =~= Seq::<char>::empty() + seq!['\n']);
                    }
                    s
                },
            }
        },
    }
}

/// One data chunk of the scalar report: the cell's text and its newline.
pub open spec fn scalar_chunk(elem: ElemType, c: CellValue) -> Seq<char> {
    scalar_cell_text(elem, c) + seq!['\n']
}

/// The data chunks of a scalar report, in row order.
pub open spec fn scalar_chunks(elem: ElemType, cells: Seq<CellValue>) -> Seq<Seq<char>> {
    cells.map(|i: int, c: CellValue| scalar_chunk(elem, c))
}

/// The data chunks of a variable-shape report, in row order.
pub open spec fn var_chunks(elem: ElemType, tag: Seq<char>, cells: Seq<VarCell>) -> Seq<Seq<char>> {
    cells.map(|i: int, c: VarCell| var_cell_text(elem, tag, c))
}

/// The data chunks of a fixed-shape report, in row order.
pub open spec fn fixed_chunks(elem: ElemType, rank: u64, tag: Seq<char>, cells: Seq<FixedCell>) -> Seq<
    Seq<char>,
> {
    cells.map(|i: int, c: FixedCell| fixed_cell_text(elem, rank, tag, c))
}

/// The data part of a report: each chunk prefixed by its row label, row
/// numbers counting up from `start`.
pub open spec fn numbered_rows(start: nat, chunks: Seq<Seq<char>>) -> Seq<char>
    decreases chunks.len(),
{
    if chunks.len() == 0 {
        Seq::empty()
    } else {
        row_prefix(start) + chunks[0] + numbered_rows((start + 1) as nat, chunks.drop_first())
    }
}

/// Appending one more chunk extends the data part by one labelled row.
pub proof fn lemma_numbered_rows_push(start: nat, chunks: Seq<Seq<char>>, x: Seq<char>)
    ensures
        numbered_rows(start, chunks.push(x)) == numbered_rows(start, chunks) + (row_prefix(
            (start + chunks.len()) as nat,
        ) + x),
    decreases chunks.len(),
{
    if chunks.len() == 0 {
        assert(chunks.push(x)[0] == x);
        assert(chunks.push(x).drop_first() =~= Seq::<Seq<char>>::empty());
        assert(numbered_rows((start + 1) as nat, Seq::<Seq<char>>::empty()) == Seq::<char>::empty());
        assert(row_prefix(start) + x + Seq::<char>::empty() =~= Seq::<char>::empty() + (row_prefix(
            start,
        ) + x));
    } else {
        lemma_numbered_rows_push((start + 1) as nat, chunks.drop_first(), x);
        assert(chunks.push(x).drop_first() =~= chunks.drop_first().push(x));
        assert(chunks.push(x)[0] == chunks[0]);
        assert(row_prefix(start) + chunks[0] + (numbered_rows((start + 1) as nat, chunks.drop_first())
            + (row_prefix((start + chunks.len()) as nat) + x)) =~= (row_prefix(start) + chunks[0]
            + numbered_rows((start + 1) as nat, chunks.drop_first())) + (row_prefix(
            (start + chunks.len()) as nat,
        ) + x));
    }
}

/// Reading one more scalar cell extends the chunk list by its chunk.
pub proof fn lemma_scalar_chunks_push(elem: ElemType, cells: Seq<CellValue>, i: int)
    requires
        0 <= i < cells.len(),
    ensures
        scalar_chunks(elem, cells.subrange(0, i + 1)) == scalar_chunks(
            elem,
            cells.subrange(0, i),
        ).push(scalar_chunk(elem, cells[i])),
{
    let a = scalar_chunks(elem, cells.subrange(0, i + 1));
    let b = scalar_chunks(elem, cells.subrange(0, i)).push(scalar_chunk(elem, cells[i]));
    assert forall|j: int| 0 <= j < a.len() implies a[j] == b[j] by {
        assert(cells.subrange(0, i + 1)[j] == cells[j]);
        if j < i {
            assert(cells.subrange(0, i)[j] == cells[j]);
        }
    }
    assert(a =~= b);
}

/// Reading one more variable-shape cell extends the chunk list by its chunk.
pub proof fn lemma_var_chunks_push(elem: ElemType, tag: Seq<char>, cells: Seq<VarCell>, i: int)
    requires
        0 <= i < cells.len(),
    ensures
        var_chunks(elem, tag, cells.subrange(0, i + 1)) == var_chunks(
            elem,
            tag,
            cells.subrange(0, i),
        ).push(var_cell_text(elem, tag, cells[i])),
{
    let a = var_chunks(elem, tag, cells.subrange(0, i + 1));
    let b = var_chunks(elem, tag, cells.subrange(0, i)).push(var_cell_text(elem, tag, cells[i]));
    assert forall|j: int| 0 <= j < a.len() implies a[j] == b[j] by {
        assert(cells.subrange(0, i + 1)[j] == cells[j]);
        if j < i {
            assert(cells.subrange(0, i)[j] == cells[j]);
        }
    }
    assert(a =~= b);
}

/// Reading one more fixed-shape cell extends the chunk list by its chunk.
pub proof fn lemma_fixed_chunks_push(
    elem: ElemType,
    rank: u64,
    tag: Seq<char>,
    cells: Seq<FixedCell>,
    i: int,
)
    requires
        0 <= i < cells.len(),
    ensures
        fixed_chunks(elem, rank, tag, cells.subrange(0, i + 1)) == fixed_chunks(
            elem,
            rank,
            tag,
            cells.subrange(0, i),
        ).push(fixed_cell_text(elem, rank, tag, cells[i])),
{
    let a = fixed_chunks(elem, rank, tag, cells.subrange(0, i + 1));
    let b = fixed_chunks(elem, rank, tag, cells.subrange(0, i)).push(
        fixed_cell_text(elem, rank, tag, cells[i]),
    );
    assert forall|j: int| 0 <= j < a.len() implies a[j] == b[j] by {
        assert(cells.subrange(0, i + 1)[j] == cells[j]);
        if j < i {
            assert(cells.subrange(0, i)[j] == cells[j]);
        }
    }
    assert(a =~= b);
}

/// The whole scalar report for a window: label, header, then one labelled
/// data line per cell, row numbers counting up from `start`.
pub open spec fn scalar_report(elem: ElemType, start: nat, cells: Seq<CellValue>) -> Seq<char> {
    values_header() + numbered_rows(start, scalar_chunks(elem, cells))
}

/// The data chunks of an array report, per the block's shape class.
pub open spec fn array_chunks(meta: ColumnMeta, cells: CellBlock) -> Seq<Seq<char>> {
    match cells {
        CellBlock::Variable(v) => var_chunks(meta.elem, meta.tag_text@, v@),
        CellBlock::Fixed(f) => fixed_chunks(meta.elem, meta.rank, meta.tag_text@, f@),
        CellBlock::Scalar(_) => Seq::empty(),
    }
}

/// The whole array report for a window.
pub open spec fn array_report(meta: ColumnMeta, start: nat, cells: CellBlock) -> Seq<char> {
    values_header() + numbered_rows(start, array_chunks(meta, cells))
}

/// How many cells a block holds.
pub open spec fn block_len(cells: CellBlock) -> nat {
    match cells {
        CellBlock::Scalar(c) => c@.len(),
        CellBlock::Variable(v) => v@.len(),
        CellBlock::Fixed(f) => f@.len(),
    }
}

/// Whether every cell of the block matches the column it was read from:
/// the block's shape class is the column's, and each cell value is what
/// the column's typed accessor returns.
pub open spec fn block_ok(meta: ColumnMeta, cells: CellBlock) -> bool {
    match cells {
        CellBlock::Scalar(c) => meta.scalar && forall|i: int|
            0 <= i < c@.len() ==> scalar_cell_ok(meta.elem, c@[i]),
        CellBlock::Variable(v) => !meta.scalar && !meta.fixed_shape && forall|i: int|
            0 <= i < v@.len() ==> var_cell_ok(meta.elem, v@[i]),
        CellBlock::Fixed(f) => !meta.scalar && meta.fixed_shape && forall|i: int|
            0 <= i < f@.len() ==> fixed_cell_ok(meta.elem, meta.rank, f@[i]),
    }
}

/// The two lines that open every report hold exactly two newlines.
pub proof fn lemma_values_header_newlines()
    ensures
        newlines(values_header()) == 2,
{
    assert(newlines(values_label()) == 1) by {
        reveal_with_fuel(crate::text::newlines, 11);
    }
    assert(newlines(row_value_header()) == 1) by {
        reveal_with_fuel(crate::text::newlines, 16);
    }
    lemma_newlines_concat(values_label(), row_value_header());
}

/// A data part whose chunks each hold exactly one newline holds exactly
/// one newline per row.
pub proof fn lemma_numbered_rows_newlines(start: nat, chunks: Seq<Seq<char>>)
    requires
        forall|i: int| 0 <= i < chunks.len() ==> newlines(#[trigger] chunks[i]) == 1,
    ensures
        newlines(numbered_rows(start, chunks)) == chunks.len(),
    decreases chunks.len(),
{
    if chunks.len() == 0 {
    } else {
        lemma_newlines_row_prefix(start);
        lemma_newlines_concat(row_prefix(start), chunks[0]);
        lemma_newlines_concat(
            row_prefix(start) + chunks[0],
            numbered_rows((start + 1) as nat, chunks.drop_first()),
        );
        assert(forall|i: int|
            0 <= i < chunks.drop_first().len() ==> newlines(#[trigger] chunks.drop_first()[i])
                == 1);
        lemma_numbered_rows_newlines((start + 1) as nat, chunks.drop_first());
    }
}

/// Every report over single-line chunks holds exactly one line per row
/// beside the label line and the header line.
pub proof fn lemma_report_line_count(start: nat, chunks: Seq<Seq<char>>)
    requires
        forall|i: int| 0 <= i < chunks.len() ==> newlines(#[trigger] chunks[i]) == 1,
    ensures
        newlines(values_header() + numbered_rows(start, chunks)) == 2 + chunks.len(),
{
    lemma_values_header_newlines();
    lemma_numbered_rows_newlines(start, chunks);
    lemma_newlines_concat(values_header(), numbered_rows(start, chunks));
}

/// A scalar cell of an integer, boolean or unsupported kind always shows a
/// single-line text.
pub proof fn lemma_scalar_cell_single_line(elem: ElemType, c: CellValue)
    requires
        scalar_cell_ok(elem, c),
        !(elem is Text),
        !elem.is_rendered(),
    ensures
        newlines(scalar_cell_text(elem, c)) == 0,
{
    if elem is Other {
        assert(newlines(not_implemented_text()) == 0) by {
            reveal_with_fuel(crate::text::newlines, 17);
        }
    } else {
        match c {
            CellValue::Bool(b) => {
                assert(newlines(bool_text(b)) == 0) by {
                    reveal_with_fuel(crate::text::newlines, 7);
                }
            },
            CellValue::Int8(v) => {
                lemma_dec_int_no_newline(v as int);
            },
            CellValue::UInt8(v) => {
                lemma_newlines_dec_nat(v as nat);
            },
            CellValue::Int16(v) => {
                lemma_dec_int_no_newline(v as int);
            },
            CellValue::UInt16(v) => {
                lemma_newlines_dec_nat(v as nat);
            },
            CellValue::Int32(v) => {
                lemma_dec_int_no_newline(v as int);
            },
            CellValue::UInt32(v) => {
                lemma_newlines_dec_nat(v as nat);
            },
            CellValue::Int64(v) => {
                lemma_dec_int_no_newline(v as int);
            },
            CellValue::Text(_) => {
                assert(false);
            },
            CellValue::Rendered(_) => {
                assert(false);
            },
        }
    }
}

/// A signed decimal rendering holds no newline.
pub proof fn lemma_dec_int_no_newline(i: int)
    ensures
        newlines(dec_int(i)) == 0,
{
    if i >= 0 {
        lemma_newlines_dec_nat(i as nat);
    } else {
        lemma_newlines_single('-');
        lemma_newlines_dec_nat((-i) as nat);
        lemma_newlines_concat(seq!['-'], dec_nat((-i) as nat));
    }
}

/// For every valid row window, the scalar report of a column of an
/// integer, boolean or unsupported kind holds exactly one data line per
/// row in the window, beside its label line and its header line.
pub proof fn lemma_scalar_report_lines(elem: ElemType, start: nat, cells: Seq<CellValue>)
    requires
        forall|i: int| 0 <= i < cells.len() ==> scalar_cell_ok(elem, #[trigger] cells[i]),
        !(elem is Text),
        !elem.is_rendered(),
    ensures
        newlines(scalar_report(elem, start, cells)) == 2 + cells.len(),
{
    let chunks = scalar_chunks(elem, cells);
    assert forall|i: int| 0 <= i < chunks.len() implies newlines(#[trigger] chunks[i]) == 1 by {
        lemma_scalar_cell_single_line(elem, cells[i]);
        lemma_newlines_single('\n');
        lemma_newlines_concat(scalar_cell_text(elem, cells[i]), seq!['\n']);
    }
    lemma_report_line_count(start, chunks);
}

/// Projecting a scalar cell of a supported kind shows exactly the direct
/// rendering of the equivalent typed value: integers their decimal text,
/// booleans `true` or `false`, strings themselves.
pub proof fn lemma_scalar_round_trip(elem: ElemType, c: CellValue)
    requires
        scalar_cell_ok(elem, c),
        !(elem is Other),
    ensures
        c matches CellValue::Bool(b) ==> scalar_cell_text(elem, c) == bool_text(b),
        c matches CellValue::Int8(v) ==> scalar_cell_text(elem, c) == dec_int(v as int),
        c matches CellValue::UInt8(v) ==> scalar_cell_text(elem, c) == dec_nat(v as nat),
        c matches CellValue::Int16(v) ==> scalar_cell_text(elem, c) == dec_int(v as int),
        c matches CellValue::UInt16(v) ==> scalar_cell_text(elem, c) == dec_nat(v as nat),
        c matches CellValue::Int32(v) ==> scalar_cell_text(elem, c) == dec_int(v as int),
        c matches CellValue::UInt32(v) ==> scalar_cell_text(elem, c) == dec_nat(v as nat),
        c matches CellValue::Int64(v) ==> scalar_cell_text(elem, c) == dec_int(v as int),
        c matches CellValue::Text(t) ==> scalar_cell_text(elem, c) == t@,
        c matches CellValue::Rendered(t) ==> scalar_cell_text(elem, c) == t@,
{
}

/// Appends the label and header lines that open every value report.
fn append_values_header(buf: &mut String)
    ensures
        final(buf)@ == old(buf)@ + values_header(),
{
    buf.append("Values: \n");
    buf.append(": ROW : ");
    buf.append("VALUE");
    buf.append("\n");
    proof {
        reveal_strlit("Values: \n");
        reveal_strlit(": ROW : ");
        reveal_strlit("VALUE");
        reveal_strlit("\n");
        assert(buf@ =~= old(buf)@ + values_header());
    }
}

impl crate::nav::App {
    /// Renders the cells of a scalar column over one row window into the
    /// buffer: the label and header lines, then one data line per cell,
    /// each labelled with its row number, integers in decimal, booleans as
    /// `true`/`false`, strings verbatim, floating-point and complex values
    /// as the store rendered them, and the placeholder `Not implemented`
    /// on every line of a column of an unsupported kind. Returns a copy of
    /// the whole buffer.
    pub fn read_scalar_value_into_buffer(
        &self,
        buf: &mut String,
        meta: &ColumnMeta,
        start_row: u64,
        cells: &Vec<CellValue>,
    ) -> (r: String)
        requires
            meta.scalar,
            forall|i: int| 0 <= i < cells@.len() ==> scalar_cell_ok(meta.elem, cells@[i]),
            start_row + cells@.len() <= u64::MAX,
        ensures
            final(buf)@ == old(buf)@ + scalar_report(meta.elem, start_row as nat, cells@),
            r@ == final(buf)@,
    {
        append_values_header(buf);
        let mut i: usize = 0;
        while i < cells.len()
            invariant
                i <= cells@.len(),
                start_row + cells@.len() <= u64::MAX,
                forall|k: int| 0 <= k < cells@.len() ==> scalar_cell_ok(meta.elem, cells@[k]),
                buf@ == old(buf)@ + values_header() + numbered_rows(
                    start_row as nat,
                    scalar_chunks(meta.elem, cells@.subrange(0, i as int)),
                ),
            decreases cells@.len() - i,
        {
            let row_num: u64 = start_row + i as u64;
            let prefix = fmt_row_prefix(row_num);
            buf.append(prefix.as_str());
            let val = render_scalar_cell(meta.elem, &cells[i]);
            buf.append(val.as_str());
            buf.append("\n");
            proof {
                reveal_strlit("\n");
                let prev = scalar_chunks(meta.elem, cells@.subrange(0, i as int));
                lemma_scalar_chunks_push(meta.elem, cells@, i as int);
                lemma_numbered_rows_push(
                    start_row as nat,
                    prev,
                    scalar_chunk(meta.elem, cells@[i as int]),
                );
                assert(buf@ =~= old(buf)@ + values_header() + numbered_rows(
                    start_row as nat,
                    scalar_chunks(meta.elem, cells@.subrange(0, i + 1)),
                ));
            }
            i = i + 1;
        }
        proof {
            assert(cells@.subrange(0, cells@.len() as int) =~= cells@);
        }
        buf.clone()
    }

    /// Renders the cells of an array column over one row window into the
    /// buffer: the label and header lines, then one labelled data chunk
    /// per cell. A variable-shape column is rank-probed per cell (strings
    /// are joined in brackets, unsupported kinds show a tagged
    /// placeholder); a fixed-shape column shows the store's vector or
    /// matrix rendering per its declared rank, nothing for a rank outside
    /// one and two, and boolean cells element-wise except at rank two.
    /// Returns a copy of the whole buffer.
    pub fn read_array_value_into_buffer(
        &self,
        buf: &mut String,
        meta: &ColumnMeta,
        row_start: u64,
        cells: &CellBlock,
    ) -> (r: String)
        requires
            !meta.scalar,
            block_ok(*meta, *cells),
            row_start + block_len(*cells) <= u64::MAX,
        ensures
            final(buf)@ == old(buf)@ + array_report(*meta, row_start as nat, *cells),
            r@ == final(buf)@,
    {
        append_values_header(buf);
        match cells {
            CellBlock::Variable(v) => {
                let mut i: usize = 0;
                while i < v.len()
                    invariant
                        i <= v@.len(),
                        row_start + v@.len() <= u64::MAX,
                        forall|k: int| 0 <= k < v@.len() ==> var_cell_ok(meta.elem, v@[k]),
                        buf@ == old(buf)@ + values_header() + numbered_rows(
                            row_start as nat,
                            var_chunks(meta.elem, meta.tag_text@, v@.subrange(0, i as int)),
                        ),
                    decreases v@.len() - i,
                {
                    let row_num: u64 = row_start + i as u64;
                    let prefix = fmt_row_prefix(row_num);
                    buf.append(prefix.as_str());
                    let chunk = render_var_cell(meta.elem, &meta.tag_text, &v[i]);
                    buf.append(chunk.as_str());
                    proof {
                        let prev = var_chunks(
                            meta.elem,
                            meta.tag_text@,
                            v@.subrange(0, i as int),
                        );
                        lemma_var_chunks_push(meta.elem, meta.tag_text@, v@, i as int);
                        lemma_numbered_rows_push(
                            row_start as nat,
                            prev,
                            var_cell_text(meta.elem, meta.tag_text@, v@[i as int]),
                        );
                        assert(buf@ =~= old(buf)@ + values_header() + numbered_rows(
                            row_start as nat,
                            var_chunks(meta.elem, meta.tag_text@, v@.subrange(0, i + 1)),
                        ));
                    }
                    i = i + 1;
                }
                proof {
                    assert(v@.subrange(0, v@.len() as int) =~= v@);
                }
                buf.clone()
            },
            CellBlock::Fixed(f) => {
                let mut i: usize = 0;
                while i < f.len()
                    invariant
                        i <= f@.len(),
                        row_start + f@.len() <= u64::MAX,
                        forall|k: int|
                            0 <= k < f@.len() ==> fixed_cell_ok(meta.elem, meta.rank, f@[k]),
                        buf@ == old(buf)@ + values_header() + numbered_rows(
                            row_start as nat,
                            fixed_chunks(
                                meta.elem,
                                meta.rank,
                                meta.tag_text@,
                                f@.subrange(0, i as int),
                            ),
                        ),
                    decreases f@.len() - i,
                {
                    let row_num: u64 = row_start + i as u64;
                    let prefix = fmt_row_prefix(row_num);
                    buf.append(prefix.as_str());
                    let chunk = render_fixed_cell(meta.elem, meta.rank, &meta.tag_text, &f[i]);
                    buf.append(chunk.as_str());
                    proof {
                        let prev = fixed_chunks(
                            meta.elem,
                            meta.rank,
                            meta.tag_text@,
                            f@.subrange(0, i as int),
                        );
                        lemma_fixed_chunks_push(
                            meta.elem,
                            meta.rank,
                            meta.tag_text@,
                            f@,
                            i as int,
                        );
                        lemma_numbered_rows_push(
                            row_start as nat,
                            prev,
                            fixed_cell_text(meta.elem, meta.rank, meta.tag_text@, f@[i as int]),
                        );
                        assert(buf@ =~= old(buf)@ + values_header() + numbered_rows(
                            row_start as nat,
                            fixed_chunks(
                                meta.elem,
                                meta.rank,
                                meta.tag_text@,
                                f@.subrange(0, i + 1),
                            ),
                        ));
                    }
                    i = i + 1;
                }
                proof {
                    assert(f@.subrange(0, f@.len() as int) =~= f@);
                }
                buf.clone()
            },
            CellBlock::Scalar(_) => vstd::pervasive::unreached(),
        }
    }
}

} // verus!
