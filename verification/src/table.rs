//! Plain-text table rendering.

use vstd::prelude::*;

use crate::text::{push_char, push_repeat, seq_repeat};

verus! {

/// The widest a cell or header may be for the paddings to fit a usize.
pub const MAX_CELL_WIDTH: usize = usize::MAX - 2;

/// The number of columns: the length of the longest row.
pub open spec fn column_count(data: Seq<Seq<Seq<char>>>) -> int
    decreases data.len(),
{
    if data.len() == 0 {
        0
    } else {
        let rest = column_count(data.drop_last());
        if data.last().len() > rest {
            data.last().len() as int
        } else {
            rest
        }
    }
}

/// The widest cell the data holds in one column; a row too short to reach
/// the column contributes nothing.
pub open spec fn data_column_width(data: Seq<Seq<Seq<char>>>, i: int) -> int
    decreases data.len(),
{
    if data.len() == 0 {
        0
    } else {
        let rest = data_column_width(data.drop_last(), i);
        let own = if 0 <= i < data.last().len() {
            data.last()[i].len() as int
        } else {
            0
        };
        if own > rest {
            own
        } else {
            rest
        }
    }
}

/// The width of a column: its widest cell, or its header where that is
/// wider.
pub open spec fn column_width(data: Seq<Seq<Seq<char>>>, headers: Seq<Seq<char>>, i: int) -> int {
    let dw = data_column_width(data, i);
    let hw = if 0 <= i < headers.len() {
        headers[i].len() as int
    } else {
        0
    };
    if hw > dw {
        hw
    } else {
        dw
    }
}

/// A cell padded to its column: `| `, the text, spaces up to the column
/// width, and a closing space.
pub open spec fn padded_cell(text: Seq<char>, w: int) -> Seq<char> {
    "| "@ + text + seq_repeat(' ', w - text.len()) + " "@
}

/// The cell of a row at a column; a missing cell renders empty.
pub open spec fn cell_at(row: Seq<Seq<char>>, i: int) -> Seq<char> {
    if 0 <= i < row.len() {
        row[i]
    } else {
        Seq::empty()
    }
}

/// The first `n` columns of the border line.
pub open spec fn border_prefix(data: Seq<Seq<Seq<char>>>, headers: Seq<Seq<char>>, n: int) -> Seq<
    char,
>
    decreases n,
{
    if n <= 0 {
        Seq::empty()
    } else {
        border_prefix(data, headers, n - 1) + "+"@ + seq_repeat(
            '-',
            column_width(data, headers, n - 1) + 2,
        )
    }
}

/// The border line under and over the table.
pub open spec fn border_line(data: Seq<Seq<Seq<char>>>, headers: Seq<Seq<char>>) -> Seq<char> {
    border_prefix(data, headers, column_count(data)) + "+"@
}

/// The first `n` columns of one rendered row.
pub open spec fn row_prefix(
    data: Seq<Seq<Seq<char>>>,
    headers: Seq<Seq<char>>,
    row: Seq<Seq<char>>,
    n: int,
) -> Seq<char>
    decreases n,
{
    if n <= 0 {
        Seq::empty()
    } else {
        row_prefix(data, headers, row, n - 1) + padded_cell(
            cell_at(row, n - 1),
            column_width(data, headers, n - 1),
        )
    }
}

/// One rendered row, headers and data rows alike.
pub open spec fn row_line(
    data: Seq<Seq<Seq<char>>>,
    headers: Seq<Seq<char>>,
    row: Seq<Seq<char>>,
) -> Seq<char> {
    row_prefix(data, headers, row, column_count(data)) + "|"@
}

/// The whole table: border, header row, border, the data rows, border.
pub open spec fn table_lines(data: Seq<Seq<Seq<char>>>, headers: Seq<Seq<char>>) -> Seq<
    Seq<char>,
> {
    seq![
        border_line(data, headers),
        row_line(data, headers, headers),
        border_line(data, headers),
    ] + Seq::new(data.len(), |j: int| row_line(data, headers, data[j])) + seq![
        border_line(data, headers),
    ]
}

/// A cell of the data never out-measures its column.
proof fn lemma_cell_fits(data: Seq<Seq<Seq<char>>>, i: int, j: int)
    requires
        0 <= j < data.len(),
    ensures
        cell_at(data[j], i).len() <= data_column_width(data, i),
        data[j].len() <= column_count(data),
    decreases data.len(),
{
    if j == data.len() - 1 {
        assert(data.last() == data[j]);
    } else {
        assert(data.drop_last()[j] == data[j]);
        lemma_cell_fits(data.drop_last(), i, j);
    }
}

/// Render a table: a border, the padded headers, a border, one line for
/// each data row with every cell padded to its column, and a closing
/// border. Column widths follow the widest cell, headers included; rows
/// shorter than the widest render empty cells, and headers beyond the
/// widest row are dropped.
pub fn print_table(data: &Vec<Vec<String>>, headers: &Vec<String>) -> (table: Vec<String>)
    requires
        forall|j: int, i: int|
            0 <= j < data@.len() && 0 <= i < data@[j]@.len() ==> #[trigger] data@[j]@[i]@.len()
                <= MAX_CELL_WIDTH,
        forall|i: int| 0 <= i < headers@.len() ==> #[trigger] headers@[i]@.len() <= MAX_CELL_WIDTH,
    ensures
        table@.map_values(|s: String| s@) == table_lines(data.deep_view(), headers.deep_view()),
{
    let ghost d = data.deep_view();
    let ghost h = headers.deep_view();
    proof {
        assert forall|j: int| 0 <= j < d.len() implies #[trigger] d[j] == data@[j].deep_view() by {}
    }

    // The number of columns.
    let mut num_col: usize = 0;
    let mut j: usize = 0;
    proof {
        assert(d.take(0) =~= Seq::<Seq<Seq<char>>>::empty());
    }
    while j < data.len()
        invariant
            0 <= j <= data.len(),
            d == data.deep_view(),
            d.len() == data@.len(),
            forall|k: int| 0 <= k < d.len() ==> #[trigger] d[k] == data@[k].deep_view(),
            forall|k: int| 0 <= k < d.len() ==> #[trigger] d[k].len() == data@[k]@.len(),
            num_col as int == column_count(d.take(j as int)),
        decreases data.len() - j,
    {
        proof {
            assert(d.take(j + 1).drop_last() =~= d.take(j as int));
            assert(d.take(j + 1).last() == d[j as int]);
        }
        if data[j].len() > num_col {
            num_col = data[j].len();
        }
        j = j + 1;
    }
    proof {
        assert(d.take(d.len() as int) =~= d);
    }

    // The column widths.
    let mut widths: Vec<usize> = Vec::new();
    let mut i: usize = 0;
    while i < num_col
        invariant
            0 <= i <= num_col,
            d == data.deep_view(),
            h == headers.deep_view(),
            d.len() == data@.len(),
            h.len() == headers@.len(),
            forall|k: int| 0 <= k < d.len() ==> #[trigger] d[k] == data@[k].deep_view(),
            forall|k: int| 0 <= k < d.len() ==> #[trigger] d[k].len() == data@[k]@.len(),
            forall|k: int, m: int|
                0 <= k < d.len() && 0 <= m < d[k].len() ==> #[trigger] d[k][m].len()
                    <= MAX_CELL_WIDTH,
            forall|k: int| 0 <= k < h.len() ==> #[trigger] h[k].len() <= MAX_CELL_WIDTH,
            widths@.len() == i,
            forall|k: int| 0 <= k < i ==> #[trigger] widths@[k] as int == column_width(d, h, k),
            forall|k: int| 0 <= k < i ==> #[trigger] widths@[k] <= MAX_CELL_WIDTH,
        decreases num_col - i,
    {
        let mut w: usize = 0;
        let mut j2: usize = 0;
        proof {
            assert(d.take(0) =~= Seq::<Seq<Seq<char>>>::empty());
        }
        while j2 < data.len()
            invariant
                0 <= j2 <= data.len(),
                d == data.deep_view(),
                d.len() == data@.len(),
                forall|k: int| 0 <= k < d.len() ==> #[trigger] d[k] == data@[k].deep_view(),
                forall|k: int| 0 <= k < d.len() ==> #[trigger] d[k].len() == data@[k]@.len(),
                forall|k: int, m: int|
                    0 <= k < d.len() && 0 <= m < d[k].len() ==> #[trigger] d[k][m].len()
                        <= MAX_CELL_WIDTH,
                w as int == data_column_width(d.take(j2 as int), i as int),
                w <= MAX_CELL_WIDTH,
            decreases data.len() - j2,
        {
            proof {
                assert(d.take(j2 + 1).drop_last() =~= d.take(j2 as int));
                assert(d.take(j2 + 1).last() == d[j2 as int]);
            }
            if i < data[j2].len() {
                proof {
                    assert(d[j2 as int][i as int] == data@[j2 as int]@[i as int]@);
                }
                let c = data[j2][i].as_str().unicode_len();
                if c > w {
                    w = c;
                }
            }
            j2 = j2 + 1;
        }
        proof {
            assert(d.take(d.len() as int) =~= d);
        }
        if i < headers.len() {
            proof {
                assert(h[i as int] == headers@[i as int]@);
            }
            let hl = headers[i].as_str().unicode_len();
            if hl > w {
                w = hl;
            }
        }
        assert(w <= MAX_CELL_WIDTH);
        widths.push(w);
        i = i + 1;
    }

    // The border line.
    let mut border = String::new();
    let mut i2: usize = 0;
    proof {
        assert(border@ =~= border_prefix(d, h, 0));
    }
    while i2 < num_col
        invariant
            0 <= i2 <= num_col,
            num_col as int == column_count(d),
            widths@.len() == num_col,
            forall|k: int| 0 <= k < num_col ==> #[trigger] widths@[k] as int == column_width(d, h, k),
            forall|k: int| 0 <= k < num_col ==> #[trigger] widths@[k] <= MAX_CELL_WIDTH,
            border@ == border_prefix(d, h, i2 as int),
        decreases num_col - i2,
    {
        border.append("+");
        push_repeat(&mut border, '-', widths[i2] + 2);
        i2 = i2 + 1;
    }
    border.append("+");
    proof {
        assert(border@ == border_line(d, h));
    }

    let mut table: Vec<String> = Vec::new();
    table.push(border.clone());

    // The header row.
    let mut header_row = String::new();
    let mut i3: usize = 0;
    proof {
        assert(header_row@ =~= row_prefix(d, h, h, 0));
    }
    while i3 < num_col
        invariant
            0 <= i3 <= num_col,
            num_col as int == column_count(d),
            h == headers.deep_view(),
            h.len() == headers@.len(),
            forall|k: int| 0 <= k < h.len() ==> #[trigger] h[k] == headers@[k]@,
            widths@.len() == num_col,
            forall|k: int| 0 <= k < num_col ==> #[trigger] widths@[k] as int == column_width(d, h, k),
            forall|k: int| 0 <= k < num_col ==> #[trigger] widths@[k] <= MAX_CELL_WIDTH,
            forall|k: int| 0 <= k < h.len() ==> #[trigger] h[k].len() <= MAX_CELL_WIDTH,
            header_row@ == row_prefix(d, h, h, i3 as int),
        decreases num_col - i3,
    {
        header_row.append("| ");
        if i3 < headers.len() {
            header_row.append(headers[i3].as_str());
            push_repeat(&mut header_row, ' ', widths[i3] - headers[i3].as_str().unicode_len());
        } else {
            proof {
                assert(cell_at(h, i3 as int) =~= Seq::<char>::empty());
            }
            push_repeat(&mut header_row, ' ', widths[i3]);
        }
        header_row.append(" ");
        i3 = i3 + 1;
    }
    header_row.append("|");
    table.push(header_row);
    table.push(border.clone());

    // The data rows.
    let mut j3: usize = 0;
    while j3 < data.len()
        invariant
            0 <= j3 <= data.len(),
            num_col as int == column_count(d),
            d == data.deep_view(),
            h == headers.deep_view(),
            d.len() == data@.len(),
            forall|k: int| 0 <= k < d.len() ==> #[trigger] d[k] == data@[k].deep_view(),
            forall|k: int| 0 <= k < d.len() ==> #[trigger] d[k].len() == data@[k]@.len(),
            widths@.len() == num_col,
            forall|k: int| 0 <= k < num_col ==> #[trigger] widths@[k] as int == column_width(d, h, k),
            forall|k: int| 0 <= k < num_col ==> #[trigger] widths@[k] <= MAX_CELL_WIDTH,
            border@ == border_line(d, h),
            table@.len() == 3 + j3,
            table@.map_values(|s: String| s@) =~= seq![
                border_line(d, h),
                row_line(d, h, h),
                border_line(d, h),
            ] + Seq::new(j3 as nat, |k: int| row_line(d, h, d[k])),
        decreases data.len() - j3,
    {
        let mut row_str = String::new();
        let mut i4: usize = 0;
        proof {
            assert(row_str@ =~= row_prefix(d, h, d[j3 as int], 0));
        }
        while i4 < num_col
            invariant
                0 <= i4 <= num_col,
                0 <= j3 < data.len(),
                num_col as int == column_count(d),
                d == data.deep_view(),
                d.len() == data@.len(),
                forall|k: int| 0 <= k < d.len() ==> #[trigger] d[k] == data@[k].deep_view(),
                forall|k: int| 0 <= k < d.len() ==> #[trigger] d[k].len() == data@[k]@.len(),
                widths@.len() == num_col,
                forall|k: int|
                    0 <= k < num_col ==> #[trigger] widths@[k] as int == column_width(d, h, k),
                forall|k: int| 0 <= k < num_col ==> #[trigger] widths@[k] <= MAX_CELL_WIDTH,
                row_str@ == row_prefix(d, h, d[j3 as int], i4 as int),
            decreases num_col - i4,
        {
            row_str.append("| ");
            if i4 < data[j3].len() {
                proof {
                    lemma_cell_fits(d, i4 as int, j3 as int);
                    assert(d[j3 as int][i4 as int] == data@[j3 as int]@[i4 as int]@);
                }
                row_str.append(data[j3][i4].as_str());
                push_repeat(&mut row_str, ' ', widths[i4] - data[j3][i4].as_str().unicode_len());
            } else {
                proof {
                    assert(cell_at(d[j3 as int], i4 as int) =~= Seq::<char>::empty());
                }
                push_repeat(&mut row_str, ' ', widths[i4]);
            }
            row_str.append(" ");
            i4 = i4 + 1;
        }
        row_str.append("|");
        let ghost prev = table@.map_values(|s: String| s@);
        let ghost row_view = row_str@;
        table.push(row_str);
        proof {
            assert(table@.map_values(|s: String| s@) =~= prev.push(row_view));
            assert(row_view == row_line(d, h, d[j3 as int]));
            assert(table@.map_values(|s: String| s@) =~= seq![
                border_line(d, h),
                row_line(d, h, h),
                border_line(d, h),
            ] + Seq::new((j3 + 1) as nat, |k: int| row_line(d, h, d[k])));
        }
        j3 = j3 + 1;
    }
    table.push(border);
    proof {
        assert(table@.map_values(|s: String| s@) =~= table_lines(d, h));
    }
    table
}

} // verus!
