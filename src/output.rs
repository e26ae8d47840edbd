use vstd::prelude::*;

verus! {

/// Each item on a line of its own.
pub open spec fn lines_of(items: Seq<String>) -> Seq<char>
    decreases items.len(),
{
    if items.len() == 0 {
        Seq::empty()
    } else {
        lines_of(items.drop_last()) + items.last()@ + "\n"@
    }
}

/// The cells of one row, joined by tabs.
pub open spec fn cells_of(row: Seq<String>) -> Seq<char>
    decreases row.len(),
{
    if row.len() == 0 {
        Seq::empty()
    } else if row.len() == 1 {
        row[0]@
    } else {
        cells_of(row.drop_last()) + "\t"@ + row.last()@
    }
}

/// Each row's cells on a line of its own.
pub open spec fn rows_of(rows: Seq<Vec<String>>) -> Seq<char>
    decreases rows.len(),
{
    if rows.len() == 0 {
        Seq::empty()
    } else {
        rows_of(rows.drop_last()) + cells_of(rows.last()@) + "\n"@
    }
}

/// Each header as `name: value` on a line of its own.
pub open spec fn header_lines_of(headers: Seq<(String, String)>) -> Seq<char>
    decreases headers.len(),
{
    if headers.len() == 0 {
        Seq::empty()
    } else {
        header_lines_of(headers.drop_last()) + headers.last().0@ + ": "@ + headers.last().1@
            + "\n"@
    }
}

/// The head of a response: its status line, its headers, and a blank line.
pub open spec fn response_head_of(status: Seq<char>, headers: Seq<(String, String)>) -> Seq<
    char,
> {
    "HTTP/1.0 "@ + status + "\n"@ + header_lines_of(headers) + "\n"@
}

/// The members of a collection, one per line, in the order given.
pub fn member_lines(items: &Vec<String>) -> (r: String)
    ensures
        r@ == lines_of(items@),
{
    let mut r = String::new();
    let mut i: usize = 0;
    while i < items.len()
        invariant
            i <= items@.len(),
            r@ == lines_of(items@.subrange(0, i as int)),
        decreases items@.len() - i,
    {
        assert(items@.subrange(0, i + 1).drop_last() =~= items@.subrange(0, i as int));
        r.append(items[i].as_str());
        r.append("\n");
        i = i + 1;
    }
    assert(items@.subrange(0, i as int) =~= items@);
    r
}

/// One query result row: its cells joined by tabs.
pub fn row_cells(row: &Vec<String>) -> (r: String)
    ensures
        r@ == cells_of(row@),
{
    let mut r = String::new();
    let mut i: usize = 0;
    while i < row.len()
        invariant
            i <= row@.len(),
            r@ == cells_of(row@.subrange(0, i as int)),
        decreases row@.len() - i,
    {
        assert(row@.subrange(0, i + 1).drop_last() =~= row@.subrange(0, i as int));
        if i > 0 {
            r.append("\t");
        } else {
            assert(r@ =~= Seq::<char>::empty());
        }
        r.append(row[i].as_str());
        i = i + 1;
        assert(row@.subrange(0, i as int).last() == row@[i - 1]);
    }
    assert(row@.subrange(0, i as int) =~= row@);
    r
}

/// Query results as rows of tab-separated cells, each row ended by a
/// newline; no rows give the empty text.
pub fn query_rows(rows: &Vec<Vec<String>>) -> (r: String)
    ensures
        r@ == rows_of(rows@),
{
    let mut r = String::new();
    let mut i: usize = 0;
    while i < rows.len()
        invariant
            i <= rows@.len(),
            r@ == rows_of(rows@.subrange(0, i as int)),
        decreases rows@.len() - i,
    {
        assert(rows@.subrange(0, i + 1).drop_last() =~= rows@.subrange(0, i as int));
        let line = row_cells(&rows[i]);
        r.append(line.as_str());
        r.append("\n");
        i = i + 1;
    }
    assert(rows@.subrange(0, i as int) =~= rows@);
    r
}

/// The status line and headers of a simulated response, then a blank line.
pub fn response_head(status: &str, headers: &Vec<(String, String)>) -> (r: String)
    ensures
        r@ == response_head_of(status@, headers@),
{
    let mut r = String::from_str("HTTP/1.0 ");
    r.append(status);
    r.append("\n");
    let ghost start = r@;
    let mut i: usize = 0;
    while i < headers.len()
        invariant
            i <= headers@.len(),
            r@ == start + header_lines_of(headers@.subrange(0, i as int)),
        decreases headers@.len() - i,
    {
        assert(headers@.subrange(0, i + 1).drop_last() =~= headers@.subrange(0, i as int));
        let (name, value) = &headers[i];
        r.append(name.as_str());
        r.append(": ");
        r.append(value.as_str());
        r.append("\n");
        i = i + 1;
        assert(r@ =~= start + header_lines_of(headers@.subrange(0, i as int)));
    }
    assert(headers@.subrange(0, i as int) =~= headers@);
    r.append("\n");
    assert(r@ =~= response_head_of(status@, headers@));
    r
}

} // verus!
