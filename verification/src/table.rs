use vstd::prelude::*;

verus! {

/// The fields joined by the separator, as `[String]::join` does: nothing for
/// no fields, the field itself for one.
pub open spec fn join_fields(fields: Seq<Seq<char>>, sep: char) -> Seq<char>
    decreases fields.len(),
{
    if fields.len() == 0 {
        Seq::empty()
    } else if fields.len() == 1 {
        fields[0]
    } else {
        join_fields(fields.drop_last(), sep) + seq![sep] + fields.last()
    }
}

/// The pieces of `s` between the occurrences of `sep`, as `str::split` gives
/// them: always at least one piece, empty pieces kept.
pub open spec fn split_fields_spec(s: Seq<char>, sep: char) -> Seq<Seq<char>>
    decreases s.len(),
{
    if s.len() == 0 {
        seq![Seq::empty()]
    } else {
        let pieces = split_fields_spec(s.drop_last(), sep);
        if s.last() == sep {
            pieces.push(Seq::empty())
        } else {
            pieces.update(pieces.len() - 1, pieces.last().push(s.last()))
        }
    }
}

/// One CSV line: the fields joined by commas, then a line feed.
pub open spec fn csv_line(fields: Seq<Seq<char>>) -> Seq<char> {
    join_fields(fields, ',') + seq!['\n']
}

/// The CSV lines of the rows, one after the other.
pub open spec fn csv_rows(rows: Seq<Seq<Seq<char>>>) -> Seq<char>
    decreases rows.len(),
{
    if rows.len() == 0 {
        Seq::empty()
    } else {
        csv_rows(rows.drop_last()) + csv_line(rows.last())
    }
}

/// The text of a CSV table: the header line, then one line per row.
pub open spec fn csv_text(headers: Seq<Seq<char>>, rows: Seq<Seq<Seq<char>>>) -> Seq<char> {
    csv_line(headers) + csv_rows(rows)
}

/// The characters of each string.
pub open spec fn strings_view(v: Seq<String>) -> Seq<Seq<char>> {
    v.map_values(|s: String| s@)
}

/// The characters of each string of each row.
pub open spec fn rows_view(rows: Seq<Vec<String>>) -> Seq<Seq<Seq<char>>> {
    rows.map_values(|r: Vec<String>| strings_view(r@))
}

/// A table as written out: column headers, and the cells of each row.
pub struct TableSchema {
    /// Column headers.
    pub headers: Vec<String>,
    /// Cells of each row, in column order.
    pub rows: Vec<Vec<String>>,
}

proof fn lemma_join_take_step(fields: Seq<Seq<char>>, sep: char, i: int)
    requires
        0 <= i < fields.len(),
    ensures
        join_fields(fields.take(i + 1), sep) == if i == 0 {
            fields[0]
        } else {
            join_fields(fields.take(i), sep) + seq![sep] + fields[i]
        },
{
    assert(fields.take(i + 1).drop_last() =~= fields.take(i));
}

/// Appends the fields joined by commas.
fn append_joined(out: &mut String, fields: &Vec<String>)
    ensures
        final(out)@ == old(out)@ + join_fields(strings_view(fields@), ','),
{
    let ghost start = out@;
    let ghost view = strings_view(fields@);
    proof {
        reveal_strlit(",");
        assert(view.take(0) =~= Seq::<Seq<char>>::empty());
        assert(start + Seq::<char>::empty() =~= start);
    }
    for i in 0..fields.len()
        invariant
            view == strings_view(fields@),
            view.len() == fields@.len(),
            out@ == start + join_fields(view.take(i as int), ','),
    {
        proof {
            reveal_strlit(",");
            lemma_join_take_step(view, ',', i as int);
            assert(view[i as int] == fields@[i as int]@);
        }
        if i > 0 {
            out.append(",");
        }
        out.append(fields[i].as_str());
        proof {
            if i == 0 {
                assert(out@ =~= start + view[0]);
            } else {
                assert(out@ =~= start + (join_fields(view.take(i as int), ',') + seq![','] + view[i as int]));
            }
        }
    }
    proof {
        assert(view.take(fields@.len() as int) =~= view);
    }
}

/// Writes a table as CSV: the headers joined by commas on the first line,
/// then each row's cells joined by commas on a line of its own, every line
/// ended by a line feed.
pub fn csv_from_schema(schema: TableSchema) -> (out: String)
    ensures
        out@ == csv_text(strings_view(schema.headers@), rows_view(schema.rows@)),
{
    let mut out = String::new();
    append_joined(&mut out, &schema.headers);
    out.append("\n");
    let ghost header_line = out@;
    let ghost rows = rows_view(schema.rows@);
    proof {
        reveal_strlit("\n");
        assert(header_line =~= csv_line(strings_view(schema.headers@)));
        assert(rows.take(0) =~= Seq::<Seq<Seq<char>>>::empty());
        assert(header_line + Seq::<char>::empty() =~= header_line);
    }
    for r in 0..schema.rows.len()
        invariant
            rows == rows_view(schema.rows@),
            rows.len() == schema.rows@.len(),
            header_line == csv_line(strings_view(schema.headers@)),
            out@ == header_line + csv_rows(rows.take(r as int)),
    {
        proof {
            reveal_strlit("\n");
        }
        append_joined(&mut out, &schema.rows[r]);
        out.append("\n");
        proof {
            assert(rows.take(r + 1).drop_last() =~= rows.take(r as int));
            assert(rows[r as int] == strings_view(schema.rows@[r as int]@));
            assert(out@ =~= header_line + (csv_rows(rows.take(r as int)) + csv_line(rows[r as int])));
        }
    }
    proof {
        assert(rows.take(schema.rows@.len() as int) =~= rows);
    }
    out
}

/// Splitting never yields an empty list of pieces.
proof fn lemma_split_nonempty(s: Seq<char>, sep: char)
    ensures
        split_fields_spec(s, sep).len() >= 1,
    decreases s.len(),
{
    if s.len() > 0 {
        lemma_split_nonempty(s.drop_last(), sep);
    }
}

/// Joining the pieces of a split by the same separator gives back the text:
/// `split` and `join` undo each other.
pub proof fn lemma_join_split(s: Seq<char>, sep: char)
    ensures
        join_fields(split_fields_spec(s, sep), sep) == s,
    decreases s.len(),
{
    if s.len() == 0 {
        assert(join_fields(split_fields_spec(s, sep), sep) =~= s);
    } else {
        let p = s.drop_last();
        let pieces = split_fields_spec(p, sep);
        lemma_join_split(p, sep);
        lemma_split_nonempty(p, sep);
        if s.last() == sep {
            let q = pieces.push(Seq::<char>::empty());
            assert(q.drop_last() =~= pieces);
            assert(join_fields(q, sep) =~= s);
        } else {
            let q = pieces.update(pieces.len() - 1, pieces.last().push(s.last()));
            if pieces.len() == 1 {
                assert(join_fields(q, sep) =~= s);
            } else {
                assert(q.drop_last() =~= pieces.drop_last());
                assert(q.last() == pieces.last().push(s.last()));
                assert(join_fields(pieces, sep) == join_fields(pieces.drop_last(), sep) + seq![sep]
                    + pieces.last());
                assert(join_fields(q, sep) == join_fields(pieces.drop_last(), sep) + seq![sep]
                    + pieces.last().push(s.last()));
                assert(s =~= p.push(s.last()));
                assert(join_fields(q, sep) =~= s);
            }
        }
    }
}

/// Splits a line at its commas, keeping empty pieces: the pieces that
/// `str::split(',')` yields.
pub fn split_fields(line: &str) -> (pieces: Vec<String>)
    ensures
        strings_view(pieces@) == split_fields_spec(line@, ','),
{
    let n = line.unicode_len();
    let mut pieces: Vec<String> = Vec::new();
    let mut start: usize = 0;
    let mut i: usize = 0;
    proof {
        assert(line@.take(0) =~= Seq::<char>::empty());
        assert(strings_view(pieces@).push(line@.subrange(0, 0)) =~= seq![Seq::<char>::empty()]);
    }
    while i < n
        invariant
            n == line@.len(),
            start <= i <= n,
            strings_view(pieces@).push(line@.subrange(start as int, i as int))
                == split_fields_spec(line@.take(i as int), ','),
        decreases n - i,
    {
        let c = line.get_char(i);
        let ghost before = strings_view(pieces@);
        proof {
            assert(line@.take(i + 1).drop_last() =~= line@.take(i as int));
            assert(line@.take(i + 1).last() == c);
        }
        if c == ',' {
            let ghost old_start = start;
            let piece = line.substring_char(start, i);
            pieces.push(String::from_str(piece));
            start = i + 1;
            proof {
                assert(strings_view(pieces@) =~= before.push(line@.subrange(old_start as int, i as int)));
                assert(line@.subrange(start as int, i + 1) =~= Seq::<char>::empty());
                assert(strings_view(pieces@).push(line@.subrange(start as int, i + 1)) =~= split_fields_spec(line@.take(i + 1), ','));
            }
        } else {
            proof {
                let pp = split_fields_spec(line@.take(i as int), ',');
                assert(pp == before.push(line@.subrange(start as int, i as int)));
                assert(line@.subrange(start as int, i as int).push(c) =~= line@.subrange(start as int, i + 1));
                assert(split_fields_spec(line@.take(i + 1), ',') == pp.update(pp.len() - 1, pp.last().push(c)));
                assert(before.push(line@.subrange(start as int, i + 1)) =~= split_fields_spec(line@.take(i + 1), ','));
            }
        }
        i += 1;
    }
    let last = line.substring_char(start, n);
    let ghost before = strings_view(pieces@);
    pieces.push(String::from_str(last));
    proof {
        assert(line@.take(n as int) =~= line@);
        assert(strings_view(pieces@) =~= before.push(line@.subrange(start as int, n as int)));
    }
    pieces
}

/// Rows of the impulse response table: the `2L + 1` coefficients of the
/// filter, with a negative `L` taken as zero and the count saturated at the
/// largest `usize`.
pub open spec fn impulse_rows(l: int) -> int {
    let taps = 2 * (if l < 0 {
        0
    } else {
        l
    }) + 1;
    if taps > usize::MAX {
        usize::MAX as int
    } else {
        taps
    }
}

/// The number of rows of the impulse response table.
pub fn impulse_row_count(l: i32) -> (rows: usize)
    ensures
        rows == impulse_rows(l as int),
{
    if l <= 0 {
        1
    } else {
        let half: usize = l as usize;
        if half > (usize::MAX - 1) / 2 {
            usize::MAX
        } else {
            2 * half + 1
        }
    }
}

/// The number of rows of a table of `n` samples, a negative count taken as
/// zero.
pub fn sample_row_count(n: i32) -> (rows: usize)
    ensures
        n <= 0 ==> rows == 0,
        n > 0 ==> rows == n,
{
    if n <= 0 {
        0
    } else {
        n as usize
    }
}

/// The number of rows of the operation table: the samples of the main
/// interval when the run produced any, else `interval_rows`, the count the
/// interval length gives.
pub fn operation_row_count(ne: i32, interval_rows: usize) -> (rows: usize)
    ensures
        ne > 0 ==> rows == ne,
        ne <= 0 ==> rows == interval_rows,
{
    if ne > 0 {
        ne as usize
    } else {
        interval_rows
    }
}

/// How many times `c` occurs in `s`.
pub open spec fn count_char(s: Seq<char>, c: char) -> nat
    decreases s.len(),
{
    if s.len() == 0 {
        0
    } else {
        count_char(s.drop_last(), c) + if s.last() == c {
            1nat
        } else {
            0nat
        }
    }
}

proof fn lemma_count_concat(a: Seq<char>, b: Seq<char>, c: char)
    ensures
        count_char(a + b, c) == count_char(a, c) + count_char(b, c),
    decreases b.len(),
{
    if b.len() == 0 {
        assert(a + b =~= a);
    } else {
        lemma_count_concat(a, b.drop_last(), c);
        assert((a + b).drop_last() =~= a + b.drop_last());
    }
}

/// Whether no field holds the character `c`.
pub open spec fn fields_free_of(fields: Seq<Seq<char>>, c: char) -> bool {
    forall|i: int| 0 <= i < fields.len() ==> count_char(#[trigger] fields[i], c) == 0
}

proof fn lemma_join_free_of(fields: Seq<Seq<char>>, sep: char, c: char)
    requires
        fields_free_of(fields, c),
        sep != c,
    ensures
        count_char(join_fields(fields, sep), c) == 0,
    decreases fields.len(),
{
    if fields.len() == 0 {
    } else if fields.len() == 1 {
        assert(count_char(fields[0], c) == 0);
    } else {
        let init = fields.drop_last();
        assert(fields_free_of(init, c)) by {
            assert forall|i: int| 0 <= i < init.len() implies count_char(#[trigger] init[i], c)
                == 0 by {
                assert(init[i] == fields[i]);
            }
        }
        lemma_join_free_of(init, sep, c);
        assert(count_char(fields[fields.len() - 1], c) == 0);
        let sep_seq = seq![sep];
        assert(count_char(sep_seq, c) == 0) by {
            assert(sep_seq.drop_last() =~= Seq::<char>::empty());
            reveal_with_fuel(count_char, 2);
        }
        lemma_count_concat(join_fields(init, sep), sep_seq, c);
        lemma_count_concat(join_fields(init, sep) + sep_seq, fields.last(), c);
    }
}

proof fn lemma_csv_line_count(fields: Seq<Seq<char>>)
    requires
        fields_free_of(fields, '\n'),
    ensures
        count_char(csv_line(fields), '\n') == 1,
{
    lemma_join_free_of(fields, ',', '\n');
    let nl = seq!['\n'];
    assert(count_char(nl, '\n') == 1) by {
        assert(nl.drop_last() =~= Seq::<char>::empty());
        reveal_with_fuel(count_char, 2);
    }
    lemma_count_concat(join_fields(fields, ','), nl, '\n');
}

/// A table whose headers and cells hold no line feed is written as exactly
/// one line per row plus the header line.
pub proof fn lemma_csv_one_line_per_row(headers: Seq<Seq<char>>, rows: Seq<Seq<Seq<char>>>)
    requires
        fields_free_of(headers, '\n'),
        forall|r: int| 0 <= r < rows.len() ==> fields_free_of(#[trigger] rows[r], '\n'),
    ensures
        count_char(csv_text(headers, rows), '\n') == rows.len() + 1,
    decreases rows.len(),
{
    lemma_csv_line_count(headers);
    if rows.len() == 0 {
        assert(csv_text(headers, rows) =~= csv_line(headers));
    } else {
        let init = rows.drop_last();
        assert forall|r: int| 0 <= r < init.len() implies fields_free_of(#[trigger] init[r], '\n') by {
            assert(init[r] == rows[r]);
        }
        lemma_csv_one_line_per_row(headers, init);
        assert(fields_free_of(rows[rows.len() - 1], '\n'));
        lemma_csv_line_count(rows.last());
        lemma_count_concat(csv_rows(init), csv_line(rows.last()), '\n');
        lemma_count_concat(csv_line(headers), csv_rows(init), '\n');
        lemma_count_concat(csv_line(headers), csv_rows(rows), '\n');
    }
}

} // verus!
