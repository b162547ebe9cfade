//! A reader over the game's exported tables. Such a table has three header lines: the
//! column keys, the column names, and the column types. The reader keeps the line of
//! names as the header, drops the other two, and yields the header followed by the
//! rest of the table, so that a CSV reader sees one header line and then the rows.
use vstd::prelude::*;

verus! {

/// The index of the first line feed in `s` at or after `i`, or the length of `s` if
/// there is none.
pub open spec fn next_newline(s: Seq<u8>, i: int) -> int
    decreases s.len() - i,
{
    if i >= s.len() || i < 0 {
        s.len() as int
    } else if s[i] == 10 {
        i
    } else {
        next_newline(s, i + 1)
    }
}

proof fn lemma_next_newline(s: Seq<u8>, i: int)
    requires
        0 <= i <= s.len(),
    ensures
        i <= next_newline(s, i) <= s.len(),
        next_newline(s, i) < s.len() ==> s[next_newline(s, i)] == 10,
        forall|k: int| i <= k < next_newline(s, i) ==> s[k] != 10,
    decreases s.len() - i,
{
    if i < s.len() && s[i] != 10 {
        lemma_next_newline(s, i + 1);
    }
}

/// The end of the line that starts at `i`: just past its line feed.
pub open spec fn line_end(s: Seq<u8>, i: int) -> int {
    next_newline(s, i) + 1
}

/// Whether `s` holds at least three lines that end in a line feed.
pub open spec fn has_three_lines(s: Seq<u8>) -> bool {
    &&& next_newline(s, 0) < s.len()
    &&& next_newline(s, line_end(s, 0)) < s.len()
    &&& next_newline(s, line_end(s, line_end(s, 0))) < s.len()
}

/// The second line of `s`, line feed included.
pub open spec fn header_line(s: Seq<u8>) -> Seq<u8> {
    s.subrange(line_end(s, 0), line_end(s, line_end(s, 0)))
}

/// What follows the third line of `s`.
pub open spec fn table_body(s: Seq<u8>) -> Seq<u8> {
    s.subrange(line_end(s, line_end(s, line_end(s, 0))), s.len() as int)
}

/// Skips the line of `source` that starts at `start`: returns the position just past
/// its line feed.
pub fn skip_line(source: &Vec<u8>, start: usize) -> (r: usize)
    requires
        start <= source.len(),
        next_newline(source@, start as int) < source.len(),
    ensures
        r == line_end(source@, start as int),
{
    proof {
        lemma_next_newline(source@, start as int);
    }
    let mut i = start;
    while source[i] != 10
        invariant
            start <= i < source.len(),
            next_newline(source@, i as int) == next_newline(source@, start as int),
            next_newline(source@, start as int) < source.len(),
        decreases source.len() - i,
    {
        proof {
            lemma_next_newline(source@, i as int + 1);
        }
        i = i + 1;
    }
    i + 1
}

/// Copies the line of `source` that starts at `start`, line feed included, into
/// `linebuf` (which is cleared first); returns the position just past the line feed.
pub fn fill_line(source: &Vec<u8>, start: usize, linebuf: &mut Vec<u8>) -> (r: usize)
    requires
        start <= source.len(),
        next_newline(source@, start as int) < source.len(),
    ensures
        r == line_end(source@, start as int),
        final(linebuf)@ == source@.subrange(start as int, r as int),
{
    proof {
        lemma_next_newline(source@, start as int);
    }
    linebuf.clear();
    let mut i = start;
    while source[i] != 10
        invariant
            start <= i < source.len(),
            next_newline(source@, i as int) == next_newline(source@, start as int),
            next_newline(source@, start as int) < source.len(),
            linebuf@ == source@.subrange(start as int, i as int),
        decreases source.len() - i,
    {
        proof {
            lemma_next_newline(source@, i as int + 1);
        }
        linebuf.push(source[i]);
        i = i + 1;
    }
    linebuf.push(source[i]);
    assert(linebuf@ =~= source@.subrange(start as int, i + 1));
    i + 1
}

/// `a - b`, or 0 when `b` is larger.
pub fn diff_or_zero(a: usize, b: usize) -> (r: usize)
    ensures
        r == if a >= b {
            a - b
        } else {
            0
        },
{
    if a >= b {
        a - b
    } else {
        0
    }
}

/// A reader over an exported table held in memory.
pub struct TableReader {
    source: Vec<u8>,
    pos: usize,
    header: Vec<u8>,
}

impl TableReader {
    /// The bytes the reader has yet to yield: what is left of the header, then what is
    /// left of the table's body.
    pub closed spec fn stream(&self) -> Seq<u8> {
        self.header@ + self.source@.subrange(self.pos as int, self.source@.len() as int)
    }

    #[verifier::type_invariant]
    closed spec fn wf(&self) -> bool {
        self.pos <= self.source@.len()
    }

    /// The header the reader has yet to yield.
    pub closed spec fn spec_header(&self) -> Seq<u8> {
        self.header@
    }

    /// Prepares a reader over `source`, which must hold the three header lines; it
    /// yields the second line, then everything after the third.
    pub fn new(source: Vec<u8>) -> (r: Self)
        requires
            has_three_lines(source@),
        ensures
            r.spec_header() == header_line(source@),
            r.stream() == header_line(source@) + table_body(source@),
    {
        proof {
            lemma_next_newline(source@, 0);
        }
        let first = skip_line(&source, 0);
        proof {
            lemma_next_newline(source@, first as int);
        }
        let mut header = Vec::new();
        let second = fill_line(&source, first, &mut header);
        proof {
            lemma_next_newline(source@, second as int);
        }
        let third = skip_line(&source, second);
        TableReader { source, pos: third, header }
    }

    /// The header the reader has yet to yield.
    pub fn header(&self) -> (r: &Vec<u8>)
        ensures
            r@ == self.spec_header(),
    {
        &self.header
    }

    /// Fills `buf` from the front with as many of the remaining bytes as fit, and
    /// returns how many it wrote; the rest of `buf` is left as it was. The bytes come
    /// out in order: the header first, then the body.
    pub fn read(&mut self, buf: &mut Vec<u8>) -> (r: usize)
        ensures
            r == if old(buf).len() < old(self).stream().len() {
                old(buf).len() as int
            } else {
                old(self).stream().len() as int
            },
            final(buf).len() == old(buf).len(),
            final(buf)@.subrange(0, r as int) == old(self).stream().subrange(0, r as int),
            final(buf)@.subrange(r as int, final(buf).len() as int) == old(buf)@.subrange(
                r as int,
                old(buf).len() as int,
            ),
            final(self).stream() == old(self).stream().subrange(
                r as int,
                old(self).stream().len() as int,
            ),
    {
        proof {
            use_type_invariant(&*self);
        }
        let ghost s0 = self.stream();
        let ghost b0 = buf@;
        let n = buf.len();
        let hlen = self.header.len();
        let from_header = if n < hlen {
            n
        } else {
            hlen
        };
        let mut i: usize = 0;
        while i < from_header
            invariant
                from_header <= hlen == self.header.len(),
                from_header <= n == buf.len(),
                i <= from_header,
                forall|k: int| 0 <= k < i ==> buf@[k] == self.header@[k],
                forall|k: int| i <= k < n ==> buf@[k] == b0[k],
            decreases from_header - i,
        {
            let v = self.header[i];
            buf.set(i, v);
            i = i + 1;
        }
        let mut rest = Vec::new();
        let mut j = from_header;
        while j < hlen
            invariant
                from_header <= j <= hlen == self.header.len(),
                rest@ == self.header@.subrange(from_header as int, j as int),
            decreases hlen - j,
        {
            rest.push(self.header[j]);
            j = j + 1;
        }
        let ghost old_header = self.header@;
        self.header = rest;
        let avail = self.source.len() - self.pos;
        let want = diff_or_zero(n, hlen);
        let from_body = if want < avail {
            want
        } else {
            avail
        };
        let mut k: usize = 0;
        while k < from_body
            invariant
                from_header <= n == buf.len(),
                from_body <= avail == self.source.len() - self.pos,
                from_header + from_body <= n,
                self.pos <= self.source.len(),
                from_body > 0 ==> from_header == hlen,
                k <= from_body,
                forall|q: int| 0 <= q < from_header ==> buf@[q] == old_header[q],
                forall|q: int|
                    from_header <= q < from_header + k ==> #[trigger] buf@[q]
                        == self.source@[self.pos + (q - from_header)],
                forall|q: int| from_header + k <= q < n ==> buf@[q] == b0[q],
            decreases from_body - k,
        {
            let v = self.source[self.pos + k];
            buf.set(from_header + k, v);
            k = k + 1;
        }
        self.pos = self.pos + from_body;
        let r = from_header + from_body;
        assert(buf@.subrange(0, r as int) =~= s0.subrange(0, r as int));
        assert(buf@.subrange(r as int, n as int) =~= b0.subrange(r as int, n as int));
        assert(self.stream() =~= s0.subrange(r as int, s0.len() as int));
        r
    }
}

/// What a reader of table rows does with the next row. A row that fails to parse is
/// held back: it is an error only if another row follows it, since the last line of an
/// exported table is empty.
pub enum RowStep<V, E> {
    /// The row parsed: keep it.
    Keep(V),
    /// The row failed to parse: hold its error until it is known whether it was the
    /// last one.
    Hold(E),
    /// A row followed a failed one: stop with the error of the failed row.
    Stop(E),
}

/// Decides what to do with the next row `row`, given the error held back from the row
/// before it, if that one failed.
pub fn next_row_step<V, E>(held: Option<E>, row: Result<V, E>) -> (r: RowStep<V, E>)
    ensures
        held matches Some(e) ==> r == RowStep::<V, E>::Stop(e),
        held is None ==> (row matches Ok(v) ==> r == RowStep::<V, E>::Keep(v)),
        held is None ==> (row matches Err(e) ==> r == RowStep::<V, E>::Hold(e)),
{
    match held {
        Some(e) => RowStep::Stop(e),
        None => match row {
            Ok(v) => RowStep::Keep(v),
            Err(e) => RowStep::Hold(e),
        },
    }
}

} // verus!
