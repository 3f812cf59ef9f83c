//! The records that are written out for a document's exported fields.

use vstd::prelude::*;
use vstd::string::*;
use crate::extract::FieldRecord;

verus! {

/// Lays out exported fields as CSV records.
#[derive(Debug)]
pub struct CSVWriter;

pub open spec fn texts(v: Seq<String>) -> Seq<Seq<char>> {
    v.map_values(|s: String| s@)
}

pub open spec fn header_spec() -> Seq<Seq<char>> {
    seq!["FieldName"@, "Value"@, "OcrConfidence"@, "Confidence"@, "IsMissing"@]
}

pub open spec fn bool_text(b: bool) -> Seq<char> {
    if b {
        "true"@
    } else {
        "false"@
    }
}

/// The record of one field, in the order of the header.
pub open spec fn record_spec(f: FieldRecord) -> Seq<Seq<char>> {
    seq![f.field_name@, f.value@, f.ocr_confidence@, f.confidence@, bool_text(f.is_missing)]
}

impl CSVWriter {
    pub fn header() -> (r: Vec<String>)
        ensures
            texts(r@) == header_spec(),
    {
        let mut r: Vec<String> = Vec::new();
        r.push(String::from_str("FieldName"));
        r.push(String::from_str("Value"));
        r.push(String::from_str("OcrConfidence"));
        r.push(String::from_str("Confidence"));
        r.push(String::from_str("IsMissing"));
        assert(texts(r@) =~= header_spec());
        r
    }

    pub fn record(f: &FieldRecord) -> (r: Vec<String>)
        ensures
            texts(r@) == record_spec(*f),
    {
        let mut r: Vec<String> = Vec::new();
        r.push(f.field_name.clone());
        r.push(f.value.clone());
        r.push(f.ocr_confidence.clone());
        r.push(f.confidence.clone());
        r.push(
            if f.is_missing {
                String::from_str("true")
            } else {
                String::from_str("false")
            },
        );
        assert(texts(r@) =~= record_spec(*f));
        r
    }

    /// The header, then one record per field in order.
    pub fn records(fields: &Vec<FieldRecord>) -> (r: Vec<Vec<String>>)
        ensures
            r@.len() == fields@.len() + 1,
            texts(r@[0]@) == header_spec(),
            forall|i: int| 0 <= i < fields@.len() ==> texts(#[trigger] r@[i + 1]@) == record_spec(fields@[i]),
    {
        let mut r: Vec<Vec<String>> = Vec::new();
        r.push(Self::header());
        let mut i: usize = 0;
        while i < fields.len()
            invariant
                i <= fields@.len(),
                r@.len() == i + 1,
                texts(r@[0]@) == header_spec(),
                forall|k: int| 0 <= k < i ==> texts(#[trigger] r@[k + 1]@) == record_spec(fields@[k]),
            decreases fields@.len() - i,
        {
            r.push(Self::record(&fields[i]));
            i = i + 1;
        }
        r
    }

    /// The name of the file that a document's records go to.
    pub fn output_file_name(file_stem: &str) -> (r: String)
        ensures
            r@ == file_stem@ + ".csv"@,
    {
        String::from_str(file_stem).concat(".csv")
    }
}

/// The texts of a table, row by row.
pub open spec fn table_texts(rows: Seq<Vec<String>>) -> Seq<Seq<Seq<char>>> {
    rows.map_values(|r: Vec<String>| texts(r@))
}

/// The width of column `c`: the most characters that a cell of it holds.
pub open spec fn column_width(rows: Seq<Seq<Seq<char>>>, c: int) -> nat
    decreases rows.len(),
{
    if rows.len() == 0 {
        0
    } else {
        let w = column_width(rows.drop_last(), c);
        let r = rows.last();
        if 0 <= c < r.len() && r[c].len() > w {
            r[c].len()
        } else {
            w
        }
    }
}

/// A cell followed by spaces up to width `w`.
pub open spec fn pad_spec(s: Seq<char>, w: nat) -> Seq<char> {
    if s.len() >= w {
        s
    } else {
        s + Seq::new((w - s.len()) as nat, |i: int| ' ')
    }
}

/// Cells joined by `|`.
pub open spec fn join_cells(cells: Seq<Seq<char>>) -> Seq<char>
    decreases cells.len(),
{
    if cells.len() == 0 {
        Seq::empty()
    } else if cells.len() == 1 {
        cells[0]
    } else {
        join_cells(cells.drop_last()) + "|"@ + cells.last()
    }
}

/// One row laid out in columns of the given widths; cells past the last
/// column are left out.
pub open spec fn line_spec(row: Seq<Seq<char>>, widths: Seq<nat>) -> Seq<char> {
    let n = if row.len() < widths.len() {
        row.len()
    } else {
        widths.len()
    };
    join_cells(Seq::new(n, |c: int| pad_spec(row[c], widths[c])))
}

pub open spec fn nat_widths(w: Seq<usize>) -> Seq<nat> {
    w.map_values(|x: usize| x as nat)
}

/// The columns' widths, one per header cell.
pub open spec fn widths_spec(rows: Seq<Seq<Seq<char>>>) -> Seq<nat> {
    Seq::new(rows[0].len(), |c: int| column_width(rows, c))
}

/// A table laid out for reading: the header, a rule of dashes as long as
/// the header's line, then each further row.
pub open spec fn layout_spec(rows: Seq<Seq<Seq<char>>>) -> Seq<Seq<char>> {
    if rows.len() == 0 {
        Seq::empty()
    } else {
        let widths = widths_spec(rows);
        let head = line_spec(rows[0], widths);
        seq![head, Seq::new(head.len(), |i: int| '-')] + Seq::new(
            (rows.len() - 1) as nat,
            |i: int| line_spec(rows[i + 1], widths),
        )
    }
}

impl CSVWriter {
    fn column_width(rows: &Vec<Vec<String>>, c: usize) -> (r: usize)
        ensures
            r as nat == column_width(table_texts(rows@), c as int),
    {
        let ghost t = table_texts(rows@);
        let mut w: usize = 0;
        let mut i: usize = 0;
        while i < rows.len()
            invariant
                i <= rows@.len(),
                t == table_texts(rows@),
                w as nat == column_width(t.take(i as int), c as int),
            decreases rows@.len() - i,
        {
            proof {
                assert(t.take(i + 1).drop_last() =~= t.take(i as int));
                assert(t.take(i + 1).last() == texts(rows@[i as int]@));
            }
            let row = &rows[i];
            if c < row.len() {
                let n = row[c].as_str().unicode_len();
                if n > w {
                    w = n;
                }
            }
            i = i + 1;
        }
        proof {
            assert(t.take(rows@.len() as int) =~= t);
        }
        w
    }

    fn column_widths(rows: &Vec<Vec<String>>) -> (r: Vec<usize>)
        requires
            rows@.len() > 0,
        ensures
            r@.len() == rows@[0]@.len(),
            forall|c: int| 0 <= c < r@.len() ==> r@[c] as nat == widths_spec(table_texts(rows@))[c],
    {
        let n = rows[0].len();
        let mut r: Vec<usize> = Vec::new();
        let mut c: usize = 0;
        while c < n
            invariant
                n == rows@[0]@.len(),
                rows@.len() > 0,
                c <= n,
                r@.len() == c,
                forall|k: int| 0 <= k < c ==> r@[k] as nat == widths_spec(table_texts(rows@))[k],
            decreases n - c,
        {
            r.push(Self::column_width(rows, c));
            c = c + 1;
        }
        r
    }

    fn pad_cell(s: &str, w: usize) -> (r: String)
        ensures
            r@ == pad_spec(s@, w as nat),
    {
        proof {
            reveal_strlit(" ");
        }
        let n = s.unicode_len();
        let mut r = String::from_str(s);
        let mut k: usize = n;
        while k < w
            invariant
                n == s@.len(),
                n <= k,
                k <= w || k == n,
                r@ == s@ + Seq::new((k - n) as nat, |i: int| ' '),
            decreases w - k,
        {
            proof {
                reveal_strlit(" ");
            }
            r.append(" ");
            k = k + 1;
            assert(r@ =~= s@ + Seq::new((k - n) as nat, |i: int| ' '));
        }
        assert(n >= w ==> r@ =~= s@);
        r
    }

    fn line(row: &Vec<String>, widths: &Vec<usize>) -> (r: String)
        ensures
            r@ == line_spec(texts(row@), nat_widths(widths@)),
    {
        proof {
            reveal_strlit("|");
        }
        let n = if row.len() < widths.len() {
            row.len()
        } else {
            widths.len()
        };
        let ghost cells = Seq::new(
            n as nat,
            |c: int| pad_spec(texts(row@)[c], nat_widths(widths@)[c]),
        );
        let mut r = String::new();
        let mut c: usize = 0;
        while c < n
            invariant
                n <= row@.len(),
                n <= widths@.len(),
                c <= n,
                cells.len() == n,
                forall|k: int| 0 <= k < n ==> #[trigger] cells[k] == pad_spec(texts(row@)[k], nat_widths(widths@)[k]),
                r@ == join_cells(cells.take(c as int)),
            decreases n - c,
        {
            let cell = Self::pad_cell(row[c].as_str(), widths[c]);
            proof {
                assert(cells.take(c + 1).drop_last() =~= cells.take(c as int));
                assert(cells.take(c + 1).last() == cells[c as int]);
            }
            if c > 0 {
                r.append("|");
            }
            r.append(cell.as_str());
            c = c + 1;
        }
        proof {
            assert(cells.take(n as int) =~= cells);
        }
        r
    }

    fn rule(n: usize) -> (r: String)
        ensures
            r@ == Seq::new(n as nat, |i: int| '-'),
    {
        proof {
            reveal_strlit("-");
        }
        let mut r = String::new();
        let mut k: usize = 0;
        while k < n
            invariant
                k <= n,
                r@ == Seq::new(k as nat, |i: int| '-'),
            decreases n - k,
        {
            proof {
                reveal_strlit("-");
            }
            r.append("-");
            k = k + 1;
            assert(r@ =~= Seq::new(k as nat, |i: int| '-'));
        }
        r
    }

    /// Lays a table out for reading: each column as wide as its widest cell,
    /// cells padded with spaces and joined by `|`, and a rule of dashes under
    /// the header. The first row is the header.
    pub fn layout(rows: &Vec<Vec<String>>) -> (r: Vec<String>)
        ensures
            texts(r@) == layout_spec(table_texts(rows@)),
    {
        let ghost t = table_texts(rows@);
        if rows.len() == 0 {
            let r: Vec<String> = Vec::new();
            assert(texts(r@) =~= layout_spec(t));
            return r;
        }
        let widths = Self::column_widths(rows);
        proof {
            assert(nat_widths(widths@) =~= widths_spec(t));
            assert(texts(rows@[0]@) == t[0]);
        }
        let head = Self::line(&rows[0], &widths);
        let dashes = Self::rule(head.as_str().unicode_len());
        let ghost head_text = head@;
        let ghost rule_text = dashes@;
        let ghost widths_t = widths_spec(t);
        let mut r: Vec<String> = Vec::new();
        r.push(head);
        r.push(dashes);
        assert(texts(r@) =~= seq![head_text, rule_text] + Seq::new(0, |k: int| line_spec(t[k + 1], widths_t)));
        let mut i: usize = 1;
        while i < rows.len()
            invariant
                1 <= i <= rows@.len(),
                t == table_texts(rows@),
                nat_widths(widths@) == widths_t,
                texts(r@) == seq![head_text, rule_text] + Seq::new((i - 1) as nat, |k: int| line_spec(t[k + 1], widths_t)),
            decreases rows@.len() - i,
        {
            let l = Self::line(&rows[i], &widths);
            let ghost prev = r@;
            let ghost lt = l@;
            proof {
                assert(texts(rows@[i as int]@) == t[i as int]);
                assert(lt == line_spec(t[i as int], widths_t));
            }
            r.push(l);
            assert(texts(r@) =~= texts(prev).push(lt));
            i = i + 1;
            assert(texts(r@) =~= seq![head_text, rule_text] + Seq::new((i - 1) as nat, |k: int| line_spec(t[k + 1], widths_t)));
        }
        r
    }
}

} // verus!
