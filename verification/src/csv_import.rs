//! Batch-import rows: the record-sifting rules applied to a CSV file's
//! records (column count, empty-row skipping, header detection) and the
//! row/result/summary types of a bulk import.
//!
//! Reading the file and decoding the CSV syntax itself happen outside the
//! library; the records arrive here as plain lists of fields.

use vstd::prelude::*;
use vstd::string::*;
use crate::text::{dec_str, u64_to_string};

verus! {

/// A data row from the input CSV.
#[derive(Debug, Clone)]
pub struct CsvRow {
    pub song_id_or_isrc: String,
    pub amount_usd: String,
}

/// Result for one processed row: `Success` or an error message.
#[derive(Debug, Clone)]
pub struct CsvResult {
    pub row: CsvRow,
    pub result: String,
}

/// Summary of one bulk-import run.
#[derive(Debug, Clone)]
pub struct CsvImportSummary {
    pub total: usize,
    pub succeeded: usize,
    pub failed: usize,
}

/// Errors from CSV handling. The reader reports its own troubles as
/// `IoError` or `ParseError`; the sifting rules only ever yield
/// `InvalidFormat`.
#[derive(Debug)]
pub enum CsvError {
    IoError(String),
    ParseError(String),
    InvalidFormat(String),
}

impl CsvError {
    /// The error rendered as the user sees it.
    pub open spec fn message_spec(&self) -> Seq<char> {
        match self {
            CsvError::IoError(msg) => "IO error: "@ + msg@,
            CsvError::ParseError(msg) => "Parse error: "@ + msg@,
            CsvError::InvalidFormat(msg) => "Invalid format: "@ + msg@,
        }
    }

    /// Render the error as the user sees it.
    pub fn message(&self) -> (r: String)
        ensures
            r@ == self.message_spec(),
    {
        match self {
            CsvError::IoError(msg) => {
                let mut m = String::from_str("IO error: ");
                m.append(msg.as_str());
                m
            },
            CsvError::ParseError(msg) => {
                let mut m = String::from_str("Parse error: ");
                m.append(msg.as_str());
                m
            },
            CsvError::InvalidFormat(msg) => {
                let mut m = String::from_str("Invalid format: ");
                m.append(msg.as_str());
                m
            },
        }
    }
}

/// What Unicode lowercasing yields for the given text.
pub uninterp spec fn lower_of(s: Seq<char>) -> Seq<char>;

/// Relies on str::to_lowercase: the result depends on the characters alone.
#[verifier::external_body]
fn lowercase(s: &str) -> (r: String)
    ensures
        r@ == lower_of(s@),
{
    s.to_lowercase()
}

/// The needle occurs as a contiguous run somewhere in the haystack.
pub open spec fn contains_seq(hay: Seq<char>, needle: Seq<char>) -> bool {
    exists|i: int|
        0 <= i <= hay.len() - needle.len() && #[trigger] hay.subrange(i, i + needle.len() as int)
            == needle
}

fn match_at(hay: &str, needle: &str, i: usize) -> (r: bool)
    requires
        i + needle@.len() <= hay@.len(),
    ensures
        r == (hay@.subrange(i as int, i as int + needle@.len() as int) == needle@),
{
    let hm = hay.unicode_len();
    let n = needle.unicode_len();
    let mut j: usize = 0;
    while j < n
        invariant
            j <= n,
            n == needle@.len(),
            hm == hay@.len(),
            i + n <= hm,
            forall|l: int| 0 <= l < j ==> hay@[i + l] == needle@[l],
        decreases n - j,
    {
        if hay.get_char(i + j) != needle.get_char(j) {
            proof {
                assert(hay@.subrange(i as int, i as int + n as int)[j as int] != needle@[j as int]);
            }
            return false;
        }
        j += 1;
    }
    proof {
        assert(hay@.subrange(i as int, i as int + n as int) =~= needle@);
    }
    true
}

fn str_contains(hay: &str, needle: &str) -> (r: bool)
    ensures
        r == contains_seq(hay@, needle@),
{
    let h = hay.unicode_len();
    let n = needle.unicode_len();
    if n > h {
        return false;
    }
    if n == 0 {
        proof {
            assert(hay@.subrange(0, 0 + needle@.len() as int) =~= needle@);
            assert(contains_seq(hay@, needle@));
        }
        return true;
    }
    let mut i: usize = 0;
    while i <= h - n
        invariant
            1 <= n <= h,
            h == hay@.len(),
            n == needle@.len(),
            0 <= i <= h - n + 1,
            forall|k: int|
                0 <= k < i ==> #[trigger] hay@.subrange(k, k + needle@.len() as int) != needle@,
        decreases h + 1 - n - i,
    {
        if match_at(hay, needle, i) {
            return true;
        }
        i += 1;
    }
    false
}

/// The lowered first column looks like a header name for the identifier
/// column.
pub open spec fn header_col1(lower: Seq<char>) -> bool {
    ||| contains_seq(lower, "song"@)
    ||| contains_seq(lower, "isrc"@)
    ||| contains_seq(lower, "id"@)
    ||| lower == "songid_or_isrc"@
    ||| lower == "song_id"@
}

/// The lowered second column looks like a header name for the amount column.
pub open spec fn header_col2(lower: Seq<char>) -> bool {
    ||| contains_seq(lower, "amount"@)
    ||| contains_seq(lower, "usd"@)
    ||| contains_seq(lower, "price"@)
    ||| lower == "amount_usd"@
}

/// Both columns, lowered, look like header names.
pub open spec fn is_header_spec(col1: Seq<char>, col2: Seq<char>) -> bool {
    header_col1(lower_of(col1)) && header_col2(lower_of(col2))
}

/// Check whether a row looks like a header row (contains common header
/// names in both columns).
pub fn is_header_row(col1: &str, col2: &str) -> (r: bool)
    ensures
        r == is_header_spec(col1@, col2@),
{
    let col1_lower = lowercase(col1);
    let col2_lower = lowercase(col2);

    let col1_is_header = str_contains(col1_lower.as_str(), "song") || str_contains(
        col1_lower.as_str(),
        "isrc",
    ) || str_contains(col1_lower.as_str(), "id") || col1_lower == String::from_str(
        "songid_or_isrc",
    ) || col1_lower == String::from_str("song_id");

    let col2_is_header = str_contains(col2_lower.as_str(), "amount") || str_contains(
        col2_lower.as_str(),
        "usd",
    ) || str_contains(col2_lower.as_str(), "price") || col2_lower == String::from_str(
        "amount_usd",
    );

    col1_is_header && col2_is_header
}

/// The sifting rules applied from one record onward. `line` is the one-based
/// number of the first record; `first` says whether a header row may still
/// be expected (no non-empty row seen yet). A record with fewer than two
/// fields fails the whole sift; a record whose two leading fields are empty
/// is skipped; the first non-empty record is dropped when it looks like a
/// header; every other record becomes a data row, in order.
pub open spec fn sift_from(records: Seq<Seq<Seq<char>>>, line: nat, first: bool) -> Result<
    Seq<(Seq<char>, Seq<char>)>,
    Seq<char>,
>
    decreases records.len(),
{
    if records.len() == 0 {
        Ok(Seq::empty())
    } else {
        let rec = records[0];
        let rest = records.drop_first();
        if rec.len() < 2 {
            Err(
                "Line "@ + dec_str(line) + ": Expected at least 2 columns, found "@ + dec_str(
                    rec.len(),
                ),
            )
        } else if rec[0].len() == 0 && rec[1].len() == 0 {
            sift_from(rest, line + 1, first)
        } else if first && is_header_spec(rec[0], rec[1]) {
            sift_from(rest, line + 1, false)
        } else {
            match sift_from(rest, line + 1, false) {
                Ok(tail) => Ok(seq![(rec[0], rec[1])] + tail),
                Err(e) => Err(e),
            }
        }
    }
}

/// The sifting of a whole file's records: the surviving data rows in order,
/// or the message of the first failure; a file without data rows fails.
pub open spec fn sifted_rows(records: Seq<Seq<Seq<char>>>) -> Result<
    Seq<(Seq<char>, Seq<char>)>,
    Seq<char>,
> {
    match sift_from(records, 1, true) {
        Ok(rows) => if rows.len() == 0 {
            Err("CSV file contains no data rows"@)
        } else {
            Ok(rows)
        },
        Err(e) => Err(e),
    }
}

/// The produced rows as spec pairs of their column texts.
pub open spec fn rows_view(rows: Seq<CsvRow>) -> Seq<(Seq<char>, Seq<char>)> {
    rows.map_values(|r: CsvRow| (r.song_id_or_isrc@, r.amount_usd@))
}

/// Apply the sifting rules to a file's records, already decoded into their
/// fields. Every surviving record becomes a data row of its two leading
/// fields, in file order; a record with fewer than two fields, or a file
/// without data rows, is rejected.
#[verifier::loop_isolation(false)]
pub fn sift_rows(records: Vec<Vec<String>>) -> (r: Result<Vec<CsvRow>, CsvError>)
    ensures
        match r {
            Ok(rows) => sifted_rows(records.deep_view()) == Ok::<
                Seq<(Seq<char>, Seq<char>)>,
                Seq<char>,
            >(rows_view(rows@)),
            Err(e) => (e matches CsvError::InvalidFormat(m) && sifted_rows(records.deep_view())
                == Err::<Seq<(Seq<char>, Seq<char>)>, Seq<char>>(m@)),
        },
{
    let ghost recs = records.deep_view();
    let n = records.len();
    let mut out: Vec<CsvRow> = Vec::new();
    let mut first = true;
    let mut i: usize = 0;
    proof {
        assert(recs.skip(0) =~= recs);
        assert(rows_view(out@) =~= Seq::<(Seq<char>, Seq<char>)>::empty());
    }
    while i < n
        invariant
            0 <= i <= n,
            n == records@.len(),
            match sift_from(recs.skip(i as int), (i + 1) as nat, first) {
                Ok(tail) => sift_from(recs, 1, true) == Ok::<
                    Seq<(Seq<char>, Seq<char>)>,
                    Seq<char>,
                >(rows_view(out@) + tail),
                Err(e) => sift_from(recs, 1, true) == Err::<
                    Seq<(Seq<char>, Seq<char>)>,
                    Seq<char>,
                >(e),
            },
        decreases n - i,
    {
        let ghost grec = recs[i as int];
        proof {
            assert(recs.skip(i as int)[0] == grec);
            assert(recs.skip(i as int).drop_first() =~= recs.skip(i as int + 1));
            assert(grec.len() == records@[i as int]@.len());
        }
        let rec = &records[i];
        if rec.len() < 2 {
            let mut m = String::from_str("Line ");
            let line = u64_to_string((i + 1) as u64);
            m.append(line.as_str());
            m.append(": Expected at least 2 columns, found ");
            let found = u64_to_string(rec.len() as u64);
            m.append(found.as_str());
            proof {
                assert(m@ =~= "Line "@ + dec_str((i + 1) as nat)
                    + ": Expected at least 2 columns, found "@ + dec_str(grec.len()));
            }
            return Err(CsvError::InvalidFormat(m));
        }
        proof {
            assert(grec[0] == records@[i as int]@[0]@);
            assert(grec[1] == records@[i as int]@[1]@);
        }
        let col1_empty = rec[0].as_str().is_empty();
        let col2_empty = rec[1].as_str().is_empty();
        if col1_empty && col2_empty {
            // An empty row is skipped and does not count as the first row.
        } else if first && is_header_row(rec[0].as_str(), rec[1].as_str()) {
            first = false;
        } else {
            let row = CsvRow {
                song_id_or_isrc: rec[0].clone(),
                amount_usd: rec[1].clone(),
            };
            let ghost prev = out@;
            out.push(row);
            first = false;
            proof {
                assert(rows_view(out@) =~= rows_view(prev) + seq![(grec[0], grec[1])]);
                assert(forall|tail: Seq<(Seq<char>, Seq<char>)>|
                    (rows_view(prev) + (seq![(grec[0], grec[1])] + tail)) =~= (rows_view(out@)
                        + tail));
            }
        }
        i += 1;
    }
    proof {
        assert(recs.skip(n as int) =~= Seq::<Seq<Seq<char>>>::empty());
        assert(rows_view(out@) + Seq::<(Seq<char>, Seq<char>)>::empty() =~= rows_view(out@));
    }
    if out.len() == 0 {
        proof {
            assert(rows_view(out@).len() == 0);
        }
        return Err(CsvError::InvalidFormat(String::from_str("CSV file contains no data rows")));
    }
    proof {
        assert(rows_view(out@).len() > 0);
    }
    Ok(out)
}


} // verus!
