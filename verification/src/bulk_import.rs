//! The bulk-import coordinator: a strictly sequential run over parsed CSV
//! rows against one session, driven as a state machine.
//!
//! The holder alternates two calls. `next_step` advances over rows whose
//! amount text is rejected locally — each gets an error outcome and no
//! network call — until it either demands one create call for the next valid
//! row or declares the run finished. `record_call_result` folds that call's
//! result back in: a success or an ordinary error becomes the row's outcome
//! and the run continues; a session expiry aborts the whole run on the spot,
//! leaving only the outcomes of the rows already processed.

use vstd::prelude::*;
use vstd::string::*;
use vstd::utf8::encode_utf8;
use crate::amount::{amount_accepted, amount_error_text, micro_value, trim_ws, usd_to_amount};
use crate::csv_import::{CsvImportSummary, CsvResult, CsvRow};
use crate::earnings::EarningsError;

verus! {

/// The row's amount text converts to a micro-unit amount.
pub open spec fn row_amount_ok(row: CsvRow) -> bool {
    amount_accepted(trim_ws(encode_utf8(row.amount_usd@)))
}

/// The row's micro-unit amount, where it converts.
pub open spec fn row_amount_val(row: CsvRow) -> int {
    micro_value(trim_ws(encode_utf8(row.amount_usd@))) as int
}

/// The conversion error's message, where the row's amount text is rejected.
pub open spec fn row_amount_err(row: CsvRow) -> Seq<char> {
    amount_error_text(trim_ws(encode_utf8(row.amount_usd@)))
}

/// Index of the first row at or after `i` whose amount converts (the next
/// row needing a network call); the row count when none is left.
pub open spec fn next_call_index(rows: Seq<CsvRow>, i: nat) -> nat
    decreases rows.len() - i,
{
    if i >= rows.len() {
        rows.len()
    } else if row_amount_ok(rows[i as int]) {
        i
    } else {
        next_call_index(rows, i + 1)
    }
}

/// What the coordinator asks of its driver next.
pub enum ImportStep {
    /// Perform the create call for row `index` with this identifier and
    /// micro-unit amount, then hand the result to `record_call_result`.
    Call { index: usize, song_id_or_isrc: String, usd_amount: i64 },
    /// The run is over: every row was handled, or the run was aborted.
    Done,
}

/// One bulk-import run over a fixed row list.
pub struct BulkImport {
    rows: Vec<CsvRow>,
    next_row: usize,
    pending: bool,
    outcomes: Vec<CsvResult>,
    succeeded: usize,
    failed: usize,
    expired: Option<String>,
}

impl BulkImport {
    /// The rows of this run.
    pub closed spec fn rows_spec(&self) -> Seq<CsvRow> {
        self.rows@
    }

    /// How many rows have been fully handled (an outcome recorded).
    pub closed spec fn processed_spec(&self) -> nat {
        self.next_row as nat
    }

    /// The outcomes recorded so far, in row order.
    pub closed spec fn outcomes_spec(&self) -> Seq<CsvResult> {
        self.outcomes@
    }

    pub closed spec fn succeeded_spec(&self) -> nat {
        self.succeeded as nat
    }

    pub closed spec fn failed_spec(&self) -> nat {
        self.failed as nat
    }

    /// The session-expiry message that aborted the run, if any.
    pub closed spec fn aborted_spec(&self) -> Option<Seq<char>> {
        match self.expired {
            Some(ref m) => Some(m@),
            None => None,
        }
    }

    /// A create call has been handed out and awaits its result.
    pub closed spec fn pending_spec(&self) -> bool {
        self.pending
    }

    /// Well-formedness: outcomes track handled rows one for one and in
    /// order, the counters add up, and a pending call points at a valid row
    /// of a live run.
    pub closed spec fn wf(&self) -> bool {
        &&& self.next_row <= self.rows@.len()
        &&& self.outcomes@.len() == self.next_row as nat
        &&& self.succeeded as nat + self.failed as nat == self.next_row as nat
        &&& (forall|j: int|
            0 <= j < self.next_row ==> (#[trigger] self.outcomes@[j]).row == self.rows@[j])
        &&& (self.pending ==> self.next_row < self.rows@.len() && self.expired is None
            && row_amount_ok(self.rows@[self.next_row as int]))
    }

    /// The run records outcomes strictly in file order, one per handled row:
    /// a well-formed run has exactly as many outcomes as handled rows, the
    /// outcome at each index is for the row at that index, and the success
    /// and failure counts add up to the rows handled.
    pub proof fn lemma_outcomes_in_row_order(&self)
        requires
            self.wf(),
        ensures
            self.outcomes_spec().len() == self.processed_spec(),
            self.processed_spec() <= self.rows_spec().len(),
            forall|j: int|
                0 <= j < self.processed_spec() ==> (#[trigger] self.outcomes_spec()[j]).row
                    == self.rows_spec()[j],
            self.succeeded_spec() + self.failed_spec() == self.processed_spec(),
    {
    }

    /// Start a run over the given rows.
    pub fn new(rows: Vec<CsvRow>) -> (r: Self)
        ensures
            r.wf(),
            r.rows_spec() == rows@,
            r.processed_spec() == 0,
            r.outcomes_spec() == Seq::<CsvResult>::empty(),
            r.succeeded_spec() == 0,
            r.failed_spec() == 0,
            r.aborted_spec() is None,
            !r.pending_spec(),
    {
        let r = BulkImport {
            rows,
            next_row: 0,
            pending: false,
            outcomes: Vec::new(),
            succeeded: 0,
            failed: 0,
            expired: None,
        };
        proof {
            assert(r.outcomes@ =~= Seq::<CsvResult>::empty());
        }
        r
    }

    /// Advance the run to its next create call, or to its end. Rows whose
    /// amount text is rejected are recorded as failed outcomes here, without
    /// any network call, and skipped; an aborted run yields `Done` at once
    /// and changes nothing.
    #[verifier::loop_isolation(false)]
    pub fn next_step(&mut self) -> (r: ImportStep)
        requires
            old(self).wf(),
            !old(self).pending_spec(),
        ensures
            final(self).wf(),
            final(self).rows_spec() == old(self).rows_spec(),
            final(self).aborted_spec() == old(self).aborted_spec(),
            final(self).succeeded_spec() == old(self).succeeded_spec(),
            old(self).aborted_spec() is Some ==> *final(self) == *old(self) && r is Done,
            old(self).aborted_spec() is None ==> ({
                let k = next_call_index(old(self).rows_spec(), old(self).processed_spec());
                &&& final(self).processed_spec() == k
                &&& final(self).failed_spec() == old(self).failed_spec() + (k - old(
                    self,
                ).processed_spec())
                &&& final(self).outcomes_spec().subrange(
                    0,
                    old(self).processed_spec() as int,
                ) == old(self).outcomes_spec()
                &&& (forall|j: int|
                    old(self).processed_spec() <= j < k ==> {
                        let o = #[trigger] final(self).outcomes_spec()[j];
                        o.row == old(self).rows_spec()[j] && o.result@ == "Error: Invalid amount - "@
                            + row_amount_err(old(self).rows_spec()[j])
                    })
                &&& (if k < old(self).rows_spec().len() {
                    &&& final(self).pending_spec()
                    &&& (r matches ImportStep::Call { index, song_id_or_isrc, usd_amount }
                        && index == k && song_id_or_isrc@ == old(
                        self,
                    ).rows_spec()[k as int].song_id_or_isrc@ && usd_amount == row_amount_val(
                        old(self).rows_spec()[k as int],
                    ))
                } else {
                    !final(self).pending_spec() && r is Done
                })
            }),
    {
        if self.expired.is_some() {
            return ImportStep::Done;
        }
        let total = self.rows.len();
        let ghost rows0 = self.rows@;
        let ghost n0 = self.next_row as nat;
        while self.next_row < total
            invariant
                self.rows@ == rows0,
                old(self).processed_spec() <= self.next_row <= total,
                total == rows0.len(),
                self.pending == false,
                self.expired == old(self).expired,
                self.succeeded == old(self).succeeded,
                self.outcomes@.len() == self.next_row as nat,
                self.succeeded as nat + self.failed as nat == self.next_row as nat,
                forall|j: int|
                    0 <= j < self.next_row ==> (#[trigger] self.outcomes@[j]).row == rows0[j],
                next_call_index(rows0, n0) == next_call_index(rows0, self.next_row as nat),
                self.failed as nat == old(self).failed_spec() + (self.next_row as nat - n0),
                self.outcomes@.subrange(0, n0 as int) == old(self).outcomes_spec(),
                forall|j: int|
                    n0 <= j < self.next_row ==> {
                        let o = #[trigger] self.outcomes@[j];
                        o.row == rows0[j] && o.result@ == "Error: Invalid amount - "@
                            + row_amount_err(rows0[j])
                    },
            decreases total - self.next_row,
        {
            let i = self.next_row;
            match usd_to_amount(self.rows[i].amount_usd.as_str()) {
                Ok(amount) => {
                    self.pending = true;
                    return ImportStep::Call {
                        index: i,
                        song_id_or_isrc: self.rows[i].song_id_or_isrc.clone(),
                        usd_amount: amount,
                    };
                },
                Err(e) => {
                    let mut msg = String::from_str("Error: Invalid amount - ");
                    msg.append(e.as_str());
                    let row = CsvRow {
                        song_id_or_isrc: self.rows[i].song_id_or_isrc.clone(),
                        amount_usd: self.rows[i].amount_usd.clone(),
                    };
                    let ghost prev = self.outcomes@;
                    self.outcomes.push(CsvResult { row, result: msg });
                    self.failed += 1;
                    self.next_row += 1;
                    proof {
                        assert(self.outcomes@.subrange(0, n0 as int) =~= prev.subrange(
                            0,
                            n0 as int,
                        ));
                    }
                },
            }
        }
        ImportStep::Done
    }

    /// Fold the result of the pending create call back into the run. A
    /// success or an ordinary error becomes the row's outcome — counted and
    /// recorded in order — and the run moves to the next row. A session
    /// expiry aborts the run: no outcome is recorded for the row, nothing
    /// else changes, and the expiry message is kept for the shell.
    pub fn record_call_result(&mut self, result: Result<(), EarningsError>)
        requires
            old(self).wf(),
            old(self).pending_spec(),
        ensures
            final(self).wf(),
            !final(self).pending_spec(),
            final(self).rows_spec() == old(self).rows_spec(),
            match result {
                Ok(()) => {
                    &&& final(self).processed_spec() == old(self).processed_spec() + 1
                    &&& final(self).succeeded_spec() == old(self).succeeded_spec() + 1
                    &&& final(self).failed_spec() == old(self).failed_spec()
                    &&& final(self).aborted_spec() is None
                    &&& final(self).outcomes_spec().drop_last() == old(self).outcomes_spec()
                    &&& final(self).outcomes_spec().last().row == old(self).rows_spec()[old(
                        self,
                    ).processed_spec() as int]
                    &&& final(self).outcomes_spec().last().result@ == "Success"@
                },
                Err(EarningsError::SessionExpired(m)) => {
                    &&& final(self).processed_spec() == old(self).processed_spec()
                    &&& final(self).succeeded_spec() == old(self).succeeded_spec()
                    &&& final(self).failed_spec() == old(self).failed_spec()
                    &&& final(self).outcomes_spec() == old(self).outcomes_spec()
                    &&& final(self).aborted_spec() == Some(m@)
                },
                Err(e) => {
                    &&& final(self).processed_spec() == old(self).processed_spec() + 1
                    &&& final(self).succeeded_spec() == old(self).succeeded_spec()
                    &&& final(self).failed_spec() == old(self).failed_spec() + 1
                    &&& final(self).aborted_spec() is None
                    &&& final(self).outcomes_spec().drop_last() == old(self).outcomes_spec()
                    &&& final(self).outcomes_spec().last().row == old(self).rows_spec()[old(
                        self,
                    ).processed_spec() as int]
                    &&& final(self).outcomes_spec().last().result@ == "Error: "@ + e.message_spec()
                },
            },
    {
        let total = self.rows.len();
        self.pending = false;
        let i = self.next_row;
        match result {
            Ok(()) => {
                let row = CsvRow {
                    song_id_or_isrc: self.rows[i].song_id_or_isrc.clone(),
                    amount_usd: self.rows[i].amount_usd.clone(),
                };
                let ghost prev = self.outcomes@;
                self.outcomes.push(CsvResult { row, result: String::from_str("Success") });
                self.succeeded += 1;
                self.next_row += 1;
                proof {
                    assert(self.outcomes@.drop_last() =~= prev);
                }
            },
            Err(EarningsError::SessionExpired(m)) => {
                self.expired = Some(m);
            },
            Err(e) => {
                let mut msg = String::from_str("Error: ");
                let detail = e.message();
                msg.append(detail.as_str());
                let row = CsvRow {
                    song_id_or_isrc: self.rows[i].song_id_or_isrc.clone(),
                    amount_usd: self.rows[i].amount_usd.clone(),
                };
                let ghost prev = self.outcomes@;
                self.outcomes.push(CsvResult { row, result: msg });
                self.failed += 1;
                self.next_row += 1;
                proof {
                    assert(self.outcomes@.drop_last() =~= prev);
                }
            },
        }
    }

    /// Progress as (rows handled, total rows), reported in increasing order
    /// after every row.
    pub fn progress(&self) -> (r: (usize, usize))
        ensures
            r.0 as nat == self.processed_spec(),
            r.1 as nat == self.rows_spec().len(),
    {
        (self.next_row, self.rows.len())
    }

    /// The expiry message that aborted the run, if any.
    pub fn aborted_message(&self) -> (r: Option<String>)
        ensures
            match r {
                Some(m) => self.aborted_spec() == Some(m@),
                None => self.aborted_spec() is None,
            },
    {
        match &self.expired {
            Some(m) => Some(m.clone()),
            None => None,
        }
    }

    /// The outcomes recorded so far, in row order.
    pub fn outcomes(&self) -> (r: &Vec<CsvResult>)
        ensures
            r@ == self.outcomes_spec(),
    {
        &self.outcomes
    }

    /// Summary of the run: total rows, and how many succeeded and failed.
    pub fn summary(&self) -> (r: CsvImportSummary)
        ensures
            r.total as nat == self.rows_spec().len(),
            r.succeeded as nat == self.succeeded_spec(),
            r.failed as nat == self.failed_spec(),
    {
        CsvImportSummary { total: self.rows.len(), succeeded: self.succeeded, failed: self.failed }
    }
}

} // verus!
