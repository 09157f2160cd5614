use newm_admin::bulk_import::{BulkImport, ImportStep};
use newm_admin::csv_import::CsvRow;
use newm_admin::earnings::EarningsError;

fn row(id: &str, usd: &str) -> CsvRow {
    CsvRow {
        song_id_or_isrc: id.to_string(),
        amount_usd: usd.to_string(),
    }
}

#[test]
fn test_import_aborts_on_session_expiry() {
    // Rows [A: valid, B: causes a session expiry, C: valid]: the run stops
    // at B, records only A's outcome, and keeps the expiry message.
    let rows = vec![row("A", "1.00"), row("B", "2.00"), row("C", "3.00")];
    let mut run = BulkImport::new(rows);

    match run.next_step() {
        ImportStep::Call {
            index, usd_amount, ..
        } => {
            assert_eq!(index, 0);
            assert_eq!(usd_amount, 1_000_000);
            run.record_call_result(Ok(()));
        }
        ImportStep::Done => panic!("a call was expected for row A"),
    }
    assert_eq!(run.progress(), (1, 3));

    match run.next_step() {
        ImportStep::Call { index, .. } => {
            assert_eq!(index, 1);
            run.record_call_result(Err(EarningsError::SessionExpired(
                "Unauthorized - please login again".to_string(),
            )));
        }
        ImportStep::Done => panic!("a call was expected for row B"),
    }

    // The run is aborted: no further calls, row C never processed.
    assert!(matches!(run.next_step(), ImportStep::Done));
    assert_eq!(
        run.aborted_message().as_deref(),
        Some("Unauthorized - please login again")
    );

    let outcomes = run.outcomes();
    assert_eq!(outcomes.len(), 1);
    assert_eq!(outcomes[0].row.song_id_or_isrc, "A");
    assert_eq!(outcomes[0].result, "Success");
}

#[test]
fn test_import_skips_malformed_amount_without_call() {
    // Rows [A: valid, B: malformed amount, C: valid]: B gets an error
    // outcome with no network call, order is kept, counts add up.
    let rows = vec![
        row("A", "1.00"),
        row("B", "10.1234567"),
        row("C", "3.00"),
    ];
    let mut run = BulkImport::new(rows);

    match run.next_step() {
        ImportStep::Call { index, .. } => {
            assert_eq!(index, 0);
            run.record_call_result(Ok(()));
        }
        ImportStep::Done => panic!("a call was expected for row A"),
    }

    // B is handled locally; the next call is for C.
    match run.next_step() {
        ImportStep::Call {
            index,
            song_id_or_isrc,
            usd_amount,
        } => {
            assert_eq!(index, 2);
            assert_eq!(song_id_or_isrc, "C");
            assert_eq!(usd_amount, 3_000_000);
            run.record_call_result(Ok(()));
        }
        ImportStep::Done => panic!("a call was expected for row C"),
    }

    assert!(matches!(run.next_step(), ImportStep::Done));
    assert!(run.aborted_message().is_none());
    assert_eq!(run.progress(), (3, 3));

    let outcomes = run.outcomes();
    assert_eq!(outcomes.len(), 3);
    assert_eq!(outcomes[0].row.song_id_or_isrc, "A");
    assert_eq!(outcomes[0].result, "Success");
    assert_eq!(outcomes[1].row.song_id_or_isrc, "B");
    assert_eq!(
        outcomes[1].result,
        "Error: Invalid amount - Maximum 6 decimal places allowed (got 7)"
    );
    assert_eq!(outcomes[2].row.song_id_or_isrc, "C");
    assert_eq!(outcomes[2].result, "Success");

    let summary = run.summary();
    assert_eq!(summary.total, 3);
    assert_eq!(summary.succeeded, 2);
    assert_eq!(summary.failed, 1);
}

#[test]
fn test_import_ordinary_error_continues() {
    let rows = vec![row("A", "1.00"), row("B", "2.00")];
    let mut run = BulkImport::new(rows);

    match run.next_step() {
        ImportStep::Call { .. } => run.record_call_result(Err(EarningsError::Api {
            status: 500,
            message: "boom".to_string(),
        })),
        ImportStep::Done => panic!("a call was expected for row A"),
    }
    // The run continues to row B.
    match run.next_step() {
        ImportStep::Call { index, .. } => {
            assert_eq!(index, 1);
            run.record_call_result(Ok(()));
        }
        ImportStep::Done => panic!("a call was expected for row B"),
    }
    assert!(matches!(run.next_step(), ImportStep::Done));

    let outcomes = run.outcomes();
    assert_eq!(outcomes[0].result, "Error: API error 500: boom");
    assert_eq!(outcomes[1].result, "Success");

    let summary = run.summary();
    assert_eq!(summary.succeeded, 1);
    assert_eq!(summary.failed, 1);
}

#[test]
fn test_import_all_rows_malformed() {
    let rows = vec![row("A", "abc"), row("B", "-1")];
    let mut run = BulkImport::new(rows);
    assert!(matches!(run.next_step(), ImportStep::Done));
    assert_eq!(run.progress(), (2, 2));
    let outcomes = run.outcomes();
    assert_eq!(outcomes.len(), 2);
    assert_eq!(
        outcomes[0].result,
        "Error: Invalid amount - Invalid number format"
    );
    assert_eq!(
        outcomes[1].result,
        "Error: Invalid amount - Amount cannot be negative"
    );
    let summary = run.summary();
    assert_eq!(summary.succeeded, 0);
    assert_eq!(summary.failed, 2);
}

#[test]
fn test_import_empty_run() {
    let mut run = BulkImport::new(vec![]);
    assert!(matches!(run.next_step(), ImportStep::Done));
    assert_eq!(run.progress(), (0, 0));
    let summary = run.summary();
    assert_eq!(summary.total, 0);
    assert_eq!(summary.succeeded, 0);
    assert_eq!(summary.failed, 0);
}

#[test]
fn test_import_progress_increases_by_row() {
    let rows = vec![row("A", "1.00"), row("B", "bad"), row("C", "2.00")];
    let mut run = BulkImport::new(rows);
    assert_eq!(run.progress(), (0, 3));
    match run.next_step() {
        ImportStep::Call { .. } => {}
        ImportStep::Done => panic!("a call was expected for row A"),
    }
    run.record_call_result(Ok(()));
    assert_eq!(run.progress(), (1, 3));
    match run.next_step() {
        ImportStep::Call { index, .. } => assert_eq!(index, 2),
        ImportStep::Done => panic!("a call was expected for row C"),
    }
    // B was recorded while advancing to C.
    assert_eq!(run.progress(), (2, 3));
    run.record_call_result(Ok(()));
    assert_eq!(run.progress(), (3, 3));
}
