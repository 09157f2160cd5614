//! Verified core of an administrative console for a royalty/earnings
//! platform: session and token lifecycle, earnings synchronization, and the
//! bulk CSV import workflow.
//!
//! The library holds the decision logic: which endpoint to call, when a token
//! must be refreshed, how responses are classified, and how a bulk import run
//! progresses and aborts. Network and file transport live outside the
//! library and hand plain values (statuses, body text, parsed records) in and
//! out.

pub mod amount;
pub mod auth;
pub mod bulk_import;
pub mod csv_import;
pub mod earnings;
pub mod http;
pub mod session;
pub mod text;
pub mod token;
