//! Confidential-computing attestation core: TDX report and quote codecs, the
//! TCG event-log parser and validated measurement registers.
pub mod api;
pub mod bytes;
pub mod cc_type;
pub mod ccnp;
pub mod cvm;
pub mod dump;
pub mod error;
pub mod eventlog;
pub mod quote;
pub mod report;
pub mod report_data;
pub mod rtmr;
pub mod tcg;
pub mod tdx;
