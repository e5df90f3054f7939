//! A relay that takes a media URL from an HTTP request, fetches it with an
//! external downloader and ships the result to an FTP host.
//!
//! The library holds the decisions of the relay: how a request target is read,
//! which arguments the external tools get, which host is uploaded to, and the
//! job loop as a state machine from events to actions. The program around it
//! performs the actions (sockets, processes, the scratch directory) and hands
//! back what happened.

pub mod query;
pub mod invocation;
pub mod startup;
pub mod job;
