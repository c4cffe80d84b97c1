//! A verified core for keeping a local working copy of a version-controlled
//! repository synchronized with a single remote counterpart.
//!
//! The modules here hold the decision logic of that synchronization: the
//! dirty-state bookkeeping of a repository session (`session`), the bounded
//! credential-retry protocol (`creds`), the fetch/merge-analysis decision
//! tree (`merge`), and the derivation of paths, reference names and refspecs
//! from a repository configuration (`config`).  The object-store engine that
//! performs the actual disk and network work is an outside collaborator: a
//! host program drives it, asks these modules what to do next, and reports
//! each outcome back.

pub mod config;
pub mod creds;
pub mod errors;
pub mod merge;
pub mod session;
pub mod strutil;
