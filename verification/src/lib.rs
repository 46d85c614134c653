//! Backend logic for a desktop screenshot tool: display selection, result
//! and diagnostic string construction, PNG signature validation, and
//! base64 data-URL encoding. The OS-facing shell around it enumerates and
//! captures displays and forwards the strings built here.

pub mod capture;
pub mod decimal;
pub mod display;
pub mod info;
