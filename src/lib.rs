//! Reconciliation core of a dynamic-DNS update endpoint: it splits the
//! configured apex domain, authorizes a request, derives the records to
//! write, and drives the delete-then-create sequence against a DNS provider.

pub mod domain;
pub mod records;
pub mod subdomain;
pub mod reconcile;
pub mod handler;
