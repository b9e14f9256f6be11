//! Admin-console core for a mail relay: server-paginated resource tables.
//!
//! The library holds the logic of the console, stated and proved: compiling
//! sort/search/pagination requests into parameterized statements that never
//! interpolate untrusted text, keeping a client view consistent with an
//! asynchronous stream of fetches (generation tags, debounced search, forced
//! reloads), and the modal create/update/delete workflow with its validation
//! gating. Rendering, session plumbing and the physical store are external
//! collaborators; they hand plain values in and take plain values back.

pub mod aliases;
pub mod auth;
pub mod provider;
pub mod query;
pub mod table;
pub mod users;
pub mod utils;
