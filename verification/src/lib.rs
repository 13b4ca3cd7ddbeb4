//! Verified core of the Askreditor desktop client: `.env` parsing, the
//! in-memory Supabase session, the saved-session record and the decisions
//! taken around each Supabase request.

pub mod text;
pub mod env;
pub mod models;
pub mod supabase;
pub mod exchange;
