//! A milestone-gated project-funding state machine.
//!
//! Initiators register funding campaigns split into percentage-weighted
//! milestones, contributors pledge funds during scheduled rounds, and the
//! release of escrowed funds is gated by contribution-weighted votes on each
//! milestone.  A separate no-confidence track lets contributors cancel a
//! project and have their uncommitted pledges returned.
//!
//! All state lives in an explicit [`pallet::Pallet`] store that is passed to
//! every operation.  The hosting environment supplies the clock (block
//! heights and timestamps), the identity attestation for a caller, and a
//! ledger that executes the transfers each operation reports back; the store
//! itself only does the bookkeeping, and every operation either completes
//! with the documented effect or fails leaving the store untouched.

pub mod arith;
pub mod funding;
pub mod governance;
pub mod laws;
pub mod lookups;
pub mod milestones;
pub mod pallet;
pub mod params;
pub mod registry;
pub mod rounds;
pub mod treasury;
pub mod types;
