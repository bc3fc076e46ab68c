//! Private remittance commitments.
pub mod merkle;
