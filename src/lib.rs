//! A two-party work escrow: a client funds a record, the freelancer submits
//! proof of work, and the funds are released to the freelancer either by the
//! client's approval or by anyone once the deadline has passed.
//!
//! Every instruction is a function from its accounts (and the clock, and the
//! rent reserve that the host mandates) to a new state of those accounts, or
//! an error that leaves them untouched.

pub mod address;
pub mod accounts;
pub mod instructions;
pub mod laws;
