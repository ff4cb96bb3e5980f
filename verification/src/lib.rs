//! Verified core of a voucher-minting command-line tool.
//!
//! The library holds everything the tool decides or computes: parsing of the
//! operator's inputs (an expiration date and a requested code count), the
//! epoch-second arithmetic for the expiration instant, generation of the
//! six-character promotion codes, the exact form-encoded request bodies sent
//! to the payments service, and the state machine that drives the minting
//! loop from one HTTP status to the next.  The surrounding binary only moves
//! bytes between the console, the network, the output file and this library.

pub mod codes;
pub mod dates;
pub mod encode;
pub mod numbers;
pub mod session;

use vstd::prelude::*;

verus! {

} // verus!
