use vstd::prelude::*;

use anchor_lang::solana_program::clock::Clock;
use anchor_lang::solana_program::sysvar::Sysvar;

verus! {

/// The SHA-256 digest of `bytes`.
pub uninterp spec fn sha256_of(bytes: Seq<u8>) -> Seq<u8>;

/// Relies on `anchor_lang::solana_program::hash::hash`, which hashes its input
/// with SHA-256, and on `Hash::to_bytes`, which hands out the 32 bytes.
#[verifier::external_body]
pub(crate) fn sha256(bytes: &[u8]) -> (r: [u8; 32])
    ensures
        r@ == sha256_of(bytes@),
{
    anchor_lang::solana_program::hash::hash(bytes).to_bytes()
}

/// Relies on `Clock::get` of the clock sysvar: the host's Unix time in
/// seconds, or nothing where the host offers no clock.
#[verifier::external_body]
pub(crate) fn unix_timestamp_now() -> (r: Option<i64>) {
    Clock::get().ok().map(|c| c.unix_timestamp)
}

} // verus!
