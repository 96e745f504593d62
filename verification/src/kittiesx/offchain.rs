//! What the asset module decides for the worker that runs beside each
//! block: where the worker keeps a note of a block, and whether an answer
//! to a request can be used.

use crate::ocwx::price::{utf8_text, HttpError, HttpOutcome};
use crate::scale::{append_bytes, copy_bytes, encode_u64};
use crate::system::BlockNumber;
use vstd::bytes::*;
use vstd::prelude::*;
use vstd::utf8::valid_utf8;

verus! {

/// What the key of a block's note starts with: `storage::`.
pub const STORAGE_KEY_PREFIX: [u8; 9] = [115u8, 116, 111, 114, 97, 103, 101, 58, 58];

/// The address that the worker asks to see whether the network is there.
pub const PROBE_URL: &'static str = "https://api.github.com/orgs/substrate-developer-hub";

/// How long the probe may take, in milliseconds.
pub const PROBE_TIMEOUT_MS: u64 = 10_000;

/// What the worker does with its notes in a block.
#[derive(Clone, Debug, PartialEq, Eq)]
pub enum NoteStep {
    /// Write random bytes and the time under the key.
    Write { key: Vec<u8> },
    /// Read what is under the key, report it, and clear it.
    ReadAndClear { key: Vec<u8> },
}

/// The key of the note of the block `n`.
pub open spec fn note_key(n: BlockNumber) -> Seq<u8> {
    STORAGE_KEY_PREFIX@ + spec_u64_to_le_bytes(n)
}

/// The key of the note of the block `n`: `storage::` and the number of the
/// block.
pub fn derive_block_number_to_key(n: BlockNumber) -> (key: Vec<u8>)
    ensures
        key@ == note_key(n),
{
    let encoded = encode_u64(n);
    let mut key = copy_bytes(STORAGE_KEY_PREFIX.as_slice());
    append_bytes(&mut key, encoded.as_slice());
    key
}

/// What the worker does with its notes in the block `n`: in a block with an
/// odd number it writes the note of the block, in one with an even number
/// it reads and clears the note of the block before. There is no block
/// before the first, so `n` is not 0.
pub fn offchain_storage(n: BlockNumber) -> (step: NoteStep)
    requires
        n > 0,
    ensures
        match step {
            NoteStep::Write { key } => n % 2 != 0 && key@ == note_key(n),
            NoteStep::ReadAndClear { key } => n % 2 == 0 && key@ == note_key((n - 1) as u64),
        },
{
    if n % 2 != 0 {
        NoteStep::Write { key: derive_block_number_to_key(n) }
    } else {
        NoteStep::ReadAndClear { key: derive_block_number_to_key(n - 1) }
    }
}

/// Whether the answer to the probe can be used: it has the status 200 and a
/// body that is text.
pub open spec fn probe_result(outcome: HttpOutcome) -> Result<(), HttpError> {
    match outcome {
        HttpOutcome::NotSent => Err(HttpError::IoError),
        HttpOutcome::TimedOut => Err(HttpError::DeadlineReached),
        HttpOutcome::Failed(e) => Err(e),
        HttpOutcome::Response { code, body } => {
            if code != 200 || !valid_utf8(body@) {
                Err(HttpError::Unknown)
            } else {
                Ok(())
            }
        },
    }
}

/// Tells whether the answer to the probe can be used.
pub fn fetch_http(outcome: &HttpOutcome) -> (r: Result<(), HttpError>)
    ensures
        r == probe_result(*outcome),
{
    match outcome {
        HttpOutcome::NotSent => Err(HttpError::IoError),
        HttpOutcome::TimedOut => Err(HttpError::DeadlineReached),
        HttpOutcome::Failed(e) => Err(*e),
        HttpOutcome::Response { code, body } => {
            if *code != 200 {
                return Err(HttpError::Unknown);
            }
            match utf8_text(body.as_slice()) {
                Some(_) => Ok(()),
                None => Err(HttpError::Unknown),
            }
        },
    }
}

} // verus!
