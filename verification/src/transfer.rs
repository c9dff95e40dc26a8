//! The chunked transfer loop, shared by both directions of the protocol:
//! the payload is moved in blocks, progress is reported after each block,
//! and a shared cancellation flag is consulted before each block — a set
//! flag stops the transfer at the next chunk boundary, never mid-chunk.
//! The I/O itself belongs to the caller; this module decides, for every
//! state, what happens next, and proves what ends up in the sink.

use vstd::prelude::*;
use vstd::arithmetic::div_mod::{lemma_div_is_ordered, lemma_div_multiples_vanish,
    lemma_remainder_lower, lemma_remainder_upper};
use vstd::slice::{slice_subrange, slice_to_vec};
use crate::framing::BlockSize;

verus! {

/// How many chunks a payload of `total` bytes takes in blocks of `block`.
pub open spec fn chunk_count_spec(total: int, block: int) -> int
    recommends
        block > 0,
{
    if total == 0 {
        0
    } else {
        (total - 1) / block + 1
    }
}

/// What the transfer does next.
#[derive(Debug, Clone, Copy, PartialEq, Eq, Structural)]
pub enum TransferStep {
    /// Move the `len` bytes at `offset`; `len` never exceeds the block
    /// size and never overruns the payload.
    Send { offset: u64, len: u64 },
    /// Every payload byte has been moved.
    Finished,
    /// The cancellation flag was observed set; stop without error.
    Cancelled,
}

/// The per-stream transfer state: how much of the payload has moved.
#[derive(Debug, Clone, Copy, PartialEq, Eq, Structural)]
pub struct Transfer {
    pub total_length: u64,
    pub block_size: u64,
    pub sent: u64,
}

/// The step a transfer state takes, given the cancellation flag as read
/// at this chunk boundary.
pub open spec fn step_spec(t: Transfer, cancel_requested: bool) -> TransferStep {
    if t.sent == t.total_length {
        TransferStep::Finished
    } else if cancel_requested {
        TransferStep::Cancelled
    } else if t.total_length - t.sent >= t.block_size {
        TransferStep::Send { offset: t.sent, len: t.block_size }
    } else {
        TransferStep::Send { offset: t.sent, len: (t.total_length - t.sent) as u64 }
    }
}

impl Transfer {
    /// A transfer is well-formed when its block size is positive and it
    /// has not moved more than the payload.
    pub open spec fn wf(self) -> bool {
        &&& self.block_size > 0
        &&& self.sent <= self.total_length
    }

    /// A fresh transfer of `total_length` bytes in blocks of `block_size`.
    pub fn new(block_size: &BlockSize, total_length: u64) -> (r: Self)
        requires
            block_size.size > 0,
        ensures
            r.wf(),
            r.total_length == total_length,
            r.block_size == block_size.size,
            r.sent == 0,
    {
        Transfer { total_length, block_size: block_size.size as u64, sent: 0 }
    }

    /// Decides and takes the next step. The caller reads the shared flag
    /// at the chunk boundary and passes what it saw; on `Send` the state
    /// advances past that chunk, otherwise it is unchanged.
    pub fn step(&mut self, cancel_requested: bool) -> (r: TransferStep)
        requires
            old(self).wf(),
        ensures
            r == step_spec(*old(self), cancel_requested),
            final(self).wf(),
            final(self).total_length == old(self).total_length,
            final(self).block_size == old(self).block_size,
            match r {
                TransferStep::Send { offset, len } => {
                    &&& offset == old(self).sent
                    &&& len > 0
                    &&& len <= old(self).block_size
                    &&& offset + len <= old(self).total_length
                    &&& final(self).sent == old(self).sent + len
                },
                TransferStep::Finished => *final(self) == *old(self) && old(self).sent == old(
                    self,
                ).total_length,
                TransferStep::Cancelled => *final(self) == *old(self) && old(self).sent < old(
                    self,
                ).total_length,
            },
    {
        if self.sent == self.total_length {
            TransferStep::Finished
        } else if cancel_requested {
            TransferStep::Cancelled
        } else {
            let remaining = self.total_length - self.sent;
            let len = if remaining >= self.block_size {
                self.block_size
            } else {
                remaining
            };
            let offset = self.sent;
            self.sent = self.sent + len;
            TransferStep::Send { offset, len }
        }
    }

    /// Percent of the payload moved so far, rounded down; an empty
    /// payload counts as fully moved.
    pub fn progress_percent(&self) -> (p: u8)
        requires
            self.wf(),
        ensures
            self.total_length > 0 ==> p == 100 * self.sent as int / self.total_length as int,
            self.total_length == 0 ==> p == 100,
            p <= 100,
    {
        if self.total_length == 0 {
            return 100;
        }
        let p = (100 * self.sent as u128) / (self.total_length as u128);
        proof {
            lemma_div_is_ordered(
                100 * self.sent as int,
                100 * self.total_length as int,
                self.total_length as int,
            );
            lemma_div_multiples_vanish(100, self.total_length as int);
        }
        p as u8
    }
}

/// Reads one chunk of an in-memory resource.
pub fn read_chunk(data: &Vec<u8>, offset: usize, len: usize) -> (r: Vec<u8>)
    requires
        offset + len <= data@.len(),
    ensures
        r@ == data@.subrange(offset as int, offset + len),
{
    // Fixing the length in an exec binding bounds `offset + len` by the
    // machine word for the overflow check below.
    let _data_len: usize = data.len();
    slice_to_vec(slice_subrange(data.as_slice(), offset, offset + len))
}

/// Both sides of the chunk loop, composed over an in-memory resource:
/// the responder reads chunk after chunk of the selected payload and the
/// initiator appends each to its sink, checking the cancellation
/// schedule before every chunk. Returns the sink and whether the
/// transfer completed.
///
/// On completion the sink holds exactly the selected payload, byte for
/// byte. When cancellation strikes after `k` of `n` chunks, the sink
/// holds exactly the first `k` full blocks — strictly fewer bytes than
/// the payload — and nothing past the observed flag is moved.
pub fn run_transfer(
    data: &Vec<u8>,
    start: usize,
    total: usize,
    block_size: usize,
    cancel_after: Option<usize>,
) -> (r: (Vec<u8>, bool))
    requires
        block_size > 0,
        start + total <= data@.len(),
    ensures
        r.1 <==> (match cancel_after {
            Option::None => true,
            Option::Some(k) => k >= chunk_count_spec(total as int, block_size as int),
        }),
        r.1 ==> r.0@ == data@.subrange(start as int, start + total),
        !r.1 ==> {
            let k = cancel_after->0;
            &&& r.0@ == data@.subrange(start as int, start + k * block_size)
            &&& r.0@.len() == k * block_size
            &&& r.0@.len() < total
        },
{
    let mut sink: Vec<u8> = Vec::new();
    let mut sent: usize = 0;
    let mut chunks_done: usize = 0;
    let data_len = data.len();
    loop
        invariant
            block_size > 0,
            data@.len() == data_len,
            start + total <= data@.len(),
            chunks_done <= sent,
            sent <= total,
            sink@ == data@.subrange(start as int, start + sent),
            sent as int == if chunks_done * block_size <= total {
                chunks_done * block_size
            } else {
                total as int
            },
            match cancel_after {
                Option::Some(k) => chunks_done <= k,
                Option::None => true,
            },
        decreases total - sent,
    {
        if sent == total {
            proof {
                if total > 0 {
                    // Completion takes at least the ceiling number of
                    // chunks, so any cancellation schedule that let us
                    // finish was at least that long.
                    let cd = chunks_done as int;
                    let b = block_size as int;
                    let t = total as int;
                    assert(cd * b >= t);
                    if cd < chunk_count_spec(t, b) {
                        assert(cd <= (t - 1) / b);
                        lemma_remainder_lower(t - 1, b);
                        assert(((t - 1) / b) * b <= t - 1);
                        assert(cd * b <= ((t - 1) / b) * b) by (nonlinear_arith)
                            requires
                                cd <= (t - 1) / b,
                                b > 0,
                        ;
                    }
                }
            }
            return (sink, true);
        }
        let cancel_requested = match cancel_after {
            Option::Some(k) => chunks_done >= k,
            Option::None => false,
        };
        if cancel_requested {
            proof {
                let k = cancel_after->0 as int;
                let b = block_size as int;
                let t = total as int;
                assert(chunks_done == k);
                assert(sent < t);
                assert(sent as int == k * b);
                // Fewer bytes than the payload means fewer chunks than
                // the payload takes.
                assert(k * b <= t - 1);
                lemma_remainder_lower(t - 1, b);
                lemma_remainder_upper(t - 1, b);
                assert(k <= (t - 1) / b) by (nonlinear_arith)
                    requires
                        k * b <= t - 1,
                        (t - 1) - b < ((t - 1) / b) * b,
                        b > 0,
                        k >= 0,
                ;
                assert(k < chunk_count_spec(t, b));
            }
            return (sink, false);
        }
        let remaining = total - sent;
        let len = if remaining >= block_size {
            block_size
        } else {
            remaining
        };
        let mut chunk = read_chunk(data, start + sent, len);
        sink.append(&mut chunk);
        proof {
            assert(sink@ =~= data@.subrange(start as int, start + sent + len));
            let cd = chunks_done as int;
            let b = block_size as int;
            let t = total as int;
            assert(sent as int == cd * b);
            assert((cd + 1) * b == cd * b + b) by (nonlinear_arith);
            if remaining >= block_size {
                assert(sent + len == (cd + 1) * b);
            } else {
                assert(sent + len == t);
                assert((cd + 1) * b > t);
            }
        }
        sent = sent + len;
        chunks_done = chunks_done + 1;
    }
}

} // verus!
