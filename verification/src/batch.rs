//! The outbound message batching policy.
//!
//! Two mutually exclusive flushing policies, selected by protocol
//! version.  Older clients receive each queued buffer behind its own
//! 2-byte length prefix; newer clients receive every queued buffer
//! concatenated behind one length prefix.  Either way the queue is
//! drained completely and producer order is preserved.

use vstd::prelude::*;
use crossbeam_queue::SegQueue;
use crate::queue::{queue_buffers, queue_is_empty, queue_pop};
use crate::wire::{le16, u16_le, write_bytes, write_u16_le, DecodeError};
use crate::Protocol;

verus! {

/// All queued buffers joined in producer order.
pub open spec fn concat_buffers(bufs: Seq<Seq<u8>>) -> Seq<u8>
    decreases bufs.len(),
{
    if bufs.len() == 0 {
        Seq::empty()
    } else {
        bufs[0] + concat_buffers(bufs.skip(1))
    }
}

/// One wire frame: the payload behind a 2-byte little-endian length
/// prefix that counts the payload plus the prefix itself.
pub open spec fn frame_one(b: Seq<u8>) -> Seq<u8> {
    u16_le((b.len() + 2) as u16) + b
}

/// The individual-framing policy: every buffer in its own frame.
pub open spec fn framed_individually(bufs: Seq<Seq<u8>>) -> Seq<u8>
    decreases bufs.len(),
{
    if bufs.len() == 0 {
        Seq::empty()
    } else {
        frame_one(bufs[0]) + framed_individually(bufs.skip(1))
    }
}

/// The single-frame policy: one frame around the whole concatenation.
pub open spec fn single_frame(bufs: Seq<Seq<u8>>) -> Seq<u8> {
    frame_one(concat_buffers(bufs))
}

/// The fixed threshold between the two policies.  Using the wrong policy
/// produces a client-side desync, so this must match the client exactly.
pub open spec fn uses_single_frame(p: Protocol) -> bool {
    p.spec_number() > 501
}

/// Whether every length prefix the selected policy writes fits in 16
/// bits.
pub open spec fn flushable(bufs: Seq<Seq<u8>>, p: Protocol) -> bool {
    if uses_single_frame(p) {
        concat_buffers(bufs).len() + 2 <= 0xffff
    } else {
        forall|i: int| 0 <= i < bufs.len() ==> #[trigger] bufs[i].len() + 2 <= 0xffff
    }
}

/// The exact bytes one flush hands to the socket.
pub open spec fn flush_bytes(bufs: Seq<Seq<u8>>, p: Protocol) -> Seq<u8> {
    if bufs.len() == 0 {
        Seq::empty()
    } else if uses_single_frame(p) {
        single_frame(bufs)
    } else {
        framed_individually(bufs)
    }
}

pub proof fn lemma_concat_push(bufs: Seq<Seq<u8>>, b: Seq<u8>)
    ensures
        concat_buffers(bufs.push(b)) == concat_buffers(bufs) + b,
    decreases bufs.len(),
{
    let p = bufs.push(b);
    if bufs.len() == 0 {
        assert(p[0] == b);
        assert(p.skip(1) =~= Seq::<Seq<u8>>::empty());
        assert(concat_buffers(p) == b + concat_buffers(Seq::<Seq<u8>>::empty()));
        assert(b + Seq::<u8>::empty() =~= concat_buffers(bufs) + b);
    } else {
        assert(p[0] == bufs[0]);
        assert(p.skip(1) =~= bufs.skip(1).push(b));
        lemma_concat_push(bufs.skip(1), b);
        assert(concat_buffers(p) == bufs[0] + (concat_buffers(bufs.skip(1)) + b));
        assert(bufs[0] + (concat_buffers(bufs.skip(1)) + b) =~= (bufs[0] + concat_buffers(
            bufs.skip(1),
        )) + b);
    }
}

pub proof fn lemma_framed_push(bufs: Seq<Seq<u8>>, b: Seq<u8>)
    ensures
        framed_individually(bufs.push(b)) == framed_individually(bufs) + frame_one(b),
    decreases bufs.len(),
{
    let p = bufs.push(b);
    if bufs.len() == 0 {
        assert(p[0] == b);
        assert(p.skip(1) =~= Seq::<Seq<u8>>::empty());
        assert(framed_individually(p) == frame_one(b) + framed_individually(
            Seq::<Seq<u8>>::empty(),
        ));
        assert(frame_one(b) + Seq::<u8>::empty() =~= framed_individually(bufs) + frame_one(b));
    } else {
        assert(p[0] == bufs[0]);
        assert(p.skip(1) =~= bufs.skip(1).push(b));
        lemma_framed_push(bufs.skip(1), b);
        assert(framed_individually(p) == frame_one(bufs[0]) + (framed_individually(bufs.skip(1))
            + frame_one(b)));
        assert(frame_one(bufs[0]) + (framed_individually(bufs.skip(1)) + frame_one(b)) =~= (
        frame_one(bufs[0]) + framed_individually(bufs.skip(1))) + frame_one(b));
    }
}

/// Drains the queue completely, oldest first.
fn drain_queue(q: &mut SegQueue<Vec<u8>>) -> (bufs: Vec<Vec<u8>>)
    ensures
        queue_buffers(*final(q)).len() == 0,
        bufs@.map_values(|b: Vec<u8>| b@) == queue_buffers(*old(q)),
{
    let mut bufs: Vec<Vec<u8>> = Vec::new();
    while !queue_is_empty(q)
        invariant
            bufs@.map_values(|b: Vec<u8>| b@) + queue_buffers(*q) == queue_buffers(*old(q)),
        decreases queue_buffers(*q).len(),
    {
        match queue_pop(q) {
            Some(m) => {
                let ghost prev = bufs@;
                let ghost rest = queue_buffers(*q);
                bufs.push(m);
                assert(bufs@.map_values(|b: Vec<u8>| b@) =~= prev.map_values(|b: Vec<u8>| b@).push(
                    m@,
                ));
                assert(prev.map_values(|b: Vec<u8>| b@).push(m@) + rest =~= prev.map_values(
                    |b: Vec<u8>| b@,
                ) + (seq![m@] + rest));
                assert(seq![m@] + rest =~= queue_buffers(*old(q)).skip(prev.len() as int));
            },
            None => {
            },
        }
    }
    assert(bufs@.map_values(|b: Vec<u8>| b@) =~= queue_buffers(*old(q)));
    bufs
}

/// Drains the queue and frames its buffers for the socket under the
/// policy this protocol version requires.  An empty queue produces no
/// bytes.  Fails, with the queue still drained, exactly when some length
/// prefix the policy writes would not fit in 16 bits.
pub fn flush_message_queue(q: &mut SegQueue<Vec<u8>>, protocol: Protocol) -> (r: Result<
    Vec<u8>,
    DecodeError,
>)
    ensures
        queue_buffers(*final(q)).len() == 0,
        match r {
            Ok(out) => flushable(queue_buffers(*old(q)), protocol) && out@ == flush_bytes(
                queue_buffers(*old(q)),
                protocol,
            ),
            Err(e) => e == DecodeError::MessageTooLong && !flushable(
                queue_buffers(*old(q)),
                protocol,
            ),
        },
{
    let ghost gbufs = queue_buffers(*old(q));
    let bufs = drain_queue(q);
    if bufs.len() == 0 {
        assert(gbufs =~= Seq::<Seq<u8>>::empty());
        return Ok(Vec::new());
    }
    if protocol.number() > 501 {
        let mut big: Vec<u8> = Vec::new();
        let mut i: usize = 0;
        while i < bufs.len()
            invariant
                i <= bufs@.len(),
                bufs@.map_values(|b: Vec<u8>| b@) == gbufs,
                big@ == concat_buffers(gbufs.take(i as int)),
            decreases bufs@.len() - i,
        {
            let ghost prev = big@;
            write_bytes(&mut big, &bufs[i]);
            proof {
                assert(gbufs.take(i + 1) =~= gbufs.take(i as int).push(gbufs[i as int]));
                lemma_concat_push(gbufs.take(i as int), gbufs[i as int]);
            }
            i = i + 1;
        }
        assert(gbufs.take(gbufs.len() as int) =~= gbufs);
        if big.len() > 0xffff - 2 {
            return Err(DecodeError::MessageTooLong);
        }
        let mut out: Vec<u8> = Vec::new();
        write_u16_le(&mut out, (big.len() + 2) as u16);
        write_bytes(&mut out, &big);
        assert(out@ =~= single_frame(gbufs));
        Ok(out)
    } else {
        let mut i: usize = 0;
        while i < bufs.len()
            invariant
                i <= bufs@.len(),
                bufs@.map_values(|b: Vec<u8>| b@) == gbufs,
                gbufs == queue_buffers(*old(q)),
                queue_buffers(*q).len() == 0,
                !uses_single_frame(protocol),
                forall|j: int| 0 <= j < i ==> #[trigger] gbufs[j].len() + 2 <= 0xffff,
            decreases bufs@.len() - i,
        {
            assert(gbufs[i as int] == bufs@[i as int]@);
            if bufs[i].len() > 0xffff - 2 {
                assert(gbufs[i as int].len() + 2 > 0xffff);
                return Err(DecodeError::MessageTooLong);
            }
            i = i + 1;
        }
        let mut out: Vec<u8> = Vec::new();
        let mut j: usize = 0;
        while j < bufs.len()
            invariant
                j <= bufs@.len(),
                bufs@.map_values(|b: Vec<u8>| b@) == gbufs,
                forall|k: int| 0 <= k < gbufs.len() ==> #[trigger] gbufs[k].len() + 2 <= 0xffff,
                out@ == framed_individually(gbufs.take(j as int)),
            decreases bufs@.len() - j,
        {
            assert(gbufs[j as int] == bufs@[j as int]@);
            write_u16_le(&mut out, (bufs[j].len() + 2) as u16);
            write_bytes(&mut out, &bufs[j]);
            proof {
                assert(gbufs.take(j + 1) =~= gbufs.take(j as int).push(gbufs[j as int]));
                lemma_framed_push(gbufs.take(j as int), gbufs[j as int]);
                assert(out@ =~= framed_individually(gbufs.take(j + 1)));
            }
            j = j + 1;
        }
        assert(gbufs.take(gbufs.len() as int) =~= gbufs);
        Ok(out)
    }
}

// ---------------------------------------------------------------------
// Batching equivalence
// ---------------------------------------------------------------------

/// The payloads recovered from a run of frames: each frame's 2-byte
/// prefix is dropped and the payloads are joined in order.
pub open spec fn strip_frames(s: Seq<u8>) -> Seq<u8>
    decreases s.len(),
{
    if s.len() < 2 {
        Seq::empty()
    } else {
        let n = le16(s[0], s[1]) as int;
        if n < 2 || n > s.len() {
            Seq::empty()
        } else {
            s.subrange(2, n) + strip_frames(s.skip(n))
        }
    }
}

/// Stripping each sub-frame of the individual-framing output of its
/// 2-byte prefix and concatenating recovers exactly the queued buffers
/// in order.
pub proof fn lemma_individual_framing_strips(bufs: Seq<Seq<u8>>)
    requires
        forall|i: int| 0 <= i < bufs.len() ==> #[trigger] bufs[i].len() + 2 <= 0xffff,
    ensures
        strip_frames(framed_individually(bufs)) == concat_buffers(bufs),
    decreases bufs.len(),
{
    if bufs.len() == 0 {
        assert(strip_frames(framed_individually(bufs)) =~= concat_buffers(bufs));
    } else {
        let b = bufs[0];
        let n = b.len() + 2;
        let s = framed_individually(bufs);
        crate::wire::lemma_u16_le_round_trip(n as u16);
        assert(s[0] == u16_le(n as u16)[0]);
        assert(s[1] == u16_le(n as u16)[1]);
        assert(le16(s[0], s[1]) == n);
        assert(s.subrange(2, n as int) =~= b);
        assert(s.skip(n as int) =~= framed_individually(bufs.skip(1)));
        lemma_individual_framing_strips(bufs.skip(1));
        assert(strip_frames(s) == b + concat_buffers(bufs.skip(1)));
    }
}

/// Stripping the single-frame output of its one 2-byte prefix recovers
/// exactly the queued buffers concatenated in order.
pub proof fn lemma_single_frame_strips(bufs: Seq<Seq<u8>>)
    requires
        concat_buffers(bufs).len() + 2 <= 0xffff,
    ensures
        single_frame(bufs).skip(2) == concat_buffers(bufs),
{
    assert(single_frame(bufs).skip(2) =~= concat_buffers(bufs));
}

} // verus!
