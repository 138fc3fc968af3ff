use vstd::prelude::*;

use crate::device::DeviceState;
use crate::request::RequestModel;

verus! {

/// What the framer says about the bytes buffered so far, in a given session
/// state: a complete frame was recognized (together with how many bytes it
/// occupies), more bytes are needed, or the bytes cannot begin any frame
/// that is legal in that state.
pub ghost enum FrameOutcome {
    Pending,
    Matched { req: RequestModel, used: int },
    Invalid,
}

/// The literal `PROGRAM` marker that opens a session.
pub open spec fn program_marker() -> Seq<u8> {
    seq![0x50u8, 0x52u8, 0x4fu8, 0x47u8, 0x52u8, 0x41u8, 0x4du8]
}

/// The literal `END` marker that closes a session.
pub open spec fn end_marker() -> Seq<u8> {
    seq![0x45u8, 0x4eu8, 0x44u8]
}

/// `b` begins with `p`.
pub open spec fn starts_with(b: Seq<u8>, p: Seq<u8>) -> bool {
    b.len() >= p.len() && (forall|i: int| 0 <= i < p.len() ==> b[i] == p[i])
}

/// `b` is a strict prefix of `p`: every buffered byte agrees with `p`, but
/// the marker is not complete yet.
pub open spec fn strict_prefix_of(b: Seq<u8>, p: Seq<u8>) -> bool {
    b.len() < p.len() && (forall|i: int| 0 <= i < b.len() ==> b[i] == p[i])
}

/// The big-endian 32-bit integer held in `b` at offsets `i .. i + 4`.
pub open spec fn be32_at(b: Seq<u8>, i: int) -> u32
    recommends
        0 <= i,
        i + 4 <= b.len(),
{
    (b[i] * 0x1000000 + b[i + 1] * 0x10000 + b[i + 2] * 0x100 + b[i + 3]) as u32
}

/// The one frame recognizer: what the buffered bytes `b` mean in session
/// state `s`. Frames are disambiguated by their first byte. A recognized
/// frame occupies exactly `used` bytes at the head of the buffer; bytes
/// beyond it never influence the match. In `Open` only the `PROGRAM` marker
/// is awaited and anything else keeps the framer waiting; in `Program` a
/// first byte that can begin no frame is invalid. The length byte of a
/// `Write` frame is parsed but the payload is always 16 bytes, and the two
/// trailer bytes after the payload are consumed unchecked.
pub open spec fn frame_of(s: DeviceState, b: Seq<u8>) -> FrameOutcome {
    match s {
        DeviceState::Open => if starts_with(b, program_marker()) {
            (FrameOutcome::Matched { req: RequestModel::Program, used: 7 })
        } else {
            FrameOutcome::Pending
        },
        DeviceState::Program => if b.len() == 0 {
            FrameOutcome::Pending
        } else if b[0] == 0x02 {
            (FrameOutcome::Matched { req: RequestModel::DeviceInfo, used: 1 })
        } else if b[0] == 0x52 {
            if b.len() >= 6 {
                (FrameOutcome::Matched {
                    req: (RequestModel::Read { address: be32_at(b, 1), length: b[5] }),
                    used: 6,
                })
            } else {
                FrameOutcome::Pending
            }
        } else if b[0] == 0x57 {
            if b.len() >= 24 {
                (FrameOutcome::Matched {
                    req: (RequestModel::Write {
                        address: be32_at(b, 1),
                        payload: b.subrange(6, 22),
                    }),
                    used: 24,
                })
            } else {
                FrameOutcome::Pending
            }
        } else if b[0] == 0x45 {
            if starts_with(b, end_marker()) {
                (FrameOutcome::Matched { req: RequestModel::End, used: 3 })
            } else if strict_prefix_of(b, end_marker()) {
                FrameOutcome::Pending
            } else {
                FrameOutcome::Invalid
            }
        } else {
            FrameOutcome::Invalid
        },
        DeviceState::Error => FrameOutcome::Pending,
        DeviceState::Closed => FrameOutcome::Pending,
    }
}

/// A recognized frame stays recognized, unchanged, when more bytes arrive
/// behind it: frame recognition is prefix-exact.
pub proof fn lemma_frame_of_extend(s: DeviceState, b: Seq<u8>, c: Seq<u8>)
    requires
        frame_of(s, b) is Matched,
    ensures
        frame_of(s, b + c) == frame_of(s, b),
{
    let e = b + c;
    assert(e.len() == b.len() + c.len());
    assert(forall|i: int| 0 <= i < b.len() ==> e[i] == b[i]);
    match s {
        DeviceState::Open => {
            assert(starts_with(e, program_marker()));
        },
        DeviceState::Program => {
            if b[0] == 0x52 {
                assert(be32_at(e, 1) == be32_at(b, 1));
            } else if b[0] == 0x57 {
                assert(be32_at(e, 1) == be32_at(b, 1));
                assert(e.subrange(6, 22) =~= b.subrange(6, 22));
            } else if b[0] == 0x45 {
                assert(starts_with(e, end_marker()));
            }
        },
        DeviceState::Error => {},
        DeviceState::Closed => {},
    }
}

/// Any strict prefix of a recognized frame leaves the framer waiting: it
/// neither matches some other frame nor reports an error. Together with
/// `lemma_frame_of_extend` this says that a frame delivered in several
/// chunks is recognized exactly as if it had arrived whole.
pub proof fn lemma_frame_prefix_pending(s: DeviceState, b: Seq<u8>, i: int)
    requires
        0 <= i,
        frame_of(s, b) matches (FrameOutcome::Matched { req, used }) && i < used,
    ensures
        frame_of(s, b.take(i)) is Pending,
{
    let p = b.take(i);
    assert(forall|j: int| 0 <= j < p.len() ==> p[j] == b[j]);
    match s {
        DeviceState::Open => {
            assert(!starts_with(p, program_marker()));
        },
        DeviceState::Program => {
            if b[0] == 0x45 {
                if i > 0 {
                    assert(strict_prefix_of(p, end_marker()));
                }
            }
        },
        DeviceState::Error => {},
        DeviceState::Closed => {},
    }
}

/// Feeding a frame split at any point is the same as feeding it whole:
/// after the first chunk alone the framer still waits, and once the rest
/// has arrived the buffer matches exactly the request it matches in one
/// piece.
pub proof fn lemma_split_delivery(s: DeviceState, b: Seq<u8>, i: int)
    requires
        0 <= i,
        frame_of(s, b) matches (FrameOutcome::Matched { req, used }) && i < used,
    ensures
        frame_of(s, b.take(i)) is Pending,
        frame_of(s, b.take(i) + b.skip(i)) == frame_of(s, b),
{
    lemma_frame_prefix_pending(s, b, i);
    assert(b.take(i) + b.skip(i) =~= b);
}

} // verus!
