//! The text frame that carries a snapshot to a client:
//! `{"type":"snapshot","cpus":[n0,n1,...]}`.
//!
//! The frame is built from the texts of the readings, one per core; how a
//! reading is written as a number is the caller's business.

use vstd::prelude::*;
use crate::event::Event;

verus! {

/// The bytes of `{"type":"snapshot","cpus":[`.
pub open spec fn frame_head() -> Seq<u8> {
    seq![
        0x7bu8, 0x22u8, 0x74u8, 0x79u8, 0x70u8, 0x65u8, 0x22u8, 0x3au8,
        0x22u8, 0x73u8, 0x6eu8, 0x61u8, 0x70u8, 0x73u8, 0x68u8, 0x6fu8, 0x74u8, 0x22u8,
        0x2cu8,
        0x22u8, 0x63u8, 0x70u8, 0x75u8, 0x73u8, 0x22u8, 0x3au8,
        0x5bu8,
    ]
}

/// The bytes of `]}`.
pub open spec fn frame_tail() -> Seq<u8> {
    seq![0x5du8, 0x7du8]
}

/// The byte that separates two readings: a comma.
pub const SEPARATOR: u8 = 0x2cu8;

/// The texts of `numbers`, in order, with a comma between neighbours.
pub open spec fn joined(numbers: Seq<Seq<u8>>) -> Seq<u8>
    decreases numbers.len(),
{
    if numbers.len() == 0 {
        Seq::empty()
    } else if numbers.len() == 1 {
        numbers[0]
    } else {
        joined(numbers.drop_last()) + seq![SEPARATOR] + numbers.last()
    }
}

/// The whole frame for the readings whose texts are `numbers`.
pub open spec fn snapshot_frame(numbers: Seq<Seq<u8>>) -> Seq<u8> {
    frame_head() + joined(numbers) + frame_tail()
}

/// The texts that `numbers` holds, as sequences of bytes.
pub open spec fn texts_of(numbers: Seq<Vec<u8>>) -> Seq<Seq<u8>> {
    numbers.map_values(|text: Vec<u8>| text@)
}

/// Appends `text` to `out`.
fn append(out: &mut Vec<u8>, text: &Vec<u8>)
    ensures
        final(out)@ == old(out)@ + text@,
{
    let ghost before = out@;
    let mut i: usize = 0;
    while i < text.len()
        invariant
            i <= text.len(),
            out@ == before + text@.subrange(0, i as int),
        decreases text.len() - i,
    {
        out.push(text[i]);
        proof {
            assert(text@.subrange(0, i as int).push(text@[i as int]) =~= text@.subrange(
                0,
                i + 1,
            ));
            assert(out@ =~= before + text@.subrange(0, i + 1));
        }
        i = i + 1;
    }
    proof {
        assert(text@.subrange(0, text@.len() as int) =~= text@);
    }
}

/// The opening of every frame.
fn head() -> (out: Vec<u8>)
    ensures
        out@ == frame_head(),
{
    let out: Vec<u8> = vec![
        0x7bu8, 0x22u8, 0x74u8, 0x79u8, 0x70u8, 0x65u8, 0x22u8, 0x3au8,
        0x22u8, 0x73u8, 0x6eu8, 0x61u8, 0x70u8, 0x73u8, 0x68u8, 0x6fu8, 0x74u8, 0x22u8,
        0x2cu8,
        0x22u8, 0x63u8, 0x70u8, 0x75u8, 0x73u8, 0x22u8, 0x3au8,
        0x5bu8,
    ];
    proof {
        assert(out@ =~= frame_head());
    }
    out
}

/// Frames one snapshot for the wire.
///
/// `numbers` holds the text of each reading, in core index order. The frame
/// is the object opening, the texts separated by commas, and the closing.
pub fn snapshot_message(numbers: &Vec<Vec<u8>>) -> (message: Vec<u8>)
    ensures
        message@ == snapshot_frame(texts_of(numbers@)),
{
    let ghost texts = texts_of(numbers@);
    let mut out = head();
    let mut i: usize = 0;
    while i < numbers.len()
        invariant
            i <= numbers.len(),
            texts == texts_of(numbers@),
            out@ == frame_head() + joined(texts.subrange(0, i as int)),
        decreases numbers.len() - i,
    {
        let ghost sofar = texts.subrange(0, i as int);
        let ghost next = texts.subrange(0, i + 1);
        proof {
            assert(next.drop_last() =~= sofar);
            assert(next.last() == numbers@[i as int]@);
        }
        if i > 0 {
            out.push(SEPARATOR);
            proof {
                assert(out@ =~= frame_head() + (joined(sofar) + seq![SEPARATOR]));
            }
        } else {
            proof {
                assert(joined(sofar) =~= Seq::<u8>::empty());
            }
        }
        append(&mut out, &numbers[i]);
        proof {
            assert(out@ =~= frame_head() + joined(next));
        }
        i = i + 1;
    }
    proof {
        assert(texts.subrange(0, numbers@.len() as int) =~= texts);
    }
    out.push(0x5du8);
    out.push(0x7du8);
    proof {
        assert(out@ =~= snapshot_frame(texts));
    }
    out
}

/// Frames `event` from the texts of its readings.
///
/// `numbers` must hold one text per reading of `event`, in core index
/// order; with any other number of texts there is no frame.
pub fn snapshot_message_of(event: &Event, numbers: &Vec<Vec<u8>>) -> (message: Option<Vec<u8>>)
    ensures
        message is Some <==> numbers@.len() == event@.len(),
        message matches Some(m) ==> m@ == snapshot_frame(texts_of(numbers@)),
{
    if numbers.len() == event.core_count() {
        Some(snapshot_message(numbers))
    } else {
        None
    }
}

/// A frame always opens and closes the same way, whatever it carries.
pub proof fn frame_is_bracketed(numbers: Seq<Seq<u8>>)
    ensures
        snapshot_frame(numbers).len() == frame_head().len() + joined(numbers).len()
            + frame_tail().len(),
        snapshot_frame(numbers).subrange(0, frame_head().len() as int) == frame_head(),
        snapshot_frame(numbers).subrange(
            snapshot_frame(numbers).len() - frame_tail().len(),
            snapshot_frame(numbers).len() as int,
        ) == frame_tail(),
{
    let frame = snapshot_frame(numbers);
    assert(frame.subrange(0, frame_head().len() as int) =~= frame_head());
    assert(frame.subrange(frame.len() - frame_tail().len(), frame.len() as int)
        =~= frame_tail());
}

} // verus!
