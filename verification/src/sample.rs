//! Reframing one frame's NAL units into a length-prefixed sample.
//!
//! Inside the container, units are not delimited by start codes but by a
//! 4-byte big-endian length before each unit. Parameter-set units are left
//! out of every sample: they are carried once, in the track's decoder
//! configuration. A sample is a sync sample exactly when its bitstream
//! holds an instantaneous-decoder-refresh unit.

use vstd::prelude::*;

use crate::nal::{idr_code, nal_type_code, payloads_of, NalUnit};

verus! {

/// The four big-endian bytes of a 32-bit length.
pub open spec fn be32(n: u32) -> Seq<u8> {
    seq![(n >> 24u32) as u8, (n >> 16u32) as u8, (n >> 8u32) as u8, n as u8]
}

/// Whether a unit is a sequence or picture parameter set.
pub open spec fn is_param_set(payload: Seq<u8>) -> bool {
    nal_type_code(payload) == 7u8 || nal_type_code(payload) == 8u8
}

/// What one unit contributes to a sample: nothing for a parameter set,
/// its length as four big-endian bytes and then its bytes otherwise.
pub open spec fn framed_unit_bytes(payload: Seq<u8>) -> Seq<u8> {
    if is_param_set(payload) {
        Seq::empty()
    } else {
        be32(payload.len() as u32) + payload
    }
}

/// The length-prefixed framing of a list of unit payloads: each unit's
/// contribution, concatenated in unit order.
pub open spec fn framed_sample_bytes(payloads: Seq<Seq<u8>>) -> Seq<u8>
    decreases payloads.len(),
{
    if payloads.len() == 0 {
        Seq::empty()
    } else {
        framed_unit_bytes(payloads[0]) + framed_sample_bytes(payloads.drop_first())
    }
}

/// Whether some unit in the list is an instantaneous decoder refresh.
pub open spec fn contains_idr(payloads: Seq<Seq<u8>>) -> bool {
    exists|i: int| 0 <= i < payloads.len() && nal_type_code(#[trigger] payloads[i]) == idr_code()
}

/// One container sample: its timing, its seekability, and its bytes.
pub struct Sample {
    /// The tick at which the sample starts.
    pub start_time: u64,
    /// The sample's duration in ticks: the framerate's ticks per frame.
    pub duration: u32,
    /// Whether the sample is a valid seek point.
    pub is_sync: bool,
    /// The sample's length-prefixed unit bytes.
    pub payload: Vec<u8>,
}

/// Build the sample for one encoded frame from its NAL units.
///
/// Every unit that is not a parameter set is framed as a 4-byte big-endian
/// length followed by its bytes; parameter-set units are excluded. The
/// sample is a sync sample exactly when some unit is an instantaneous
/// decoder refresh.
pub fn build_sample(units: &Vec<NalUnit>, start_time: u64, duration: u32) -> (s: Sample)
    requires
        forall|i: int| 0 <= i < units@.len() ==> (#[trigger] units@[i]).payload@.len() <= u32::MAX,
    ensures
        s.start_time == start_time,
        s.duration == duration,
        s.is_sync == contains_idr(payloads_of(units@)),
        s.payload@ == framed_sample_bytes(payloads_of(units@)),
{
    let ghost pl = payloads_of(units@);
    let n = units.len();
    let mut buf: Vec<u8> = Vec::new();
    let mut is_sync = false;
    let mut i: usize = 0;
    proof {
        assert(pl.skip(0) =~= pl);
    }
    while i < n
        invariant
            i <= n,
            n == units@.len(),
            pl == payloads_of(units@),
            forall|k: int| 0 <= k < n ==> (#[trigger] units@[k]).payload@.len() <= u32::MAX,
            framed_sample_bytes(pl) == buf@ + framed_sample_bytes(pl.skip(i as int)),
            is_sync == exists|k: int|
                0 <= k < i && nal_type_code(#[trigger] pl[k]) == idr_code(),
        decreases n - i,
    {
        let unit = &units[i];
        proof {
            assert(pl[i as int] == units@[i as int].payload@);
            assert(pl.skip(i as int)[0] == pl[i as int]);
            assert(pl.skip(i as int).drop_first() =~= pl.skip(i as int + 1));
        }
        let empty_unit = unit.payload.len() == 0;
        let code: u8 = if empty_unit {
            0xFF
        } else {
            unit.payload[0] & 0x1F
        };
        assert(code == nal_type_code(pl[i as int]));
        if code == 5 {
            is_sync = true;
        }
        if code != 7 && code != 8 {
            let len32: u32 = unit.payload.len() as u32;
            let ghost buf0 = buf@;
            buf.push((len32 >> 24u32) as u8);
            buf.push((len32 >> 16u32) as u8);
            buf.push((len32 >> 8u32) as u8);
            buf.push(len32 as u8);
            proof {
                assert(buf@ =~= buf0 + be32(len32));
            }
            buf.extend_from_slice(unit.payload.as_slice());
            proof {
                assert(buf@ =~= buf0 + (be32(len32) + pl[i as int]));
                assert(buf0 + (be32(len32) + pl[i as int]) + framed_sample_bytes(
                    pl.skip(i as int + 1),
                ) =~= buf0 + framed_sample_bytes(pl.skip(i as int)));
            }
        } else {
            proof {
                assert(buf@ + framed_sample_bytes(pl.skip(i as int + 1)) =~= buf@
                    + framed_sample_bytes(pl.skip(i as int)));
            }
        }
        i = i + 1;
    }
    proof {
        assert(pl.skip(n as int) =~= Seq::<Seq<u8>>::empty());
        assert(buf@ + framed_sample_bytes(pl.skip(n as int)) =~= buf@);
    }
    Sample { start_time, duration, is_sync, payload: buf }
}

/// Framing one more unit appends that unit's contribution.
pub proof fn lemma_framed_push(payloads: Seq<Seq<u8>>, x: Seq<u8>)
    ensures
        framed_sample_bytes(payloads.push(x)) == framed_sample_bytes(payloads)
            + framed_unit_bytes(x),
    decreases payloads.len(),
{
    if payloads.len() == 0 {
        assert(payloads.push(x)[0] == x);
        assert(payloads.push(x).drop_first() =~= Seq::<Seq<u8>>::empty());
        assert(framed_sample_bytes(payloads.push(x)) == framed_unit_bytes(x)
            + framed_sample_bytes(Seq::<Seq<u8>>::empty()));
        assert(framed_unit_bytes(x) + Seq::<u8>::empty() =~= framed_unit_bytes(x));
        assert(framed_sample_bytes(payloads) + framed_unit_bytes(x) =~= framed_unit_bytes(x));
    } else {
        lemma_framed_push(payloads.drop_first(), x);
        assert(payloads.push(x)[0] == payloads[0]);
        assert(payloads.push(x).drop_first() =~= payloads.drop_first().push(x));
        assert(framed_unit_bytes(payloads[0]) + (framed_sample_bytes(payloads.drop_first())
            + framed_unit_bytes(x)) =~= framed_sample_bytes(payloads) + framed_unit_bytes(x));
    }
}

/// Removing a parameter-set unit from a frame's unit list leaves the
/// sample bytes unchanged: parameter-set bytes never appear inside a
/// sample payload, even when a bitstream re-emits them.
pub proof fn lemma_sample_excludes_parameter_sets(payloads: Seq<Seq<u8>>, i: int)
    requires
        0 <= i < payloads.len(),
        is_param_set(payloads[i]),
    ensures
        framed_sample_bytes(payloads) == framed_sample_bytes(payloads.remove(i)),
    decreases i,
{
    if i == 0 {
        assert(payloads.remove(0) =~= payloads.drop_first());
        assert(framed_sample_bytes(payloads) =~= Seq::<u8>::empty() + framed_sample_bytes(
            payloads.drop_first(),
        ));
        assert(Seq::<u8>::empty() + framed_sample_bytes(payloads.drop_first())
            =~= framed_sample_bytes(payloads.drop_first()));
    } else {
        lemma_sample_excludes_parameter_sets(payloads.drop_first(), i - 1);
        assert(payloads.remove(i).drop_first() =~= payloads.drop_first().remove(i - 1));
        assert(payloads.remove(i)[0] == payloads[0]);
    }
}

/// A sample's bytes are exactly those of the unit list with every
/// parameter set taken out: no parameter-set byte reaches a sample.
pub proof fn lemma_sample_payload_is_filtered(payloads: Seq<Seq<u8>>)
    ensures
        framed_sample_bytes(payloads) == framed_sample_bytes(
            payloads.filter(|p: Seq<u8>| !is_param_set(p)),
        ),
    decreases payloads.len(),
{
    reveal(Seq::filter);
    if payloads.len() > 0 {
        let head = payloads.drop_last();
        let last = payloads.last();
        lemma_sample_payload_is_filtered(head);
        assert(payloads =~= head.push(last));
        lemma_framed_push(head, last);
        let pred = |p: Seq<u8>| !is_param_set(p);
        if pred(last) {
            assert(payloads.filter(pred) == head.filter(pred).push(last));
            lemma_framed_push(head.filter(pred), last);
        } else {
            assert(payloads.filter(pred) == head.filter(pred));
            assert(framed_sample_bytes(head) + framed_unit_bytes(last) =~= framed_sample_bytes(
                head,
            ));
        }
    }
}

} // verus!
