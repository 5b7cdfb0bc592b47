//! Splitting an Annex-B bitstream into NAL units.
//!
//! Each NAL unit in the stream is preceded by a 3-byte (`00 00 01`) or
//! 4-byte (`00 00 00 01`) start code. The splitter records where each unit
//! begins, classifies it by the low 5 bits of its first byte, and carries
//! the unit's bytes (header byte included, start code excluded).

use vstd::prelude::*;

verus! {

/// A 3-byte start code `00 00 01` begins at index `i`.
pub open spec fn starts3(s: Seq<u8>, i: int) -> bool {
    &&& 0 <= i
    &&& i + 3 <= s.len()
    &&& s[i] == 0u8
    &&& s[i + 1] == 0u8
    &&& s[i + 2] == 1u8
}

/// A 4-byte start code `00 00 00 01` begins at index `i`.
pub open spec fn starts4(s: Seq<u8>, i: int) -> bool {
    &&& 0 <= i
    &&& i + 4 <= s.len()
    &&& s[i] == 0u8
    &&& s[i + 1] == 0u8
    &&& s[i + 2] == 0u8
    &&& s[i + 3] == 1u8
}

/// Either form of start code begins at index `i`.
pub open spec fn is_start_code_at(s: Seq<u8>, i: int) -> bool {
    starts3(s, i) || starts4(s, i)
}

/// The length of the start code at index `i` (meaningful only where
/// `is_start_code_at` holds; the two forms cannot hold at once).
pub open spec fn code_len_at(s: Seq<u8>, i: int) -> int {
    if starts4(s, i) {
        4
    } else {
        3
    }
}

/// How many positions lie between `j` and the next start code at or after
/// `j` (or the end of the buffer, whichever comes first).
pub open spec fn scan_len(s: Seq<u8>, j: int) -> nat
    decreases s.len() - j,
{
    if j >= s.len() || is_start_code_at(s, j) {
        0
    } else {
        1 + scan_len(s, j + 1)
    }
}

/// If no start code lies in `[a, b)` and `b` is the buffer end or a start
/// code, then the scan from `a` stops exactly at `b`.
pub proof fn lemma_scan_len_char(s: Seq<u8>, a: int, b: int)
    requires
        0 <= a <= b <= s.len(),
        forall|k: int| a <= k < b ==> !is_start_code_at(s, k),
        b == s.len() || is_start_code_at(s, b),
    ensures
        a + scan_len(s, a) == b,
    decreases b - a,
{
    if a < b {
        lemma_scan_len_char(s, a + 1, b);
    }
}

/// The unit payloads obtained by parsing `s` from position `pos` on, or
/// `None` where the scan position does not sit on a start code. A start
/// code at the very end of the buffer yields no unit.
pub open spec fn parse_from(s: Seq<u8>, pos: int) -> Option<Seq<Seq<u8>>>
    decreases s.len() - pos,
{
    if pos < 0 {
        None
    } else if pos >= s.len() {
        Some(Seq::empty())
    } else if is_start_code_at(s, pos) {
        let p = pos + code_len_at(s, pos);
        if p >= s.len() {
            Some(Seq::empty())
        } else {
            let e = p + 1 + scan_len(s, p + 1);
            // The scan cannot pass the buffer end; the guard keeps the
            // recursion's measure visibly in range.
            if e > s.len() {
                None
            } else {
                match parse_from(s, e) {
                    Some(rest) => Some(seq![s.subrange(p, e)] + rest),
                    None => None,
                }
            }
        }
    } else {
        None
    }
}

/// The classification of a NAL unit, from the low 5 bits of its first byte.
#[derive(Copy, Clone, Debug, PartialEq, Eq, Structural)]
pub enum NalKind {
    /// Type code 7: a sequence parameter set.
    SequenceParameterSet,
    /// Type code 8: a picture parameter set.
    PictureParameterSet,
    /// Any other unit, carrying its raw type code.
    Other(u8),
}

/// The type code of a unit: the low 5 bits of its first byte. An empty
/// payload has no header byte; it gets a code outside the 5-bit range, so
/// it matches no real unit type.
pub open spec fn nal_type_code(payload: Seq<u8>) -> u8 {
    if payload.len() == 0 {
        0xFFu8
    } else {
        payload[0] & 0x1Fu8
    }
}

/// The type code of an instantaneous decoder refresh unit.
pub open spec fn idr_code() -> u8 {
    5u8
}

/// The classification a payload's first byte dictates.
pub open spec fn kind_of(payload: Seq<u8>) -> NalKind {
    if nal_type_code(payload) == 7u8 {
        NalKind::SequenceParameterSet
    } else if nal_type_code(payload) == 8u8 {
        NalKind::PictureParameterSet
    } else {
        NalKind::Other(nal_type_code(payload))
    }
}

/// One NAL unit: its classification and its bytes (header byte included,
/// start code excluded).
#[derive(Debug)]
pub struct NalUnit {
    pub kind: NalKind,
    pub payload: Vec<u8>,
}

impl NalUnit {
    /// The payload is non-empty and the stored kind matches its first byte.
    pub open spec fn wf(self) -> bool {
        &&& self.payload@.len() >= 1
        &&& self.kind == kind_of(self.payload@)
    }
}

/// The sequence of payloads of a sequence of units.
pub open spec fn payloads_of(units: Seq<NalUnit>) -> Seq<Seq<u8>> {
    units.map_values(|u: NalUnit| u.payload@)
}

/// A buffer that does not begin with a start code at the scan position is a
/// hard parse error; no bytes are skipped.
#[derive(Copy, Clone, Debug, PartialEq, Eq, Structural)]
pub enum NalError {
    /// The scan position does not sit on a `00 00 01` or `00 00 00 01` code.
    NoStartCode,
}

/// Whether either start code begins at index `j` of `data`.
fn is_code_at(data: &[u8], j: usize) -> (b: bool)
    requires
        j <= data@.len(),
    ensures
        b == is_start_code_at(data@, j as int),
{
    let n = data.len();
    if n - j >= 3 && data[j] == 0 && data[j + 1] == 0 {
        if data[j + 2] == 1 {
            return true;
        }
        if n - j >= 4 && data[j + 2] == 0 && data[j + 3] == 1 {
            return true;
        }
    }
    false
}

/// Split an Annex-B buffer into its NAL units, in stream order.
///
/// Fails if and only if some scan position holds no start code; an empty
/// buffer or an empty remainder after the last unit yields no unit.
pub fn split_annexb(data: &[u8]) -> (r: Result<Vec<NalUnit>, NalError>)
    ensures
        match r {
            Ok(units) => {
                &&& parse_from(data@, 0) == Some(payloads_of(units@))
                &&& forall|i: int| 0 <= i < units@.len() ==> #[trigger] units@[i].wf()
                &&& forall|i: int|
                    0 <= i < units@.len() ==> (#[trigger] units@[i]).payload@.len() <= data@.len()
            },
            Err(_) => parse_from(data@, 0) is None,
        },
{
    let n = data.len();
    let mut units: Vec<NalUnit> = Vec::new();
    let mut pos: usize = 0;
    while pos < n
        invariant
            pos <= n,
            n == data@.len(),
            (parse_from(data@, 0) is Some) == (parse_from(data@, pos as int) is Some),
            parse_from(data@, pos as int) matches Some(rest) ==> parse_from(data@, 0)
                == Some(payloads_of(units@) + rest),
            forall|i: int| 0 <= i < units@.len() ==> #[trigger] units@[i].wf(),
            forall|i: int|
                0 <= i < units@.len() ==> (#[trigger] units@[i]).payload@.len() <= data@.len(),
        decreases n - pos,
    {
        if !is_code_at(data, pos) {
            return Err(NalError::NoStartCode);
        }
        // The two start-code forms are mutually exclusive, and the longer
        // one has a zero where the shorter has its one.
        let p: usize = if data[pos + 2] == 0 {
            pos + 4
        } else {
            pos + 3
        };
        assert(p == pos + code_len_at(data@, pos as int));
        if p >= n {
            // A trailing start code with nothing after it emits no unit.
            pos = n;
        } else {
            let mut j: usize = p + 1;
            while j < n && !is_code_at(data, j)
                invariant
                    p + 1 <= j <= n,
                    n == data@.len(),
                    forall|k: int| p + 1 <= k < j ==> !is_start_code_at(data@, k),
                decreases n - j,
            {
                j = j + 1;
            }
            proof {
                lemma_scan_len_char(data@, p + 1, j as int);
            }
            let payload: Vec<u8> = vstd::slice::slice_to_vec(vstd::slice::slice_subrange(
                data,
                p,
                j,
            ));
            let code: u8 = payload[0] & 0x1F;
            let kind = if code == 7 {
                NalKind::SequenceParameterSet
            } else if code == 8 {
                NalKind::PictureParameterSet
            } else {
                NalKind::Other(code)
            };
            let unit = NalUnit { kind, payload };
            proof {
                assert(unit.payload@ == data@.subrange(p as int, j as int));
                assert(unit.wf());
                let rest_old = parse_from(data@, pos as int).unwrap();
                let rest_new_opt = parse_from(data@, j as int);
                assert(rest_old == if rest_new_opt is Some {
                    seq![unit.payload@] + rest_new_opt.unwrap()
                } else {
                    rest_old
                });
            }
            let ghost old_units = units@;
            units.push(unit);
            proof {
                assert(payloads_of(units@) =~= payloads_of(old_units).push(units@.last().payload@));
                if parse_from(data@, j as int) is Some {
                    assert(payloads_of(old_units) + parse_from(data@, pos as int).unwrap()
                        =~= payloads_of(units@) + parse_from(data@, j as int).unwrap());
                }
            }
            pos = j;
        }
    }
    proof {
        assert(parse_from(data@, pos as int) == Some(Seq::<Seq<u8>>::empty()));
        assert(payloads_of(units@) + Seq::<Seq<u8>>::empty() =~= payloads_of(units@));
    }
    Ok(units)
}

/// One element of a synthetic Annex-B framing: whether its start code is
/// the 4-byte form, and the unit bytes that follow the code.
pub struct FramedUnit {
    pub four_byte: bool,
    pub bytes: Seq<u8>,
}

/// The start code a framed unit is preceded by.
pub open spec fn start_code(four_byte: bool) -> Seq<u8> {
    if four_byte {
        seq![0u8, 0u8, 0u8, 1u8]
    } else {
        seq![0u8, 0u8, 1u8]
    }
}

/// The concatenation `[start code][bytes]` over a sequence of framed units.
pub open spec fn encode_units(units: Seq<FramedUnit>) -> Seq<u8>
    decreases units.len(),
{
    if units.len() == 0 {
        Seq::empty()
    } else {
        start_code(units[0].four_byte) + units[0].bytes + encode_units(units.drop_first())
    }
}

/// Unit bytes that survive Annex-B framing unchanged: non-empty, free of
/// embedded `00 00 01` codes, and not ending in a zero byte (the emulation
/// prevention an H.264 encoder guarantees of its output).
pub open spec fn framable(u: FramedUnit) -> bool {
    &&& u.bytes.len() >= 1
    &&& u.bytes[u.bytes.len() - 1] != 0u8
    &&& forall|k: int| !starts3(u.bytes, k)
}

/// The bytes of a sequence of framed units, without their start codes.
pub open spec fn framed_payloads(units: Seq<FramedUnit>) -> Seq<Seq<u8>> {
    units.map_values(|u: FramedUnit| u.bytes)
}

proof fn lemma_parse_encoding_at(s: Seq<u8>, pos: int, units: Seq<FramedUnit>)
    requires
        0 <= pos <= s.len(),
        s.subrange(pos, s.len() as int) == encode_units(units),
        forall|i: int| 0 <= i < units.len() ==> framable(#[trigger] units[i]),
    ensures
        parse_from(s, pos) == Some(framed_payloads(units)),
    decreases units.len(),
{
    let tail = s.subrange(pos, s.len() as int);
    if units.len() == 0 {
        assert(tail.len() == 0);
        assert(pos == s.len());
        assert(framed_payloads(units) =~= Seq::<Seq<u8>>::empty());
    } else {
        let u = units[0];
        assert(framable(u));
        let sc = start_code(u.four_byte);
        let rest = units.drop_first();
        let rest_enc = encode_units(rest);
        let cl = sc.len() as int;
        let bl = u.bytes.len() as int;
        // Byte-for-byte picture of the tail.
        assert(tail == sc + u.bytes + rest_enc);
        assert(tail.len() == cl + bl + rest_enc.len());
        assert forall|t: int| 0 <= t < s.len() - pos implies s[pos + t] == tail[t] by {}
        assert(forall|t: int| 0 <= t < cl ==> tail[t] == sc[t]);
        assert(forall|t: int| 0 <= t < bl ==> tail[cl + t] == u.bytes[t]);
        assert(forall|t: int| 0 <= t < rest_enc.len() ==> tail[cl + bl + t] == rest_enc[t]);
        assert(s.len() - pos == cl + bl + rest_enc.len());

        // The buffer holds a start code of the declared length at `pos`.
        if u.four_byte {
            assert(starts4(s, pos));
            assert(code_len_at(s, pos) == 4);
        } else {
            assert(starts3(s, pos));
            assert(!starts4(s, pos));
            assert(code_len_at(s, pos) == 3);
        }
        let p = pos + cl;
        assert(p < s.len());

        // No start code begins inside the unit bytes.
        assert forall|k: int| p + 1 <= k < p + bl implies !is_start_code_at(s, k) by {
            if is_start_code_at(s, k) {
                // Either form exhibits a `00 00 01` at k or k + 1.
                let m = if starts3(s, k) {
                    k
                } else {
                    k + 1
                };
                assert(s[m] == 0u8 && s[m + 1] == 0u8 && s[m + 2] == 1u8);
                assert(m < p + bl) by {
                    if m == p + bl {
                        // Then the code was the 4-byte form at k = m - 1,
                        // whose first byte is the unit's last, which is not 0.
                        assert(s[k] == u.bytes[bl - 1]);
                    }
                }
                if m + 3 <= p + bl {
                    assert(starts3(u.bytes, m - p));
                } else if m == p + bl - 2 {
                    assert(s[m + 1] == u.bytes[bl - 1]);
                } else {
                    assert(m == p + bl - 1);
                    assert(s[m] == u.bytes[bl - 1]);
                }
            }
        }

        // The unit ends at the buffer end or at the next unit's start code.
        let e = p + bl;
        if rest.len() == 0 {
            assert(rest_enc.len() == 0);
            assert(e == s.len());
        } else {
            let sc2 = start_code(rest[0].four_byte);
            assert(rest_enc == sc2 + rest[0].bytes + encode_units(rest.drop_first()));
            assert(framable(rest[0]));
            assert(rest_enc.len() >= sc2.len() + 1);
            assert(forall|t: int| 0 <= t < sc2.len() ==> rest_enc[t] == sc2[t]);
            assert(forall|t: int| 0 <= t < sc2.len() ==> s[e + t] == sc2[t]);
            if rest[0].four_byte {
                assert(starts4(s, e));
            } else {
                assert(starts3(s, e));
            }
        }
        lemma_scan_len_char(s, p + 1, e);
        assert(s.subrange(p, e) =~= u.bytes);

        // Recurse over the remaining units.
        assert(s.subrange(e, s.len() as int) =~= rest_enc);
        lemma_parse_encoding_at(s, e, rest);
        assert(parse_from(s, pos) == Some(seq![u.bytes] + framed_payloads(rest)));
        assert(seq![u.bytes] + framed_payloads(rest) =~= framed_payloads(units));
    }
}

/// Splitting a buffer built as `[start code][unit] ... [start code][unit]`
/// recovers exactly the framed units' bytes, in order, whichever start-code
/// form precedes each unit.
pub proof fn lemma_annexb_round_trip(units: Seq<FramedUnit>)
    requires
        forall|i: int| 0 <= i < units.len() ==> framable(#[trigger] units[i]),
    ensures
        parse_from(encode_units(units), 0) == Some(framed_payloads(units)),
{
    let s = encode_units(units);
    assert(s.subrange(0, s.len() as int) =~= s);
    lemma_parse_encoding_at(s, 0, units);
}

} // verus!
