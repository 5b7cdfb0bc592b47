//! Capturing the first sequence and picture parameter sets of a bitstream.
//!
//! The container's decoder configuration needs one sequence parameter set
//! and one picture parameter set. They are taken from the first encoded
//! frame's units, in unit order, and the cache is then frozen for the
//! container's lifetime: later frames never replace them.

use vstd::prelude::*;

use crate::nal::{nal_type_code, payloads_of, NalUnit};

verus! {

/// The first unit payload in the list whose type code is `code`, if any.
pub open spec fn first_with_code(payloads: Seq<Seq<u8>>, code: u8) -> Option<Seq<u8>>
    decreases payloads.len(),
{
    if payloads.len() == 0 {
        None
    } else if nal_type_code(payloads[0]) == code {
        Some(payloads[0])
    } else {
        first_with_code(payloads.drop_first(), code)
    }
}

/// The bitstream did not yield both parameter sets.
#[derive(Copy, Clone, Debug, PartialEq, Eq, Structural)]
pub struct MissingParameterSets;

/// Holds the first sequence and picture parameter sets seen, or neither.
pub struct ParameterSetCache {
    sps: Option<Vec<u8>>,
    pps: Option<Vec<u8>>,
}

impl ParameterSetCache {
    /// The captured sequence parameter set bytes, if the cache is full.
    pub closed spec fn spec_sps(self) -> Option<Seq<u8>> {
        match self.sps {
            Some(v) => Some(v@),
            None => None,
        }
    }

    /// The captured picture parameter set bytes, if the cache is full.
    pub closed spec fn spec_pps(self) -> Option<Seq<u8>> {
        match self.pps {
            Some(v) => Some(v@),
            None => None,
        }
    }

    /// Capture is all-or-nothing: the cache is empty or holds both sets.
    pub open spec fn wf(self) -> bool {
        self.spec_sps() is Some <==> self.spec_pps() is Some
    }

    /// Both parameter sets have been captured.
    pub open spec fn spec_complete(self) -> bool {
        self.spec_sps() is Some
    }

    /// An empty cache, holding neither parameter set.
    pub fn new() -> (r: Self)
        ensures
            r.wf(),
            !r.spec_complete(),
    {
        ParameterSetCache { sps: None, pps: None }
    }

    /// Whether both parameter sets have been captured.
    pub fn complete(&self) -> (r: bool)
        ensures
            r == self.spec_complete(),
    {
        self.sps.is_some()
    }

    /// The captured sequence parameter set.
    pub fn sps(&self) -> (r: Option<&Vec<u8>>)
        ensures
            match r {
                Some(v) => self.spec_sps() == Some(v@),
                None => self.spec_sps() is None,
            },
    {
        self.sps.as_ref()
    }

    /// The captured picture parameter set.
    pub fn pps(&self) -> (r: Option<&Vec<u8>>)
        ensures
            match r {
                Some(v) => self.spec_pps() == Some(v@),
                None => self.spec_pps() is None,
            },
    {
        self.pps.as_ref()
    }

    /// Capture the first sequence and picture parameter sets of `units`.
    ///
    /// A full cache is frozen: the call is a no-op that succeeds. An empty
    /// cache takes both sets where both occur, in unit order; where either
    /// is absent it takes neither and reports the failure.
    pub fn capture(&mut self, units: &Vec<NalUnit>) -> (r: Result<(), MissingParameterSets>)
        requires
            old(self).wf(),
        ensures
            final(self).wf(),
            old(self).spec_complete() ==> *final(self) == *old(self) && r is Ok,
            !old(self).spec_complete() ==> match r {
                Ok(_) => {
                    &&& first_with_code(payloads_of(units@), 7u8) is Some
                    &&& first_with_code(payloads_of(units@), 8u8) is Some
                    &&& final(self).spec_sps() == first_with_code(payloads_of(units@), 7u8)
                    &&& final(self).spec_pps() == first_with_code(payloads_of(units@), 8u8)
                },
                Err(_) => {
                    &&& first_with_code(payloads_of(units@), 7u8) is None || first_with_code(payloads_of(units@), 8u8)
                        is None
                    &&& *final(self) == *old(self)
                },
            },
            final(self).spec_complete() == (old(self).spec_complete() || r is Ok),
    {
        if self.sps.is_some() {
            return Ok(());
        }
        let found_sps = find_first_with_code(units, 7);
        let found_pps = find_first_with_code(units, 8);
        match (found_sps, found_pps) {
            (Some(s), Some(p)) => {
                self.sps = Some(s);
                self.pps = Some(p);
                Ok(())
            },
            _ => Err(MissingParameterSets),
        }
    }
}

/// Scan `units` in order for the first unit with the given type code and
/// return a copy of its bytes.
fn find_first_with_code(units: &Vec<NalUnit>, code: u8) -> (r: Option<Vec<u8>>)
    requires
        code <= 0x1Fu8,
    ensures
        match r {
            Some(v) => first_with_code(payloads_of(units@), code) == Some(v@),
            None => first_with_code(payloads_of(units@), code) is None,
        },
{
    let ghost pl = payloads_of(units@);
    let n = units.len();
    let mut i: usize = 0;
    proof {
        assert(pl.skip(0) =~= pl);
    }
    while i < n
        invariant
            i <= n,
            n == units@.len(),
            pl == payloads_of(units@),
            code <= 0x1Fu8,
            first_with_code(pl, code) == first_with_code(pl.skip(i as int), code),
        decreases n - i,
    {
        let unit = &units[i];
        proof {
            assert(pl[i as int] == units@[i as int].payload@);
            assert(pl.skip(i as int)[0] == pl[i as int]);
        }
        if unit.payload.len() >= 1 {
            let c: u8 = unit.payload[0] & 0x1F;
            if c == code {
                return Some(vstd::slice::slice_to_vec(unit.payload.as_slice()));
            }
        }
        proof {
            assert(nal_type_code(pl[i as int]) != code);
            assert(pl.skip(i as int).drop_first() =~= pl.skip(i as int + 1));
            assert(first_with_code(pl.skip(i as int), code) == first_with_code(
                pl.skip(i as int + 1),
                code,
            ));
        }
        i = i + 1;
    }
    None
}

} // verus!
