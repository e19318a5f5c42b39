//! Telemetry-server reachability: decides, from probe results the caller
//! gathered, whether every telemetry server is unreachable (disabled).

use vstd::prelude::*;

verus! {

/// One probed server: its address and whether it answered.
#[derive(Debug, Clone, PartialEq, Eq)]
pub struct ServerProbe {
    pub address: String,
    pub answered: bool,
}

/// Address of the first probe that answered.
pub open spec fn first_answering(probes: Seq<ServerProbe>) -> Option<String>
    decreases probes.len(),
{
    if probes.len() == 0 {
        None
    } else if probes[0].answered {
        Some(probes[0].address)
    } else {
        first_answering(probes.drop_first())
    }
}

/// Whether telemetry is disabled: `None` when no server answered its
/// probe, else the address of the first server that did.
pub fn is_disabled(probes: &Vec<ServerProbe>) -> (r: Option<String>)
    ensures
        r == first_answering(probes@),
{
    let mut i: usize = 0;
    proof {
        assert(probes@.skip(0) =~= probes@);
    }
    while i < probes.len()
        invariant
            0 <= i <= probes@.len(),
            first_answering(probes@) == first_answering(probes@.skip(i as int)),
        decreases probes@.len() - i,
    {
        proof {
            assert(probes@.skip(i as int).drop_first() =~= probes@.skip(i as int + 1));
            assert(probes@.skip(i as int)[0] == probes@[i as int]);
        }
        if probes[i].answered {
            return Some(probes[i].address.clone());
        }
        i = i + 1;
    }
    None
}

} // verus!
