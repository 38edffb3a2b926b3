use vstd::prelude::*;

verus! {

/// The port used when no candidate can be bound.
pub const DEFAULT_PORT: u16 = 3001;

/// The first port tried.
pub const FIRST_CANDIDATE: u16 = 3001;

/// The last port tried.
pub const LAST_CANDIDATE: u16 = 3008;

/// The outcome of probing one port: the port, and whether a local bind on it succeeded.
pub type PortProbe = (u16, bool);

/// The candidate ports, in the order they are tried.
pub open spec fn candidates_spec() -> Seq<u16> {
    Seq::new((LAST_CANDIDATE - FIRST_CANDIDATE + 1) as nat, |i: int| (FIRST_CANDIDATE + i) as u16)
}

/// Whether some probe found its port free.
pub open spec fn some_free(probes: Seq<PortProbe>) -> bool {
    exists|i: int| 0 <= i < probes.len() && #[trigger] probes[i].1
}

/// `port` is the port of the first probe, in list order, that found its port free.
pub open spec fn is_first_free(probes: Seq<PortProbe>, port: u16) -> bool {
    exists|i: int|
        0 <= i < probes.len() && #[trigger] probes[i].1 && probes[i].0 == port && forall|j: int|
            0 <= j < i ==> !(#[trigger] probes[j].1)
}

/// The candidate ports, in the order they are tried.
pub fn candidate_ports() -> (r: Vec<u16>)
    ensures
        r@ == candidates_spec(),
{
    let mut v: Vec<u16> = Vec::new();
    let mut p: u16 = FIRST_CANDIDATE;
    while p <= LAST_CANDIDATE
        invariant
            FIRST_CANDIDATE <= p <= LAST_CANDIDATE + 1,
            v@ == candidates_spec().subrange(0, (p - FIRST_CANDIDATE) as int),
        decreases LAST_CANDIDATE + 1 - p,
    {
        v.push(p);
        p = p + 1;
        assert(v@ =~= candidates_spec().subrange(0, (p - FIRST_CANDIDATE) as int));
    }
    assert(v@ =~= candidates_spec());
    v
}

/// Picks the port to hand to the server from the probes, made in candidate order:
/// the first port found free, or the default when none was.
pub fn allocate_port(probes: &Vec<PortProbe>) -> (r: u16)
    ensures
        some_free(probes@) ==> is_first_free(probes@, r),
        !some_free(probes@) ==> r == DEFAULT_PORT,
{
    let mut i: usize = 0;
    while i < probes.len()
        invariant
            i <= probes.len(),
            forall|j: int| 0 <= j < i ==> !(#[trigger] probes@[j].1),
        decreases probes.len() - i,
    {
        if probes[i].1 {
            assert(is_first_free(probes@, probes@[i as int].0));
            return probes[i].0;
        }
        i = i + 1;
    }
    DEFAULT_PORT
}

} // verus!
