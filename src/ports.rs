//! Choosing the port to listen on: the preferred port first, then the
//! default range in ascending order.
use vstd::prelude::*;

verus! {

/// First port of the range scanned when no preferred port can be bound.
pub const DEFAULT_PORT_START: u16 = 59792;

/// Last port of that range (inclusive).
pub const DEFAULT_PORT_END: u16 = 59892;

/// The ports `start ..= end` in ascending order.
pub open spec fn port_range(start: u16, end: u16) -> Seq<u16> {
    if start <= end {
        Seq::new((end - start + 1) as nat, |i: int| (start + i) as u16)
    } else {
        Seq::empty()
    }
}

/// The order in which ports are tried.
pub open spec fn port_candidates(preferred: Option<u16>, start: u16, end: u16) -> Seq<u16> {
    match preferred {
        Some(p) => seq![p] + port_range(start, end),
        None => port_range(start, end),
    }
}

/// The first of `ports` that is not already bound.
pub open spec fn first_free(ports: Seq<u16>, bound: Set<u16>) -> Option<u16>
    decreases ports.len(),
{
    if ports.len() == 0 {
        None
    } else if !bound.contains(ports[0]) {
        Some(ports[0])
    } else {
        first_free(ports.drop_first(), bound)
    }
}

/// Why no port could be had.
#[derive(Clone, Copy, Debug, PartialEq, Eq, Structural)]
pub enum PortError {
    /// Every port of `start ..= end` (and the preferred one) was taken.
    NoAvailablePort { start: u16, end: u16 },
}

/// A scan over the candidate ports. The caller asks for a candidate, tries to
/// bind it, and asks for the next one only when binding failed.
pub struct PortScan {
    preferred: Option<u16>,
    start: u16,
    end: u16,
    tried: usize,
}

impl PortScan {
    /// The ports this scan offers, in order.
    pub closed spec fn candidates(&self) -> Seq<u16> {
        port_candidates(self.preferred, self.start, self.end)
    }

    /// How many candidates have been handed out.
    pub closed spec fn position(&self) -> nat {
        self.tried as nat
    }

    /// The scanned range, as given at construction.
    pub closed spec fn range(&self) -> (u16, u16) {
        (self.start, self.end)
    }

    pub closed spec fn wf(&self) -> bool {
        self.tried <= self.candidates().len()
    }

    /// A scan that offers `preferred` (when given) and then `start ..= end`.
    pub fn new(preferred: Option<u16>, start: u16, end: u16) -> (r: PortScan)
        ensures
            r.wf(),
            r.candidates() == port_candidates(preferred, start, end),
            r.position() == 0,
            r.range() == (start, end),
    {
        PortScan { preferred, start, end, tried: 0 }
    }

    /// The next port to try, or `None` once every candidate has been offered.
    pub fn next_candidate(&mut self) -> (r: Option<u16>)
        requires
            old(self).wf(),
        ensures
            final(self).wf(),
            final(self).candidates() == old(self).candidates(),
            final(self).range() == old(self).range(),
            old(self).position() < old(self).candidates().len() ==> r == Some(
                old(self).candidates()[old(self).position() as int],
            ) && final(self).position() == old(self).position() + 1,
            old(self).position() >= old(self).candidates().len() ==> r is None
                && final(self).position() == old(self).position(),
    {
        let range_len: usize = if self.start <= self.end {
            (self.end - self.start) as usize + 1
        } else {
            0
        };
        let r = match self.preferred {
            Some(p) => {
                if self.tried == 0 {
                    Some(p)
                } else if self.tried - 1 < range_len {
                    Some((self.start as usize + (self.tried - 1)) as u16)
                } else {
                    None
                }
            },
            None => {
                if self.tried < range_len {
                    Some((self.start as usize + self.tried) as u16)
                } else {
                    None
                }
            },
        };
        if r.is_some() {
            self.tried = self.tried + 1;
        }
        r
    }

    /// The error to report once the scan is exhausted.
    pub fn exhausted(&self) -> (r: PortError)
        ensures
            r == (PortError::NoAvailablePort { start: self.range().0, end: self.range().1 }),
    {
        PortError::NoAvailablePort { start: self.start, end: self.end }
    }
}

/// A scan whose first `i` candidates were all bound elsewhere ends, at
/// candidate `i`, with the first free port of the candidates; a scan that ran
/// out of candidates ends with none being free.
pub proof fn lemma_scan_finds_first_free(ports: Seq<u16>, bound: Set<u16>, i: int)
    requires
        0 <= i <= ports.len(),
        forall|j: int| 0 <= j < i ==> bound.contains(#[trigger] ports[j]),
    ensures
        i < ports.len() && !bound.contains(ports[i]) ==> first_free(ports, bound) == Some(ports[i]),
        i == ports.len() ==> first_free(ports, bound) is None,
    decreases i,
{
    if i > 0 {
        let rest = ports.drop_first();
        assert forall|j: int| 0 <= j < i - 1 implies bound.contains(#[trigger] rest[j]) by {
            assert(rest[j] == ports[j + 1]);
        }
        lemma_scan_finds_first_free(rest, bound, i - 1);
    }
}

/// Scanning `p ..= p + 2` with `p` already bound never yields `p`: it yields
/// `p + 1` or `p + 2`, and fails only when all three are bound.
pub proof fn lemma_bound_port_is_skipped(p: u16, bound: Set<u16>)
    requires
        p <= u16::MAX - 2,
        bound.contains(p),
    ensures
        first_free(port_candidates(None, p, (p + 2) as u16), bound) matches Some(q) ==> q == p + 1 || q == p + 2,
        first_free(port_candidates(None, p, (p + 2) as u16), bound) is None <==> bound.contains((p + 1) as u16)
            && bound.contains((p + 2) as u16),
{
    let ports = port_candidates(None, p, (p + 2) as u16);
    assert(ports.len() == 3);
    assert(ports[0] == p);
    assert(ports[1] == p + 1);
    assert(ports[2] == p + 2);
    let r1 = ports.drop_first();
    let r2 = r1.drop_first();
    let r3 = r2.drop_first();
    assert(r1[0] == p + 1);
    assert(r2[0] == p + 2);
    assert(r3.len() == 0);
    assert(first_free(r3, bound) is None);
    assert(first_free(r2, bound) == if bound.contains(r2[0]) { None } else { Some(r2[0]) });
    assert(first_free(r1, bound) == if bound.contains(r1[0]) { first_free(r2, bound) } else { Some(r1[0]) });
    assert(first_free(ports, bound) == first_free(r1, bound));
}

} // verus!
