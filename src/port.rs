use vstd::prelude::*;

verus! {

/// First port tried when looking for a free one.
pub const PORT_SEARCH_BASE: u16 = 5174;

/// Number of consecutive ports tried before falling back to the base.
pub const PORT_SEARCH_TRIES: u16 = 50;

/// What the caller does next while looking for a port.
#[derive(Clone, Copy, Debug, PartialEq, Eq, Structural)]
pub enum PortAction {
    /// Try an exclusive bind on this port, release it, and report whether it worked.
    Probe(u16),
    /// The search is over: use this port.
    Use(u16),
}

/// A search for a free port among `start .. start + tries`, at candidate `start + offset`.
#[derive(Clone, Copy, Debug, PartialEq, Eq, Structural)]
pub struct PortScan {
    pub start: u16,
    pub tries: u16,
    pub offset: u16,
}

/// The port a search settles on from candidate `start + i` on, when candidate
/// `start + j` binds exactly when `free[j]`. Candidates past the last port
/// number are never tried.
pub open spec fn scan_from(start: nat, tries: nat, i: nat, free: Seq<bool>) -> nat
    decreases tries - i,
{
    if i >= tries || start + i > 65535 {
        start
    } else if i < free.len() && free[i as int] {
        start + i
    } else {
        scan_from(start, tries, i + 1, free)
    }
}

/// The port chosen among `start .. start + tries`, up to the last port number,
/// when candidate `start + j` binds exactly when `free[j]`: the first free one,
/// else `start`.
pub open spec fn chosen_port(start: nat, tries: nat, free: Seq<bool>) -> nat {
    scan_from(start, tries, 0, free)
}

impl PortScan {
    pub open spec fn wf(&self) -> bool {
        &&& self.offset < self.tries
        &&& self.start + self.offset <= 65535
    }

    /// The state and action that follow the outcome `bound` of the pending probe.
    pub open spec fn spec_record(self, bound: bool) -> (PortScan, PortAction) {
        if bound {
            (self, PortAction::Use((self.start + self.offset) as u16))
        } else if self.offset + 1 < self.tries && self.start + self.offset < 65535 {
            let next = PortScan { offset: (self.offset + 1) as u16, ..self };
            (next, PortAction::Probe((self.start + self.offset + 1) as u16))
        } else {
            (self, PortAction::Use(self.start))
        }
    }

    /// Starts a search over `start .. start + tries`; with no candidates at all
    /// the base port is used at once.
    pub fn new(start: u16, tries: u16) -> (r: (PortScan, PortAction))
        ensures
            r.0 == (PortScan { start, tries, offset: 0 }),
            r.1 == (if tries == 0 {
                PortAction::Use(start)
            } else {
                PortAction::Probe(start)
            }),
    {
        let scan = PortScan { start, tries, offset: 0 };
        if tries == 0 {
            (scan, PortAction::Use(start))
        } else {
            (scan, PortAction::Probe(start))
        }
    }

    /// Takes the outcome of the pending probe: a port that bound is used, one
    /// that did not moves the search on, and after the last candidate (or the
    /// last port number) the search falls back to `start`.
    pub fn record(&mut self, bound: bool) -> (r: PortAction)
        requires
            old(self).wf(),
        ensures
            (*final(self), r) == old(self).spec_record(bound),
            r is Probe ==> final(self).wf(),
            r matches PortAction::Use(p) ==> p == old(self).start || (old(self).start <= p
                < old(self).start + old(self).tries),
    {
        if bound {
            PortAction::Use(self.start + self.offset)
        } else if self.offset + 1 < self.tries && self.start < 65535 - self.offset {
            self.offset = self.offset + 1;
            PortAction::Probe(self.start + self.offset)
        } else {
            PortAction::Use(self.start)
        }
    }
}

/// Moving a search on by one probe outcome does not change the port it settles on.
pub proof fn lemma_record_follows_scan(scan: PortScan, free: Seq<bool>)
    requires
        scan.wf(),
        scan.offset < free.len(),
    ensures
        ({
            let (next, action) = scan.spec_record(free[scan.offset as int]);
            match action {
                PortAction::Use(p) => p as nat == scan_from(
                    scan.start as nat,
                    scan.tries as nat,
                    scan.offset as nat,
                    free,
                ),
                PortAction::Probe(p) => {
                    &&& next.wf()
                    &&& next.start == scan.start
                    &&& next.tries == scan.tries
                    &&& p == next.start + next.offset
                    &&& scan_from(scan.start as nat, scan.tries as nat, next.offset as nat, free)
                        == scan_from(scan.start as nat, scan.tries as nat, scan.offset as nat, free)
                },
            }
        }),
{
    let s = scan.start as nat;
    let t = scan.tries as nat;
    let o = scan.offset as nat;
    if !free[o as int] && (o + 1 >= t || s + o >= 65535) {
        assert(scan_from(s, t, o + 1, free) == s);
    }
}

proof fn lemma_scan_from_bounds(start: nat, tries: nat, i: nat, free: Seq<bool>)
    requires
        free.len() == tries,
        i <= tries,
    ensures
        ({
            let r = scan_from(start, tries, i, free);
            &&& (exists|j: int| i <= j < tries && start + j <= 65535 && free[j]) ==> {
                &&& start + i <= r < start + tries
                &&& r <= 65535
                &&& free[r - start]
                &&& forall|j: int| i <= j < r - start ==> !free[j]
            }
            &&& (forall|j: int| i <= j < tries && start + j <= 65535 ==> !free[j]) ==> r == start
        }),
    decreases tries - i,
{
    if i < tries && start + i <= 65535 {
        lemma_scan_from_bounds(start, tries, i + 1, free);
        if !free[i as int] {
            assert forall|j: int| i <= j < tries && start + j <= 65535 && free[j] implies i + 1
                <= j by {}
        }
    }
}

/// The port search yields the first candidate that bound, which lies in
/// `start .. start + tries` and is a port number; when none of the candidates
/// up to the last port number bound, it yields `start` itself.
pub proof fn lemma_chosen_port_in_range(start: u16, tries: u16, free: Seq<bool>)
    requires
        free.len() == tries,
    ensures
        (exists|j: int| 0 <= j < tries && start + j <= 65535 && free[j]) ==> {
            let r = chosen_port(start as nat, tries as nat, free);
            &&& start <= r < start + tries
            &&& r <= 65535
            &&& free[r - start]
            &&& forall|j: int| 0 <= j < r - start ==> !free[j]
        },
        (forall|j: int| 0 <= j < tries && start + j <= 65535 ==> !free[j]) ==> chosen_port(
            start as nat,
            tries as nat,
            free,
        ) == start,
{
    lemma_scan_from_bounds(start as nat, tries as nat, 0, free);
}

} // verus!
