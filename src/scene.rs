use vstd::prelude::*;
use crate::scalar::Scalar;

verus! {

/// The closest hit found so far while a scene's members are tested in turn.
/// Each member is tested with `bound()` as its upper limit, so the interval
/// narrows as closer hits are found.
#[derive(Clone, Copy, Debug, PartialEq, Eq, Structural)]
pub struct Nearest {
    pub closest: Scalar,
    pub best: Option<usize>,
}

/// Scanning a scene: member `k` has `hits[k]`, its nearest root in the full
/// interval (none if it has none there), and reports it when tested with an
/// upper bound only if that root is within the bound. The result is the
/// bound after all members and the index of the member that reported last.
pub open spec fn scan(t_max: Scalar, hits: Seq<Option<Scalar>>) -> (Scalar, Option<int>)
    decreases hits.len(),
{
    if hits.len() == 0 {
        (t_max, None)
    } else {
        let (closest, best) = scan(t_max, hits.drop_last());
        match hits.last() {
            Some(t) => if t.le(closest) {
                (t, Some(hits.len() - 1))
            } else {
                (closest, best)
            },
            None => (closest, best),
        }
    }
}

impl Nearest {
    /// The bound and the index of the member that holds it, as `scan` gives them.
    pub open spec fn state(self) -> (Scalar, Option<int>) {
        (
            self.closest,
            match self.best {
                Some(i) => Some(i as int),
                None => None,
            },
        )
    }

    /// The bound is a scalar of a double.
    pub open spec fn wf(self) -> bool {
        self.closest.wf()
    }

    /// Nothing hit yet: the bound is the interval's upper end.
    pub fn new(t_max: Scalar) -> (r: Nearest)
        requires
            t_max.wf(),
        ensures
            r.wf(),
            r.closest == t_max,
            r.best is None,
            r.state() == scan(t_max, Seq::empty()),
    {
        Nearest { closest: t_max, best: None }
    }

    /// The upper bound with which the next member is tested.
    pub fn bound(&self) -> (r: Scalar)
        requires
            self.wf(),
        ensures
            r == self.closest,
            r.wf(),
    {
        self.closest
    }

    /// Member `index` reported a hit at `t`: it is the closest so far.
    pub fn record(&mut self, index: usize, t: Scalar)
        requires
            t.wf(),
        ensures
            final(self).wf(),
            final(self).closest == t,
            final(self).best == Some(index),
    {
        self.closest = t;
        self.best = Some(index);
    }

    /// Whether any member reported a hit.
    pub fn hit_anything(&self) -> (r: bool)
        ensures
            r == self.best is Some,
    {
        self.best.is_some()
    }
}

/// Testing the members in turn with `bound()`, and calling `record` on those
/// that report, keeps the state equal to the scan of the members tested.
pub proof fn lemma_record_follows_scan(
    before: Nearest,
    after: Nearest,
    t_max: Scalar,
    tested: Seq<Option<Scalar>>,
    hit: Option<Scalar>,
)
    requires
        before.state() == scan(t_max, tested),
        match hit {
            Some(t) => if t.le(before.closest) {
                after.closest == t && after.best is Some && after.best->Some_0 as int == tested.len()
            } else {
                after == before
            },
            None => after == before,
        },
    ensures
        after.state() == scan(t_max, tested.push(hit)),
{
    assert(tested.push(hit).drop_last() =~= tested);
}

/// Narrowing finds the globally nearest hit: a scan reports a member exactly
/// when some member has a hit in the interval, and the member it reports has
/// the smallest hit of all of them.
pub proof fn lemma_scan_finds_nearest(t_max: Scalar, hits: Seq<Option<Scalar>>)
    requires
        forall|k: int|
            0 <= k < hits.len() && #[trigger] hits[k] is Some ==> hits[k]->Some_0.is_number()
                && hits[k]->Some_0.le(t_max),
    ensures
        scan(t_max, hits).1 is None <==> forall|k: int| 0 <= k < hits.len() ==> hits[k] is None,
        scan(t_max, hits).1 is Some ==> {
            let i = scan(t_max, hits).1->Some_0;
            &&& 0 <= i < hits.len()
            &&& hits[i] == Some(scan(t_max, hits).0)
            &&& forall|k: int|
                0 <= k < hits.len() && #[trigger] hits[k] is Some ==> scan(
                    t_max,
                    hits,
                ).0.le(hits[k]->Some_0)
        },
        scan(t_max, hits).1 is None ==> scan(t_max, hits).0 == t_max,
    decreases hits.len(),
{
    if hits.len() > 0 {
        let prefix = hits.drop_last();
        assert forall|k: int|
            0 <= k < prefix.len() && #[trigger] prefix[k] is Some implies prefix[k]->Some_0.is_number()
                && prefix[k]->Some_0.le(t_max) by {
            assert(prefix[k] == hits[k]);
        }
        lemma_scan_finds_nearest(t_max, prefix);
        let n = hits.len() - 1;
        assert forall|k: int| 0 <= k < n implies prefix[k] == hits[k] by {}
        if scan(t_max, prefix).1 is None {
            if hits[n] is None {
                assert forall|k: int| 0 <= k < hits.len() implies hits[k] is None by {
                    if k < n {
                        assert(prefix[k] is None);
                    }
                }
            }
        } else {
            let i = scan(t_max, prefix).1->Some_0;
            assert(prefix[i] is Some);
        }
    }
}

} // verus!
