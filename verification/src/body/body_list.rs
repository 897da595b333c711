//! The scene: a list of bodies, hit at the closest of them.

use crate::body::{lemma_hit_in_shorter_window, Body, HitRecord, Probe};
use crate::interval::Interval;
use vstd::prelude::*;

verus! {

/// The bodies of a scene, in the order they were pushed.
pub struct BodyList {
    bodies: Vec<Body>,
}

impl BodyList {
    /// The bodies in the order they were pushed.
    pub closed spec fn view(&self) -> Seq<Body> {
        self.bodies@
    }

    /// Whether a hit takes the place of the best one so far: where nothing
    /// was hit yet, or where its parameter lies strictly below the best. A
    /// hit that lies as far as the best does not replace it.
    pub open spec fn improves(record: HitRecord, best: Option<HitRecord>) -> bool {
        match best {
            Some(kept) => record.t.lt_spec(kept.t),
            None => true,
        }
    }

    /// The best hit after the first `n` bodies were tested in turn, each
    /// with the probe at its index and within a window that ends at the
    /// best hit before it. A later hit replaces the best only where it
    /// improves on it.
    pub open spec fn scan(bodies: Seq<Body>, probes: Seq<Probe>, t: Interval, n: nat) -> Option<
        HitRecord,
    >
        decreases n,
    {
        if n == 0 {
            None
        } else {
            let before = BodyList::scan(bodies, probes, t, (n - 1) as nat);
            let window = BodyList::window(t, before);
            match bodies[n - 1].hit_spec(&probes[n - 1], window) {
                Some(record) if BodyList::improves(record, before) => Some(record),
                _ => before,
            }
        }
    }

    /// The window left by the best hit so far: from the lower bound of `t`
    /// to that hit's parameter, or to the upper bound of `t` where nothing
    /// was hit yet.
    pub open spec fn window(t: Interval, best: Option<HitRecord>) -> Interval {
        match best {
            Some(record) => t.ending_at(record.t),
            None => t,
        }
    }

    /// How many bodies `hit` looks at: those that have a probe.
    pub open spec fn probed(&self, probes: Seq<Probe>) -> nat {
        if self@.len() <= probes.len() {
            self@.len()
        } else {
            probes.len()
        }
    }

    /// The hit of the whole list.
    pub open spec fn hit_spec(&self, probes: Seq<Probe>, t: Interval) -> Option<HitRecord> {
        BodyList::scan(self@, probes, t, self.probed(probes))
    }

    pub fn new() -> (list: BodyList)
        ensures
            list@ == Seq::<Body>::empty(),
    {
        BodyList { bodies: Vec::new() }
    }

    /// The bodies in the order they were pushed.
    pub fn bodies(&self) -> (bodies: &Vec<Body>)
        ensures
            bodies@ == self@,
    {
        &self.bodies
    }

    pub fn push(&mut self, body: Body)
        ensures
            final(self)@ == old(self)@.push(body),
    {
        self.bodies.push(body)
    }

    pub fn pop(&mut self) -> (body: Option<Body>)
        ensures
            old(self)@.len() == 0 ==> body.is_none() && final(self)@ == old(self)@,
            old(self)@.len() > 0 ==> body == Some(old(self)@.last()) && final(self)@ == old(
                self,
            )@.drop_last(),
    {
        self.bodies.pop()
    }

    pub fn clear(&mut self)
        ensures
            final(self)@ == Seq::<Body>::empty(),
    {
        self.bodies.clear()
    }

    /// Tests every body against a ray within the window `t`, body `i` with
    /// `probes[i]`, and keeps the closest hit: each body is tested within
    /// a window that ends at the closest hit found before it, and its hit
    /// replaces that one only where it lies strictly nearer, so that of
    /// hits that lie equally far the first stays. On a hit the record is
    /// overwritten with the closest one; otherwise it is left as it is. A
    /// body without a probe is not looked at, nor a probe without a body.
    pub fn hit(&self, probes: &Vec<Probe>, t: Interval, hit_record: &mut HitRecord) -> (hit: bool)
        ensures
            hit == self.hit_spec(probes@, t).is_some(),
            *final(hit_record) == old(hit_record).overwritten_by(self.hit_spec(probes@, t)),
    {
        let mut temp_hit_record = HitRecord::new();
        let mut hit = false;
        let mut closest = t.max;
        let n: usize = if self.bodies.len() <= probes.len() {
            self.bodies.len()
        } else {
            probes.len()
        };
        let mut i: usize = 0;
        while i < n
            invariant
                i <= n,
                n == self.probed(probes@),
                n <= self.bodies.len(),
                n <= probes.len(),
                hit == BodyList::scan(self@, probes@, t, i as nat).is_some(),
                closest == BodyList::window(t, BodyList::scan(self@, probes@, t, i as nat)).max,
                *hit_record == old(hit_record).overwritten_by(
                    BodyList::scan(self@, probes@, t, i as nat),
                ),
            decreases n - i,
        {
            if self.bodies[i].hit(&probes[i], Interval::new(t.min, closest), &mut temp_hit_record)
                && (!hit || temp_hit_record.t.lt(closest)) {
                hit = true;
                closest = temp_hit_record.t;
                *hit_record = temp_hit_record;
            }
            i += 1;
        }
        hit
    }
}

/// What body `i` reports on its own, within the whole window.
pub open spec fn own_hit(bodies: Seq<Body>, probes: Seq<Probe>, t: Interval, i: int) -> Option<
    HitRecord,
> {
    bodies[i].hit_spec(&probes[i], t)
}

/// `best` is the closest of what the first `n` bodies report on their own:
/// nothing where none of them reports a hit, and otherwise the record of one
/// of them, within the window, with no smaller parameter among the others.
pub open spec fn is_closest(
    bodies: Seq<Body>,
    probes: Seq<Probe>,
    t: Interval,
    n: nat,
    best: Option<HitRecord>,
) -> bool {
    match best {
        Some(record) => {
            &&& t.contains_spec(record.t)
            &&& exists|i: int| 0 <= i < n && #[trigger] own_hit(bodies, probes, t, i) == Some(record)
            &&& forall|i: int|
                0 <= i < n && (#[trigger] own_hit(bodies, probes, t, i)) is Some ==> record.t.le_spec(
                    own_hit(bodies, probes, t, i).unwrap().t,
                )
        },
        None => forall|i: int| 0 <= i < n ==> #[trigger] own_hit(bodies, probes, t, i) is None,
    }
}

/// Every one of the first `n` probes is orderly for its body.
pub open spec fn all_orderly(bodies: Seq<Body>, probes: Seq<Probe>, n: nat) -> bool {
    forall|i: int| 0 <= i < n ==> (#[trigger] bodies[i]).orderly(&probes[i])
}

/// The scan keeps the closest hit. Where no body reports a hit on its own,
/// the scan reports none. Otherwise it reports the record of one of the
/// bodies, and no body's own hit has a smaller parameter.
pub proof fn lemma_scan_keeps_closest(bodies: Seq<Body>, probes: Seq<Probe>, t: Interval, n: nat)
    requires
        n <= bodies.len(),
        n <= probes.len(),
        t.ordered(),
        all_orderly(bodies, probes, n),
    ensures
        is_closest(bodies, probes, t, n, BodyList::scan(bodies, probes, t, n)),
    decreases n,
{
    if n > 0 {
        let m = (n - 1) as nat;
        lemma_scan_keeps_closest(bodies, probes, t, m);
        let before = BodyList::scan(bodies, probes, t, m);
        let window = BodyList::window(t, before);
        assert(bodies[m as int].orderly(&probes[m as int]));
        assert(t.contains_spec(window.max));
        lemma_hit_in_shorter_window(bodies[m as int], probes[m as int], t, window.max);
        let found = bodies[m as int].hit_spec(&probes[m as int], window);
        let replaced = found is Some && BodyList::improves(found.unwrap(), before);
        let after = BodyList::scan(bodies, probes, t, n);
        match after {
            Some(record) => {
                if replaced {
                    assert(own_hit(bodies, probes, t, m as int) == Some(record));
                } else {
                    let i = choose|i: int|
                        0 <= i < m && #[trigger] own_hit(bodies, probes, t, i) == Some(record);
                    assert(own_hit(bodies, probes, t, i) == Some(record));
                }
                assert forall|i: int|
                    0 <= i < n && (#[trigger] own_hit(bodies, probes, t, i)) is Some implies record.t.le_spec(
                    own_hit(bodies, probes, t, i).unwrap().t,
                ) by {
                    if i < m {
                        assert(before is Some);
                    } else {
                        assert(t.contains_spec(own_hit(bodies, probes, t, m as int).unwrap().t));
                    }
                }
            },
            None => {
                assert forall|i: int| 0 <= i < n implies #[trigger] own_hit(bodies, probes, t, i)
                    is None by {
                    if i < m {
                        assert(before is None);
                    }
                }
            },
        }
    }
}

/// Body `i` is hit, strictly nearer than every body before it and no
/// farther than any body after it, among the first `n`.
pub open spec fn stands_first(
    bodies: Seq<Body>,
    probes: Seq<Probe>,
    t: Interval,
    n: nat,
    i: int,
) -> bool {
    &&& 0 <= i < n
    &&& own_hit(bodies, probes, t, i) is Some
    &&& forall|k: int|
        0 <= k < i && (#[trigger] own_hit(bodies, probes, t, k)) is Some ==> own_hit(
            bodies,
            probes,
            t,
            i,
        ).unwrap().t.lt_spec(own_hit(bodies, probes, t, k).unwrap().t)
    &&& forall|k: int|
        i <= k < n && (#[trigger] own_hit(bodies, probes, t, k)) is Some ==> own_hit(
            bodies,
            probes,
            t,
            i,
        ).unwrap().t.le_spec(own_hit(bodies, probes, t, k).unwrap().t)
}

/// Of hits that lie equally far the first stays. Where the scan reports a
/// hit, it is the own hit of the first body among the closest: every body
/// before it lies strictly farther or is missed, and no body after it lies
/// nearer.
pub proof fn lemma_scan_keeps_first_of_closest(
    bodies: Seq<Body>,
    probes: Seq<Probe>,
    t: Interval,
    n: nat,
)
    requires
        n <= bodies.len(),
        n <= probes.len(),
        t.ordered(),
        all_orderly(bodies, probes, n),
    ensures
        BodyList::scan(bodies, probes, t, n) is Some ==> exists|i: int|
            #[trigger] stands_first(bodies, probes, t, n, i) && own_hit(bodies, probes, t, i)
                == BodyList::scan(bodies, probes, t, n),
    decreases n,
{
    if n > 0 {
        let m = (n - 1) as nat;
        lemma_scan_keeps_first_of_closest(bodies, probes, t, m);
        lemma_scan_keeps_closest(bodies, probes, t, m);
        let before = BodyList::scan(bodies, probes, t, m);
        let window = BodyList::window(t, before);
        assert(bodies[m as int].orderly(&probes[m as int]));
        assert(t.contains_spec(window.max));
        lemma_hit_in_shorter_window(bodies[m as int], probes[m as int], t, window.max);
        let found = bodies[m as int].hit_spec(&probes[m as int], window);
        let last = own_hit(bodies, probes, t, m as int);
        let after = BodyList::scan(bodies, probes, t, n);
        if found is Some && BodyList::improves(found.unwrap(), before) {
            assert(last == after);
            assert forall|k: int|
                0 <= k < m && (#[trigger] own_hit(bodies, probes, t, k)) is Some implies last.unwrap().t.lt_spec(
                own_hit(bodies, probes, t, k).unwrap().t,
            ) by {
                assert(before is Some);
            }
            assert(stands_first(bodies, probes, t, n, m as int));
        } else if after is Some {
            assert(after == before);
            let i = choose|i: int|
                #[trigger] stands_first(bodies, probes, t, m, i) && own_hit(bodies, probes, t, i)
                    == before;
            if last is Some {
                assert(t.contains_spec(last.unwrap().t));
                assert(t.contains_spec(before.unwrap().t));
            }
            assert(stands_first(bodies, probes, t, n, i));
        }
    }
}

/// Of two bodies that are hit equally far, the one that stands first in the
/// list is reported.
pub proof fn lemma_earlier_of_two_equal_hits_stays(
    world: &BodyList,
    first_body: Body,
    first_probe: Probe,
    second_body: Body,
    second_probe: Probe,
    t: Interval,
)
    requires
        world@ == seq![first_body, second_body],
        t.ordered(),
        first_body.orderly(&first_probe),
        second_body.orderly(&second_probe),
        first_body.hit_spec(&first_probe, t) is Some,
        second_body.hit_spec(&second_probe, t) is Some,
        first_body.hit_spec(&first_probe, t).unwrap().t.same_value_spec(
            second_body.hit_spec(&second_probe, t).unwrap().t,
        ),
    ensures
        world.hit_spec(seq![first_probe, second_probe], t) == first_body.hit_spec(&first_probe, t),
{
    let probes = seq![first_probe, second_probe];
    lemma_scan_keeps_closest(world@, probes, t, 2);
    lemma_scan_keeps_first_of_closest(world@, probes, t, 2);
    assert(own_hit(world@, probes, t, 0) == first_body.hit_spec(&first_probe, t));
    assert(own_hit(world@, probes, t, 1) == second_body.hit_spec(&second_probe, t));
}

/// Every probed body of the first list stands, with the same probe,
/// somewhere in the second.
pub open spec fn each_found_in(
    bodies: Seq<Body>,
    probes: Seq<Probe>,
    n: nat,
    others: Seq<Body>,
    other_probes: Seq<Probe>,
    m: nat,
) -> bool {
    forall|i: int|
        0 <= i < n ==> exists|j: int|
            0 <= j < m && #[trigger] others[j] == (#[trigger] bodies[i]) && other_probes[j]
                == probes[i]
}

/// No two different hits lie equally far: bodies whose own hits have the
/// same parameter report the same record.
pub open spec fn no_ties(bodies: Seq<Body>, probes: Seq<Probe>, t: Interval, n: nat) -> bool {
    forall|i: int, k: int|
        0 <= i < n && 0 <= k < n && (#[trigger] own_hit(bodies, probes, t, i)) is Some && (
        #[trigger] own_hit(bodies, probes, t, k)) is Some && own_hit(
            bodies,
            probes,
            t,
            i,
        ).unwrap().t.same_value_spec(own_hit(bodies, probes, t, k).unwrap().t) ==> own_hit(
            bodies,
            probes,
            t,
            i,
        ) == own_hit(bodies, probes, t, k)
}

/// The order of the bodies does not matter. Two lists that hold the same
/// bodies with the same probes, in whatever order, report the same hit,
/// unless two different hits lie equally far.
pub proof fn lemma_order_does_not_matter(
    bodies: Seq<Body>,
    probes: Seq<Probe>,
    n: nat,
    others: Seq<Body>,
    other_probes: Seq<Probe>,
    m: nat,
    t: Interval,
)
    requires
        n <= bodies.len(),
        n <= probes.len(),
        m <= others.len(),
        m <= other_probes.len(),
        t.ordered(),
        all_orderly(bodies, probes, n),
        each_found_in(bodies, probes, n, others, other_probes, m),
        each_found_in(others, other_probes, m, bodies, probes, n),
        no_ties(bodies, probes, t, n),
    ensures
        BodyList::scan(bodies, probes, t, n) == BodyList::scan(others, other_probes, t, m),
{
    assert forall|j: int| 0 <= j < m implies (#[trigger] others[j]).orderly(&other_probes[j]) by {
        let i = choose|i: int|
            0 <= i < n && #[trigger] bodies[i] == (#[trigger] others[j]) && probes[i]
                == other_probes[j];
        assert(bodies[i].orderly(&probes[i]));
    }
    lemma_scan_keeps_closest(bodies, probes, t, n);
    lemma_scan_keeps_closest(others, other_probes, t, m);
    let here = BodyList::scan(bodies, probes, t, n);
    let there = BodyList::scan(others, other_probes, t, m);
    match here {
        Some(record) => {
            let i = choose|i: int| 0 <= i < n && #[trigger] own_hit(bodies, probes, t, i) == Some(record);
            let j = choose|j: int|
                0 <= j < m && #[trigger] others[j] == (#[trigger] bodies[i]) && other_probes[j]
                    == probes[i];
            assert(own_hit(others, other_probes, t, j) == Some(record));
            assert(there is Some);
            let other = there.unwrap();
            let k = choose|k: int|
                0 <= k < m && #[trigger] own_hit(others, other_probes, t, k) == Some(other);
            let l = choose|l: int|
                0 <= l < n && #[trigger] bodies[l] == (#[trigger] others[k]) && probes[l]
                    == other_probes[k];
            assert(own_hit(bodies, probes, t, l) == Some(other));
            assert(own_hit(bodies, probes, t, i) == Some(record));
            assert(record.t.le_spec(other.t));
            assert(other.t.le_spec(record.t));
        },
        None => {
            if there is Some {
                let other = there.unwrap();
                let k = choose|k: int|
                    0 <= k < m && #[trigger] own_hit(others, other_probes, t, k) == Some(other);
                let l = choose|l: int|
                    0 <= l < n && #[trigger] bodies[l] == (#[trigger] others[k]) && probes[l]
                        == other_probes[k];
                assert(own_hit(bodies, probes, t, l) == Some(other));
            }
        },
    }
}

/// Of two bodies that are both hit, the closer one wins, in whichever order
/// the list holds them.
pub proof fn lemma_closer_of_two_wins(
    forth: &BodyList,
    back: &BodyList,
    near_body: Body,
    near_probe: Probe,
    far_body: Body,
    far_probe: Probe,
    t: Interval,
)
    requires
        forth@ == seq![near_body, far_body],
        back@ == seq![far_body, near_body],
        t.ordered(),
        near_body.orderly(&near_probe),
        far_body.orderly(&far_probe),
        near_body.hit_spec(&near_probe, t) is Some,
        far_body.hit_spec(&far_probe, t) is Some,
        near_body.hit_spec(&near_probe, t).unwrap().t.lt_spec(
            far_body.hit_spec(&far_probe, t).unwrap().t,
        ),
    ensures
        forth.hit_spec(seq![near_probe, far_probe], t) == near_body.hit_spec(&near_probe, t),
        back.hit_spec(seq![far_probe, near_probe], t) == near_body.hit_spec(&near_probe, t),
{
    let forth_probes = seq![near_probe, far_probe];
    let back_probes = seq![far_probe, near_probe];
    lemma_scan_keeps_closest(forth@, forth_probes, t, 2);
    lemma_scan_keeps_closest(back@, back_probes, t, 2);
    assert(own_hit(forth@, forth_probes, t, 0) == near_body.hit_spec(&near_probe, t));
    assert(own_hit(forth@, forth_probes, t, 1) == far_body.hit_spec(&far_probe, t));
    assert(own_hit(back@, back_probes, t, 0) == far_body.hit_spec(&far_probe, t));
    assert(own_hit(back@, back_probes, t, 1) == near_body.hit_spec(&near_probe, t));
}

} // verus!
