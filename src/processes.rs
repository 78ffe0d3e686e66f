//! The process list shown each tick: the busiest processes first.
use vstd::prelude::*;
use vstd::multiset::Multiset;

verus! {

broadcast use vstd::seq_lib::group_to_multiset_ensures, vstd::multiset::group_multiset_properties;

/// How many processes a tick shows by default.
pub const TOP_PROCESSES: usize = 20;

/// One process as sampled in one tick. CPU and memory use are in tenths of a
/// percent. No identity carries over from one tick to the next.
pub struct ProcessInfo {
    pub pid: u32,
    pub name: String,
    pub cpu_tenths: u64,
    pub memory_tenths: u128,
}

impl ProcessInfo {
    /// An equal copy.
    pub fn duplicate(&self) -> (r: Self)
        ensures
            r == *self,
    {
        ProcessInfo {
            pid: self.pid,
            name: self.name.clone(),
            cpu_tenths: self.cpu_tenths,
            memory_tenths: self.memory_tenths,
        }
    }
}

/// Ordered by CPU use, highest first.
pub open spec fn busiest_first(s: Seq<ProcessInfo>) -> bool {
    forall|a: int, b: int| 0 <= a < b < s.len() ==> s[a].cpu_tenths >= s[b].cpu_tenths
}

/// Every process in `rest` uses no more CPU than any in `s`.
pub open spec fn all_below(rest: Multiset<ProcessInfo>, s: Seq<ProcessInfo>) -> bool {
    forall|x: ProcessInfo, k: int|
        #![trigger rest.count(x), s[k]]
        rest.count(x) > 0 && 0 <= k < s.len() ==> x.cpu_tenths <= s[k].cpu_tenths
}

/// `r` is `min(limit, |s|)` processes of `s`, busiest first, and no process
/// of `s` left out uses more CPU than one taken.
pub open spec fn is_top(r: Seq<ProcessInfo>, s: Seq<ProcessInfo>, limit: nat) -> bool {
    &&& r.len() == (if s.len() < limit {
        s.len()
    } else {
        limit
    })
    &&& busiest_first(r)
    &&& exists|rest: Multiset<ProcessInfo>|
        r.to_multiset().add(rest) == s.to_multiset() && all_below(rest, r)
}

proof fn lemma_insert_multiset(s: Seq<ProcessInfo>, i: int, p: ProcessInfo)
    requires
        0 <= i <= s.len(),
    ensures
        s.insert(i, p).to_multiset() == s.to_multiset().insert(p),
{
    let t = s.insert(i, p);
    assert(t.remove(i) =~= s);
    assert(t[i] == p);
    assert(t.to_multiset().remove(p) == s.to_multiset());
    assert(t.contains(p));
    assert(t.to_multiset().count(p) > 0);
    assert(t.to_multiset() =~= t.to_multiset().remove(p).insert(p));
}

/// The `limit` processes of `procs` that use the most CPU, busiest first.
/// The contract leaves open which of equally busy processes are taken; this
/// implementation keeps the earlier ones, in their order.
pub fn top_processes(procs: &Vec<ProcessInfo>, limit: usize) -> (r: Vec<ProcessInfo>)
    ensures
        is_top(r@, procs@, limit as nat),
{
    let mut r: Vec<ProcessInfo> = Vec::new();
    let ghost mut rest: Multiset<ProcessInfo> = Multiset::empty();
    let mut i: usize = 0;
    proof {
        assert(procs@.take(0) =~= Seq::<ProcessInfo>::empty());
        assert(r@.to_multiset().add(rest) =~= procs@.take(0).to_multiset());
    }
    while i < procs.len()
        invariant
            0 <= i <= procs.len(),
            r.len() == (if (i as nat) < (limit as nat) {
                i as nat
            } else {
                limit as nat
            }),
            busiest_first(r@),
            r@.to_multiset().add(rest) == procs@.take(i as int).to_multiset(),
            all_below(rest, r@),
            r.len() < limit ==> rest == Multiset::<ProcessInfo>::empty(),
        decreases procs.len() - i,
    {
        let p = procs[i].duplicate();
        proof {
            assert(procs@.take(i + 1) =~= procs@.take(i as int).push(p));
        }
        let mut pos: usize = 0;
        while pos < r.len() && r[pos].cpu_tenths >= p.cpu_tenths
            invariant
                0 <= pos <= r.len(),
                forall|k: int| 0 <= k < pos ==> r@[k].cpu_tenths >= p.cpu_tenths,
            decreases r.len() - pos,
        {
            pos = pos + 1;
        }
        let ghost r0 = r@;
        if pos < limit {
            r.insert(pos, p);
            proof {
                lemma_insert_multiset(r0, pos as int, p);
                assert(busiest_first(r@)) by {
                    assert forall|a: int, b: int| 0 <= a < b < r@.len() implies r@[a].cpu_tenths
                        >= r@[b].cpu_tenths by {
                        if b < pos {
                        } else if b == pos {
                        } else if a < pos {
                            assert(r@[b] == r0[b - 1]);
                        } else if a == pos {
                            assert(r0[pos as int].cpu_tenths < p.cpu_tenths);
                            assert(r@[b] == r0[b - 1]);
                        } else {
                            assert(r@[a] == r0[a - 1]);
                            assert(r@[b] == r0[b - 1]);
                        }
                    }
                }
                assert(all_below(rest, r@)) by {
                    assert forall|x: ProcessInfo, k: int|
                        #![trigger rest.count(x), r@[k]]
                        rest.count(x) > 0 && 0 <= k < r@.len() implies x.cpu_tenths
                        <= r@[k].cpu_tenths by {
                        if k < pos {
                            assert(r@[k] == r0[k]);
                        } else if k == pos {
                            if r0.len() < limit {
                                assert(rest.count(x) == 0);
                            } else {
                                assert(r0[pos as int].cpu_tenths < p.cpu_tenths);
                            }
                        } else {
                            assert(r@[k] == r0[k - 1]);
                        }
                    }
                }
                assert(r@.to_multiset().add(rest) =~= procs@.take(i + 1).to_multiset());
            }
            if r.len() > limit {
                let ghost r1 = r@;
                let e = r.pop().unwrap();
                proof {
                    let rest0 = rest;
                    assert(r1.remove(r1.len() - 1) =~= r@);
                    assert(r1[r1.len() - 1] == e);
                    assert(r1.to_multiset().remove(e) == r@.to_multiset());
                    assert(r1.contains(e));
                    assert(r1.to_multiset() =~= r@.to_multiset().insert(e));
                    rest = rest0.insert(e);
                    assert(r@.to_multiset().add(rest) =~= r1.to_multiset().add(rest0));
                    assert(all_below(rest, r@)) by {
                        assert forall|x: ProcessInfo, k: int|
                            #![trigger rest.count(x), r@[k]]
                            rest.count(x) > 0 && 0 <= k < r@.len() implies x.cpu_tenths
                            <= r@[k].cpu_tenths by {
                            assert(r@[k] == r1[k]);
                            if x != e {
                                assert(rest0.count(x) > 0);
                            }
                        }
                    }
                }
            }
        } else {
            proof {
                let rest0 = rest;
                rest = rest0.insert(p);
                assert(r@.to_multiset().add(rest) =~= procs@.take(i + 1).to_multiset());
                assert(all_below(rest, r@)) by {
                    assert forall|x: ProcessInfo, k: int|
                        #![trigger rest.count(x), r@[k]]
                        rest.count(x) > 0 && 0 <= k < r@.len() implies x.cpu_tenths
                        <= r@[k].cpu_tenths by {
                        if x != p {
                            assert(rest0.count(x) > 0);
                        }
                    }
                }
            }
        }
        i = i + 1;
    }
    proof {
        assert(procs@.take(i as int) =~= procs@);
    }
    r
}

} // verus!
