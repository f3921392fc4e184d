//! What the core reads of an update package, and which of its objects are
//! still to be fetched.

use crate::target_type::TargetType;
use crate::text::holds;
use crate::text::texts;
use vstd::prelude::*;

verus! {

/// One payload of a package, addressed by the hash of its content.
#[derive(Debug, Clone, PartialEq, Eq)]
pub struct Object {
    pub sha256sum: String,
    pub target: TargetType,
}

/// The hardware that a package is made for.
#[derive(Debug, Clone, PartialEq, Eq)]
pub enum SupportedHardware {
    Any,
    List(Vec<String>),
}

/// A parsed update package.
#[derive(Debug, Clone, PartialEq, Eq)]
pub struct UpdatePackage {
    /// The stable identifier of the package.
    pub uid: String,
    pub supported_hardware: SupportedHardware,
    pub objects: Vec<Object>,
}

/// The signature that came with a package.
#[derive(Debug, Clone, PartialEq, Eq)]
pub struct Signature {
    pub bytes: Vec<u8>,
}

/// The hashes that are fetched, in order, to complete a store that holds
/// `store`: each hash of `hashes` that the store lacks when its turn comes.
pub open spec fn download_plan(hashes: Seq<Seq<char>>, store: Set<Seq<char>>) -> Seq<Seq<char>>
    decreases hashes.len(),
{
    if hashes.len() == 0 {
        Seq::empty()
    } else if store.contains(hashes[0]) {
        download_plan(hashes.subrange(1, hashes.len() as int), store)
    } else {
        seq![hashes[0]] + download_plan(
            hashes.subrange(1, hashes.len() as int),
            store.insert(hashes[0]),
        )
    }
}

/// The store after the first `done` fetches of `plan` were made.
pub open spec fn store_after(store: Set<Seq<char>>, plan: Seq<Seq<char>>, done: int) -> Set<
    Seq<char>,
> {
    store.union(plan.subrange(0, done).to_set())
}

impl UpdatePackage {
    /// The content hashes of the objects, in the order of the package.
    pub open spec fn hashes(&self) -> Seq<Seq<char>> {
        self.objects@.map_values(|o: Object| o.sha256sum@)
    }

    /// Whether the package is made for the given hardware.
    pub open spec fn supports(&self, hardware: Seq<char>) -> bool {
        match self.supported_hardware {
            SupportedHardware::Any => true,
            SupportedHardware::List(list) => texts(list@).contains(hardware),
        }
    }

    /// Whether a store that holds `store` has every object of the package.
    pub open spec fn ready_in(&self, store: Set<Seq<char>>) -> bool {
        forall|i: int| 0 <= i < self.hashes().len() ==> store.contains(#[trigger] self.hashes()[i])
    }

    pub fn package_uid(&self) -> (r: String)
        ensures
            r == self.uid,
    {
        self.uid.clone()
    }

    pub fn compatible_with(&self, hardware: &str) -> (r: bool)
        ensures
            r == self.supports(hardware@),
    {
        match &self.supported_hardware {
            SupportedHardware::Any => true,
            SupportedHardware::List(list) => holds(list, hardware),
        }
    }

    /// The objects to fetch, given the hashes that the object store
    /// holds: those that the store lacks, each once, in the order of the
    /// package.
    pub fn missing_objects(&self, present: &Vec<String>) -> (r: Vec<String>)
        ensures
            texts(r@) == download_plan(self.hashes(), texts(present@).to_set()),
    {
        let mut out: Vec<String> = Vec::new();
        let mut i: usize = 0;
        let ghost all = self.hashes();
        let ghost store = texts(present@).to_set();
        proof {
            assert(all.subrange(0, all.len() as int) == all);
            assert(texts(out@) == Seq::<Seq<char>>::empty());
            assert(store.union(texts(out@).to_set()) == store);
            assert(Seq::<Seq<char>>::empty() + download_plan(all, store) == download_plan(
                all,
                store,
            ));
        }
        while i < self.objects.len()
            invariant
                i <= self.objects.len(),
                all == self.hashes(),
                store == texts(present@).to_set(),
                download_plan(all, store) == texts(out@) + download_plan(
                    all.subrange(i as int, all.len() as int),
                    store.union(texts(out@).to_set()),
                ),
            decreases self.objects.len() - i,
        {
            let hash: &String = &self.objects[i].sha256sum;
            let ghost rest = all.subrange(i as int, all.len() as int);
            let ghost seen = store.union(texts(out@).to_set());
            proof {
                assert(rest[0] == hash@);
                assert(rest.subrange(1, rest.len() as int) == all.subrange(
                    i + 1,
                    all.len() as int,
                ));
            }
            if !holds(present, hash.as_str()) && !holds(&out, hash.as_str()) {
                let ghost before = texts(out@);
                out.push(hash.clone());
                proof {
                    assert(texts(out@) == before.push(hash@));
                    assert(before.push(hash@) == before + seq![hash@]);
                    assert(store.union(texts(out@).to_set()) == seen.insert(hash@)) by {
                        assert forall|x: Seq<char>| #[trigger]
                            texts(out@).to_set().contains(x) <==> (before.to_set().contains(x)
                                || x == hash@) by {
                            if before.contains(x) {
                                let k = choose|k: int| 0 <= k < before.len() && before[k] == x;
                                assert(texts(out@)[k] == x);
                            }
                            if x == hash@ {
                                assert(texts(out@)[before.len() as int] == x);
                            }
                        }
                    }
                    assert(before + (seq![hash@] + download_plan(
                        rest.subrange(1, rest.len() as int),
                        seen.insert(hash@),
                    )) == (before + seq![hash@]) + download_plan(
                        rest.subrange(1, rest.len() as int),
                        seen.insert(hash@),
                    ));
                }
            } else {
                proof {
                    assert(seen.contains(hash@));
                }
            }
            i = i + 1;
        }
        proof {
            assert(texts(out@) + Seq::<Seq<char>>::empty() == texts(out@));
        }
        out
    }

    /// Whether every object of the package is among the hashes that the
    /// object store holds.
    pub fn objects_ready(&self, present: &Vec<String>) -> (r: bool)
        ensures
            r == self.ready_in(texts(present@).to_set()),
    {
        let mut i: usize = 0;
        while i < self.objects.len()
            invariant
                i <= self.objects.len(),
                forall|k: int|
                    0 <= k < i ==> texts(present@).to_set().contains(#[trigger] self.hashes()[k]),
            decreases self.objects.len() - i,
        {
            if !holds(present, self.objects[i].sha256sum.as_str()) {
                assert(!texts(present@).to_set().contains(self.hashes()[i as int]));
                return false;
            }
            i = i + 1;
        }
        true
    }
}

/// Every fetch of a plan adds a hash that the package names, and when the
/// plan is done the store holds what it held and every hash of the package.
pub proof fn lemma_plan_completes(hashes: Seq<Seq<char>>, store: Set<Seq<char>>)
    ensures
        store_after(store, download_plan(hashes, store), download_plan(hashes, store).len() as int)
            == store.union(hashes.to_set()),
    decreases hashes.len(),
{
    let plan = download_plan(hashes, store);
    assert(plan.subrange(0, plan.len() as int) == plan);
    if hashes.len() == 0 {
        assert(store.union(plan.to_set()) == store.union(hashes.to_set()));
    } else {
        let rest = hashes.subrange(1, hashes.len() as int);
        let h = hashes[0];
        assert forall|x: Seq<char>| #[trigger] hashes.to_set().contains(x) <==> (x == h
            || rest.to_set().contains(x)) by {
            if hashes.contains(x) {
                let k = choose|k: int| 0 <= k < hashes.len() && hashes[k] == x;
                if k > 0 {
                    assert(rest[k - 1] == x);
                }
            }
            if rest.contains(x) {
                let k = choose|k: int| 0 <= k < rest.len() && rest[k] == x;
                assert(hashes[k + 1] == x);
            }
            if x == h {
                assert(hashes[0] == x);
            }
        }
        if store.contains(h) {
            lemma_plan_completes(rest, store);
            let p = download_plan(rest, store);
            assert(p.subrange(0, p.len() as int) == p);
            assert(store.union(plan.to_set()) == store.union(hashes.to_set()));
        } else {
            lemma_plan_completes(rest, store.insert(h));
            let p = download_plan(rest, store.insert(h));
            assert(p.subrange(0, p.len() as int) == p);
            assert(plan == seq![h] + p);
            assert forall|x: Seq<char>| #[trigger] plan.to_set().contains(x) <==> (x == h
                || p.to_set().contains(x)) by {
                if plan.contains(x) {
                    let k = choose|k: int| 0 <= k < plan.len() && plan[k] == x;
                    if k > 0 {
                        assert(p[k - 1] == x);
                    }
                }
                if p.contains(x) {
                    let k = choose|k: int| 0 <= k < p.len() && p[k] == x;
                    assert(plan[k + 1] == x);
                }
                if x == h {
                    assert(plan[0] == x);
                }
            }
            assert(store.union(plan.to_set()) == store.insert(h).union(p.to_set()));
            assert(store.insert(h).union(rest.to_set()) == store.union(hashes.to_set()));
        }
    }
}

/// A download that is interrupted after any number of its fetches and then
/// started again leaves the store as an uninterrupted download does.
pub proof fn lemma_download_resumes(hashes: Seq<Seq<char>>, store: Set<Seq<char>>, done: int)
    requires
        0 <= done <= download_plan(hashes, store).len(),
    ensures
        ({
            let interrupted = store_after(store, download_plan(hashes, store), done);
            let again = download_plan(hashes, interrupted);
            store_after(interrupted, again, again.len() as int)
        }) == store_after(
            store,
            download_plan(hashes, store),
            download_plan(hashes, store).len() as int,
        ),
{
    let plan = download_plan(hashes, store);
    let interrupted = store_after(store, plan, done);
    lemma_plan_completes(hashes, store);
    lemma_plan_completes(hashes, interrupted);
    assert(plan.subrange(0, plan.len() as int) == plan);
    assert forall|x: Seq<char>| plan.subrange(0, done).to_set().contains(x) implies store.union(
        hashes.to_set(),
    ).contains(x) by {
        let k = choose|k: int| 0 <= k < done && plan.subrange(0, done)[k] == x;
        assert(plan[k] == x);
        assert(plan.to_set().contains(x));
        assert(store.union(plan.to_set()).contains(x));
    }
    assert(interrupted.union(hashes.to_set()) == store.union(hashes.to_set()));
}

} // verus!
