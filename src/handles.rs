use vstd::prelude::*;
use std::collections::HashMap;
use crate::info::Error;

verus! {

broadcast use vstd::std_specs::hash::group_hash_axioms;

/// The table after one more owner of `h` was added.
pub open spec fn after_retain(m: Map<u64, u32>, h: u64) -> Map<u64, u32> {
    m.insert(h, (m[h] + 1) as u32)
}

/// The table after one owner of `h` let go: the last one removes the handle.
pub open spec fn after_release(m: Map<u64, u32>, h: u64) -> Map<u64, u32> {
    if !m.contains_key(h) {
        m
    } else if m[h] <= 1 {
        m.remove(h)
    } else {
        m.insert(h, (m[h] - 1) as u32)
    }
}

/// The table after `k` owners were added to `h`.
pub open spec fn retain_times(m: Map<u64, u32>, h: u64, k: nat) -> Map<u64, u32>
    decreases k,
{
    if k == 0 {
        m
    } else {
        after_retain(retain_times(m, h, (k - 1) as nat), h)
    }
}

/// The table after `k` owners of `h` let go, one after another.
pub open spec fn release_times(m: Map<u64, u32>, h: u64, k: nat) -> Map<u64, u32>
    decreases k,
{
    if k == 0 {
        m
    } else {
        after_release(release_times(m, h, (k - 1) as nat), h)
    }
}

/// A table is well formed when the null handle is never in it and every
/// handle in it has at least one owner.
pub open spec fn table_wf(m: Map<u64, u32>) -> bool {
    &&& !m.contains_key(0)
    &&& forall|h: u64| #[trigger] m.contains_key(h) ==> m[h] >= 1
}

/// The live native handles and how many owners each one has. A handle leaves
/// the table exactly when its last owner releases it, which is the moment the
/// native resource is to be freed.
pub struct HandleTable {
    refs: HashMap<u64, u32>,
}

impl View for HandleTable {
    type V = Map<u64, u32>;

    closed spec fn view(&self) -> Map<u64, u32> {
        self.refs@
    }
}

impl HandleTable {
    pub open spec fn wf(&self) -> bool {
        table_wf(self@)
    }

    /// A table with no live handle.
    pub fn new() -> (t: HandleTable)
        ensures
            t@ == Map::<u64, u32>::empty(),
            t.wf(),
    {
        HandleTable { refs: HashMap::new() }
    }

    /// Whether `h` is live, that is owned by at least one wrapper.
    pub fn is_live(&self, h: u64) -> (b: bool)
        ensures
            b == self@.contains_key(h),
    {
        self.refs.contains_key(&h)
    }

    /// How many owners `h` has, or `None` if it is not live.
    pub fn owners(&self, h: u64) -> (r: Option<u32>)
        ensures
            r == (if self@.contains_key(h) { Some(self@[h]) } else { None::<u32> }),
    {
        match self.refs.get(&h) {
            Some(c) => Some(*c),
            None => None,
        }
    }

    /// Takes ownership of a handle that a native factory returned. A null
    /// handle means the factory failed: nothing is recorded and the result is
    /// `Unknown`.
    pub fn adopt(&mut self, h: u64) -> (r: Result<(), Error>)
        requires
            old(self).wf(),
            !old(self)@.contains_key(h),
        ensures
            final(self).wf(),
            h == 0 ==> r == Err::<(), Error>(Error::Unknown) && final(self)@ == old(self)@,
            h != 0 ==> r == Ok::<(), Error>(()) && final(self)@ == old(self)@.insert(h, 1),
    {
        if h == 0 {
            Err(Error::Unknown)
        } else {
            self.refs.insert(h, 1);
            Ok(())
        }
    }

    /// Adds one owner to a live handle, as the backend's `ref` does.
    pub fn retain(&mut self, h: u64)
        requires
            old(self).wf(),
            old(self)@.contains_key(h),
            old(self)@[h] < u32::MAX,
        ensures
            final(self).wf(),
            final(self)@ == after_retain(old(self)@, h),
    {
        let c = *self.refs.get(&h).unwrap();
        self.refs.insert(h, c + 1);
    }

    /// One owner of a live handle lets go, as the backend's `unref` does.
    /// Returns whether that was the last owner, in which case the native
    /// resource is freed and the handle is no longer live.
    pub fn release(&mut self, h: u64) -> (freed: bool)
        requires
            old(self).wf(),
            old(self)@.contains_key(h),
        ensures
            final(self).wf(),
            final(self)@ == after_release(old(self)@, h),
            freed == (old(self)@[h] == 1),
            freed == !final(self)@.contains_key(h),
    {
        let c = *self.refs.get(&h).unwrap();
        if c <= 1 {
            self.refs.remove(&h);
            true
        } else {
            self.refs.insert(h, c - 1);
            false
        }
    }
}

proof fn lemma_retain_times(m: Map<u64, u32>, h: u64, k: nat)
    requires
        m.contains_key(h),
        m[h] + k <= u32::MAX,
    ensures
        retain_times(m, h, k) == m.insert(h, (m[h] + k) as u32),
    decreases k,
{
    if k > 0 {
        lemma_retain_times(m, h, (k - 1) as nat);
        assert(retain_times(m, h, k) =~= m.insert(h, (m[h] + k) as u32));
    } else {
        assert(m.insert(h, m[h]) =~= m);
    }
}

proof fn lemma_release_times(m: Map<u64, u32>, h: u64, j: nat)
    requires
        m.contains_key(h),
        j < m[h],
    ensures
        release_times(m, h, j) == m.insert(h, (m[h] - j) as u32),
        release_times(m, h, (j + 1) as nat) == (if m[h] - j == 1 { m.remove(h) } else {
            m.insert(h, (m[h] - j - 1) as u32)
        }),
    decreases j,
{
    if j > 0 {
        lemma_release_times(m, h, (j - 1) as nat);
    } else {
        assert(m.insert(h, m[h]) =~= m);
    }
    let p = release_times(m, h, j);
    assert(p.contains_key(h) && p[h] == m[h] - j);
    if m[h] - j == 1 {
        assert(p.remove(h) =~= m.remove(h));
    } else {
        assert(p.insert(h, (p[h] - 1) as u32) =~= m.insert(h, (m[h] - j - 1) as u32));
    }
}

/// A handle that one wrapper owns and that was shared `k` more times is
/// released exactly once: the first `k` owners to let go leave it live, the
/// last one frees it, and no other handle changes along the way.
pub proof fn lemma_released_exactly_once(m: Map<u64, u32>, h: u64, k: nat)
    requires
        table_wf(m),
        m.contains_key(h),
        m[h] == 1,
        k < u32::MAX,
    ensures
        forall|j: nat| j <= k ==> {
            let t = #[trigger] release_times(retain_times(m, h, k), h, j);
            t.contains_key(h) && t[h] == k + 1 - j
        },
        release_times(retain_times(m, h, k), h, k + 1) == m.remove(h),
{
    lemma_retain_times(m, h, k);
    let shared = retain_times(m, h, k);
    assert forall|j: nat| j <= k implies {
        let t = #[trigger] release_times(shared, h, j);
        t.contains_key(h) && t[h] == k + 1 - j
    } by {
        lemma_release_times(shared, h, j);
    }
    lemma_release_times(shared, h, k);
    assert(shared.remove(h) =~= m.remove(h));
}

/// Every operation of the table keeps it well formed.
pub proof fn lemma_table_ops_keep_wf(m: Map<u64, u32>, h: u64)
    requires
        table_wf(m),
        m.contains_key(h),
        m[h] < u32::MAX,
    ensures
        table_wf(after_retain(m, h)),
        table_wf(after_release(m, h)),
{
}

} // verus!
