//! The results that were handed to the host and not yet given back.
use vstd::prelude::*;

verus! {

/// The handles of the results that the host still holds. A handle is given
/// back at most once: releasing it again, or releasing a handle that was
/// never handed out, changes nothing.
pub struct ResultRegistry {
    live: Vec<u64>,
}

impl View for ResultRegistry {
    type V = Set<u64>;

    closed spec fn view(&self) -> Set<u64> {
        Set::new(|h: u64| self.live@.contains(h))
    }
}

impl ResultRegistry {
    /// The registry of a host that holds nothing.
    pub fn new() -> (r: ResultRegistry)
        ensures
            r@ == Set::<u64>::empty(),
    {
        let r = ResultRegistry { live: Vec::new() };
        assert(r@ =~= Set::<u64>::empty());
        r
    }

    /// Whether the host holds the result with this handle.
    pub fn is_live(&self, handle: u64) -> (b: bool)
        ensures
            b == self@.contains(handle),
    {
        let mut i: usize = 0;
        while i < self.live.len()
            invariant
                i <= self.live.len(),
                forall|j: int| 0 <= j < i ==> self.live@[j] != handle,
            decreases self.live.len() - i,
        {
            if self.live[i] == handle {
                assert(self.live@.contains(handle));
                return true;
            }
            i += 1;
        }
        false
    }

    /// Records that the result with this handle was handed to the host.
    pub fn register(&mut self, handle: u64)
        ensures
            final(self)@ == old(self)@.insert(handle),
    {
        self.live.push(handle);
        assert forall|h: u64| self@.contains(h) <==> old(self)@.insert(handle).contains(h) by {
            if old(self).live@.contains(h) {
                let j = choose|j: int| 0 <= j < old(self).live@.len() && old(self).live@[j] == h;
                assert(self.live@[j] == h);
            }
            if h == handle {
                assert(self.live@[self.live@.len() - 1] == h);
            }
        }
        assert(self@ =~= old(self)@.insert(handle));
    }

    /// Takes the handle out of the registry. The result is `true` when the
    /// host held the handle, and its storage is now to be freed; `false`
    /// when there is nothing to free.
    pub fn release(&mut self, handle: u64) -> (freed: bool)
        ensures
            freed == old(self)@.contains(handle),
            final(self)@ == old(self)@.remove(handle),
    {
        let mut kept: Vec<u64> = Vec::new();
        let mut freed = false;
        let mut i: usize = 0;
        while i < self.live.len()
            invariant
                i <= self.live.len(),
                self.live@ == old(self).live@,
                forall|k: int|
                    0 <= k < kept.len() ==> (#[trigger] kept@[k]) != handle
                        && self.live@.contains(kept@[k]),
                forall|j: int|
                    0 <= j < i && (#[trigger] self.live@[j]) != handle ==> kept@.contains(
                        self.live@[j],
                    ),
                freed <==> exists|j: int| 0 <= j < i && self.live@[j] == handle,
            decreases self.live.len() - i,
        {
            let h = self.live[i];
            if h == handle {
                freed = true;
            } else {
                let ghost before = kept@;
                kept.push(h);
                assert(kept@[kept@.len() - 1] == h);
                assert forall|j: int|
                    0 <= j < i + 1 && (#[trigger] self.live@[j]) != handle implies kept@.contains(
                    self.live@[j],
                ) by {
                    if j < i {
                        let k = choose|k: int| 0 <= k < before.len() && before[k] == self.live@[j];
                        assert(kept@[k] == self.live@[j]);
                    }
                }
            }
            i += 1;
        }
        self.live = kept;
        assert(self@ =~= old(self)@.remove(handle));
        freed
    }
}

} // verus!
