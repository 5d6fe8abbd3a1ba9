use vstd::prelude::*;

verus! {

/// An arena with an optional active index and a living boundary: the
/// elements before `dead` are alive, those from `dead` on have fainted.
/// When set, `active` is always below `dead`.
#[derive(Debug)]
pub struct PointerVec<T> {
    pub active: Option<usize>,
    pub data: Vec<T>,
    pub dead: usize,
}

/// `s` with the elements at `i` and `j` exchanged.
pub open spec fn swapped<T>(s: Seq<T>, i: int, j: int) -> Seq<T> {
    s.update(i, s[j]).update(j, s[i])
}

impl<T> PointerVec<T> {
    pub open spec fn wf(&self) -> bool {
        &&& self.dead <= self.data@.len()
        &&& self.active matches Some(i) ==> i < self.dead
    }

    /// The number of living elements.
    pub open spec fn living_count(&self) -> nat {
        self.dead as nat
    }

    /// All elements alive, the first one active.
    pub fn from(value: Vec<T>) -> (r: Self)
        requires
            value@.len() > 0,
        ensures
            r.wf(),
            r.data@ == value@,
            r.dead == value@.len(),
            r.active == Some(0usize),
    {
        PointerVec { active: Some(0), dead: value.len(), data: value }
    }

    pub fn len(&self) -> (r: usize)
        ensures
            r == self.data@.len(),
    {
        self.data.len()
    }

    pub fn get(&self, index: usize) -> (r: &T)
        requires
            index < self.data@.len(),
        ensures
            *r == self.data@[index as int],
    {
        &self.data[index]
    }

    pub fn get_mut(&mut self, index: usize) -> (r: &mut T)
        requires
            index < old(self).data@.len(),
        ensures
            *r == old(self).data@[index as int],
            final(self).data@ == old(self).data@.update(index as int, *final(r)),
            final(self).active == old(self).active,
            final(self).dead == old(self).dead,
    {
        &mut self.data[index]
    }

    /// The active element, if any.
    pub fn active(&self) -> (r: Option<&T>)
        requires
            self.wf(),
        ensures
            r is Some <==> self.active is Some,
            r matches Some(x) ==> *x == self.data@[self.active->0 as int],
    {
        if let Some(i) = self.active {
            Some(&self.data[i])
        } else {
            None
        }
    }

    /// The active element, mutably.
    pub fn active_mut(&mut self) -> (r: &mut T)
        requires
            old(self).wf(),
            old(self).active is Some,
        ensures
            *r == old(self).data@[old(self).active->0 as int],
            final(self).data@ == old(self).data@.update(old(self).active->0 as int, *final(r)),
            final(self).active == old(self).active,
            final(self).dead == old(self).dead,
    {
        let i = self.active.unwrap();
        &mut self.data[i]
    }

    /// Retires the active element: it is exchanged with the last living one,
    /// the living boundary moves down by one, and nothing is active.
    pub fn kill(&mut self)
        requires
            old(self).wf(),
            old(self).active is Some,
        ensures
            final(self).wf(),
            final(self).active is None,
            final(self).dead == old(self).dead - 1,
            final(self).data@ == swapped(old(self).data@, old(self).active->0 as int, old(self).dead - 1),
    {
        let i = self.active.unwrap();
        let j = self.dead - 1;
        if i < j {
            let b = self.data.remove(j);
            let a = self.data.remove(i);
            self.data.insert(i, b);
            self.data.insert(j, a);
        }
        assert(self.data@ =~= swapped(old(self).data@, i as int, j as int));
        self.dead = j;
        self.active = None;
    }

    /// Leaves nothing active.
    pub fn deactivate(&mut self)
        requires
            old(self).wf(),
        ensures
            final(self).wf(),
            final(self).active is None,
            final(self).data@ == old(self).data@,
            final(self).dead == old(self).dead,
    {
        self.active = None;
    }

    /// The living elements.
    pub fn living(&self) -> (r: &[T])
        requires
            self.wf(),
        ensures
            r@ == self.data@.subrange(0, self.dead as int),
    {
        self.data.as_slice().split_at(self.dead).0
    }
}

} // verus!
