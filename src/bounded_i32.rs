use vstd::prelude::*;

verus! {

/// The value `v` forced into `[lo, hi]`.
pub open spec fn clamp(v: int, lo: int, hi: int) -> int {
    if v < lo {
        lo
    } else if v > hi {
        hi
    } else {
        v
    }
}

/// An integer that always lies within its own bounds `[min, max]`.
#[derive(Debug, Copy, Clone)]
pub struct BoundedI32 {
    pub data: i32,
    pub min: i32,
    pub max: i32,
}

impl BoundedI32 {
    pub open spec fn wf(self) -> bool {
        self.min <= self.data <= self.max
    }

    /// A bounded value holding `data` clamped into `[min, max]`.
    pub fn new(data: i32, min: i32, max: i32) -> (r: Self)
        requires
            min <= max,
        ensures
            r.wf(),
            r.min == min,
            r.max == max,
            r.data == clamp(data as int, min as int, max as int),
    {
        if data < min {
            Self { data: min, min, max }
        } else if data > max {
            Self { data: max, min, max }
        } else {
            Self { data, min, max }
        }
    }

    /// A value bounded by `[0, data]`, starting full.
    pub fn zero(data: i32) -> (r: Self)
        requires
            data >= 0,
        ensures
            r.wf(),
            r == (Self { data, min: 0, max: data }),
    {
        BoundedI32::new(data, 0, data)
    }

    pub fn is_max(&self) -> (r: bool)
        ensures
            r == (self.data == self.max),
    {
        self.data == self.max
    }

    /// Adds `amount`, saturating at the bounds.
    pub fn raise(&mut self, amount: i64)
        requires
            old(self).wf(),
        ensures
            final(self).wf(),
            final(self).min == old(self).min,
            final(self).max == old(self).max,
            final(self).data == clamp(
                old(self).data + amount,
                old(self).min as int,
                old(self).max as int,
            ),
    {
        let room_up: i64 = self.max as i64 - self.data as i64;
        let room_down: i64 = self.min as i64 - self.data as i64;
        if amount >= room_up {
            self.data = self.max;
        } else if amount <= room_down {
            self.data = self.min;
        } else {
            self.data = (self.data as i64 + amount) as i32;
        }
    }

    /// Subtracts `amount`, saturating at the bounds.
    pub fn lower(&mut self, amount: i64)
        requires
            old(self).wf(),
        ensures
            final(self).wf(),
            final(self).min == old(self).min,
            final(self).max == old(self).max,
            final(self).data == clamp(
                old(self).data - amount,
                old(self).min as int,
                old(self).max as int,
            ),
    {
        let room_up: i64 = self.max as i64 - self.data as i64;
        let room_down: i64 = self.data as i64 - self.min as i64;
        if amount >= room_down {
            self.data = self.min;
        } else if amount <= -room_up {
            self.data = self.max;
        } else {
            self.data = (self.data as i64 - amount) as i32;
        }
    }
}

} // verus!
