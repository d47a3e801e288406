use vstd::prelude::*;

verus! {

/// Most positions a trail remembers.
pub const TRAIL_LEN: usize = 18;

/// A bounded first-in first-out record of recent positions.
pub struct Trail<T> {
    items: Vec<T>,
}

/// The trail after appending `x` to `t`: the oldest entry is dropped once
/// the trail is full.
pub open spec fn trail_step<T>(t: Seq<T>, x: T) -> Seq<T> {
    if t.len() >= TRAIL_LEN {
        t.drop_first().push(x)
    } else {
        t.push(x)
    }
}

/// The trail after appending every element of `s`, in order, to an empty trail.
pub open spec fn trail_of<T>(s: Seq<T>) -> Seq<T>
    decreases s.len(),
{
    if s.len() == 0 {
        Seq::empty()
    } else {
        trail_step(trail_of(s.drop_last()), s.last())
    }
}

/// The last `TRAIL_LEN` elements of `s` (all of them if there are fewer).
pub open spec fn most_recent<T>(s: Seq<T>) -> Seq<T> {
    if s.len() > TRAIL_LEN {
        s.subrange(s.len() - TRAIL_LEN, s.len() as int)
    } else {
        s
    }
}

impl<T> View for Trail<T> {
    type V = Seq<T>;

    closed spec fn view(&self) -> Seq<T> {
        self.items@
    }
}

impl<T> Trail<T> {
    /// The trail never holds more than `TRAIL_LEN` positions.
    pub open spec fn wf(&self) -> bool {
        self@.len() <= TRAIL_LEN
    }

    /// An empty trail.
    pub fn new() -> (r: Trail<T>)
        ensures
            r@ == Seq::<T>::empty(),
            r.wf(),
    {
        Trail { items: Vec::new() }
    }

    /// Number of positions held.
    pub fn len(&self) -> (r: usize)
        ensures
            r == self@.len(),
    {
        self.items.len()
    }

    /// The positions held, oldest first.
    pub fn as_slice(&self) -> (r: &[T])
        ensures
            r@ == self@,
    {
        self.items.as_slice()
    }

    /// Forgets every position.
    pub fn clear(&mut self)
        ensures
            final(self)@ == Seq::<T>::empty(),
            final(self).wf(),
    {
        self.items.clear();
    }

    /// Appends `x`, evicting the oldest position once the trail is full.
    pub fn push(&mut self, x: T)
        requires
            old(self).wf(),
        ensures
            final(self)@ == trail_step(old(self)@, x),
            final(self).wf(),
    {
        if self.items.len() >= TRAIL_LEN {
            self.items.remove(0);
        }
        self.items.push(x);
    }
}

/// Appending the elements of `s` one by one to an empty trail leaves exactly
/// the most recent `TRAIL_LEN` of them, in the order they were appended;
/// the trail is never longer than `TRAIL_LEN`.
pub proof fn lemma_trail_keeps_most_recent<T>(s: Seq<T>)
    ensures
        trail_of(s) == most_recent(s),
        trail_of(s).len() <= TRAIL_LEN,
    decreases s.len(),
{
    if s.len() > 0 {
        let p = s.drop_last();
        lemma_trail_keeps_most_recent(p);
        if p.len() >= TRAIL_LEN {
            assert(trail_of(s) =~= most_recent(s));
        } else {
            assert(trail_of(s) =~= most_recent(s));
        }
    } else {
        assert(trail_of(s) =~= most_recent(s));
    }
}

} // verus!
