use vstd::prelude::*;
use crate::platform::Randomness;

verus! {

/// An enumeration whose values are numbered 0 .. size().
///
/// `from_index` is total on that range and rejects everything outside it,
/// which is what lets a uniform draw pick a valid value.
pub trait SizedEnum: Sized {
    spec fn size_spec() -> usize;

    /// How many values the enumeration has.
    fn size() -> (n: usize)
        ensures
            n == Self::size_spec(),
            0 < n <= 0xffff_ffffusize,
    ;

    /// The value numbered `i`, if there is one.
    fn from_index(i: usize) -> (r: Option<Self>)
        ensures
            r is Some <==> i < Self::size_spec(),
    ;

    /// Walk the values in numbering order.
    fn iter() -> (it: SizedEnumIterator<Self>)
        ensures
            it.current == 0,
    {
        SizedEnumIterator { current: 0, phantom: core::marker::PhantomData }
    }

    /// A uniformly drawn value of the enumeration.
    ///
    /// Every index below `size` names a value, so one uniform draw over
    /// the indices picks a value uniformly.
    fn random(rng: &mut Randomness) -> Self {
        let n = Self::size();
        let draw = rng.uniform_below(n as u32);
        match Self::from_index(draw as usize) {
            Some(t) => t,
            None => vstd::pervasive::unreached(),
        }
    }
}

/// Yields each value of a sized enumeration once, in numbering order.
pub struct SizedEnumIterator<T> {
    pub current: usize,
    pub phantom: core::marker::PhantomData<T>,
}

impl<T: SizedEnum> SizedEnumIterator<T> {
    fn new() -> (it: Self)
        ensures
            it.current == 0,
    {
        SizedEnumIterator { current: 0, phantom: core::marker::PhantomData }
    }

    /// The next value, or None once every value has been yielded.
    pub fn next(&mut self) -> (r: Option<T>)
        ensures
            old(self).current < T::size_spec() ==> r is Some && final(self).current == old(self).current + 1,
            old(self).current >= T::size_spec() ==> r is None && final(self).current == old(self).current,
    {
        while self.current < T::size()
            invariant
                self.current == old(self).current,
            decreases T::size_spec() - self.current,
        {
            let result = T::from_index(self.current);
            self.current = self.current + 1;
            if result.is_some() {
                return result;
            }
        }
        None
    }
}

} // verus!
