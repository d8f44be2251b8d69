use vstd::prelude::*;

verus! {

/// Two values of one type that bound an interval: where a moving sphere's
/// center starts and ends, or when its motion starts and ends.
#[derive(Clone, Copy, Debug)]
pub struct StartEndPair<T> {
    start: T,
    end: T,
}

impl<T> StartEndPair<T> {
    pub closed spec fn start_spec(&self) -> T {
        self.start
    }

    pub closed spec fn end_spec(&self) -> T {
        self.end
    }

    pub fn new(start: T, end: T) -> (r: Self)
        ensures
            r.start_spec() == start,
            r.end_spec() == end,
    {
        StartEndPair { start, end }
    }

    pub fn start(&self) -> (r: &T)
        ensures
            *r == self.start_spec(),
    {
        &self.start
    }

    pub fn end(&self) -> (r: &T)
        ensures
            *r == self.end_spec(),
    {
        &self.end
    }
}

} // verus!
