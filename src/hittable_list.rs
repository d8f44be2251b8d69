use vstd::prelude::*;

verus! {

/// An ordered collection of surfaces, queried as one composite surface.
pub struct HittableList<H> {
    objects: Vec<H>,
}

impl<H> View for HittableList<H> {
    type V = Seq<H>;

    closed spec fn view(&self) -> Seq<H> {
        self.objects@
    }
}

impl<H> HittableList<H> {
    pub fn new() -> (r: Self)
        ensures
            r@ == Seq::<H>::empty(),
    {
        HittableList { objects: Vec::new() }
    }

    pub fn add(&mut self, object: H)
        ensures
            final(self)@ == old(self)@.push(object),
    {
        self.objects.push(object);
    }

    pub fn len(&self) -> (r: usize)
        ensures
            r == self@.len(),
    {
        self.objects.len()
    }

    pub fn get(&self, i: usize) -> (r: &H)
        requires
            i < self@.len(),
        ensures
            *r == self@[i as int],
    {
        &self.objects[i]
    }
}

/// Whether `k` is a hit with a parameter no greater than that of every hit
/// in `hits`.
pub open spec fn is_nearest(hits: Seq<Option<u64>>, k: int) -> bool {
    &&& 0 <= k < hits.len()
    &&& hits[k] is Some
    &&& forall|i: int| 0 <= i < hits.len() && hits[i] is Some
        ==> hits[k]->0 <= hits[i]->0
}

/// Picks, out of the members' own hits within the query interval, the one a
/// composite surface reports: the nearest, and among equally near ones the
/// last in member order. Each hit is given by a key that orders as the ray
/// parameter does; `None` marks a member that was missed.
pub fn closest_hit(hits: &Vec<Option<u64>>) -> (r: Option<usize>)
    ensures
        r is None <==> forall|i: int| 0 <= i < hits@.len() ==> hits@[i] is None,
        r matches Some(k) ==> is_nearest(hits@, k as int),
        r matches Some(k) ==> forall|i: int|
            k < i < hits@.len() && hits@[i] is Some ==> hits@[k as int]->0 < hits@[i]->0,
{
    let mut best: Option<usize> = None;
    let mut closest: u64 = 0;
    let mut i: usize = 0;
    while i < hits.len()
        invariant
            i <= hits@.len(),
            best is None <==> forall|m: int| 0 <= m < i ==> hits@[m] is None,
            best matches Some(k) ==> {
                &&& k < i
                &&& hits@[k as int] == Some(closest)
                &&& forall|m: int| 0 <= m < i && hits@[m] is Some ==> closest <= hits@[m]->0
                &&& forall|m: int| k < m < i && hits@[m] is Some ==> closest < hits@[m]->0
            },
        decreases hits@.len() - i,
    {
        if let Some(t) = hits[i] {
            if best.is_none() || t <= closest {
                best = Some(i);
                closest = t;
            }
        }
        i = i + 1;
    }
    best
}

} // verus!
