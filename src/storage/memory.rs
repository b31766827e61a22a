use crate::storage::{matching, SampleStorage, StorageError};
use crate::{models, Sample, SampleModel};
use std::collections::VecDeque;
use vstd::prelude::*;

verus! {

/// Storage backend that holds the samples in memory, in a single buffer
/// shared by all identifiers. Once `max_size` samples are held, each new
/// sample evicts the oldest one.
pub struct MemoryStorage {
    max_size: usize,
    content: VecDeque<Sample>,
}

impl MemoryStorage {
    /// A store that holds at most `size` samples.
    pub fn new(size: usize) -> (r: MemoryStorage)
        requires
            size > 0,
        ensures
            r.well_formed(),
            r.infallible(),
            r.history() == Seq::<SampleModel>::empty(),
            r.capacity() == size,
    {
        MemoryStorage { max_size: size, content: VecDeque::with_capacity(size) }
    }

    /// The number of samples held.
    pub fn len(&self) -> (r: usize)
        ensures
            r == self.history().len(),
    {
        self.content.len()
    }

    /// Copies of the samples held, oldest first.
    pub fn samples(&self) -> (r: Vec<Sample>)
        ensures
            models(r@) == self.history(),
    {
        let mut out: Vec<Sample> = Vec::new();
        let n = self.content.len();
        let mut i: usize = 0;
        while i < n
            invariant
                n == self.content@.len(),
                i <= n,
                models(out@) =~= models(self.content@.subrange(0, i as int)),
            decreases n - i,
        {
            out.push(self.content[i].duplicate());
            assert(models(self.content@.subrange(0, i + 1)) =~= models(
                self.content@.subrange(0, i as int),
            ).push(self.content@[i as int]@));
            i = i + 1;
        }
        assert(self.content@.subrange(0, n as int) =~= self.content@);
        out
    }
}

impl SampleStorage for MemoryStorage {
    closed spec fn history(&self) -> Seq<SampleModel> {
        models(self.content@)
    }

    closed spec fn capacity(&self) -> nat {
        self.max_size as nat
    }

    closed spec fn well_formed(&self) -> bool {
        &&& self.max_size > 0
        &&& self.content@.len() <= self.max_size
    }

    open spec fn infallible(&self) -> bool {
        true
    }

    open spec fn failed_stores(&self) -> nat {
        0
    }

    fn store(&mut self, sample: Sample) -> (r: Result<(), StorageError>) {
        let ghost h = models(self.content@);
        let ghost m = sample@;
        if self.content.len() >= self.max_size {
            self.content.pop_front();
        }
        self.content.push_back(sample);
        proof {
            let n = self.max_size as nat;
            if h.len() < n {
                assert(models(self.content@) =~= h.push(m));
            } else {
                assert(models(self.content@) =~= h.push(m).subrange(h.len() + 1 - n, h.len() + 1 as int));
            }
        }
        Ok(())
    }

    fn fetch(&self, identifier: &str) -> (r: Result<Vec<Sample>, StorageError>) {
        let wanted = identifier.to_owned();
        let ghost h = models(self.content@);
        let mut out: Vec<Sample> = Vec::new();
        let n = self.content.len();
        let mut i: usize = 0;
        while i < n
            invariant
                n == self.content@.len(),
                h == models(self.content@),
                wanted@ == identifier@,
                i <= n,
                models(out@) == matching(h.subrange(0, i as int), identifier@),
            decreases n - i,
        {
            let sample = &self.content[i];
            let ghost seen = h.subrange(0, i + 1);
            assert(seen.drop_last() =~= h.subrange(0, i as int));
            assert(seen.last() == sample@);
            proof {
                reveal(Seq::filter);
            }
            if sample.identifier == wanted {
                out.push(sample.duplicate());
                assert(models(out@) =~= matching(h.subrange(0, i as int), identifier@).push(
                    sample@,
                ));
            }
            assert(models(out@) == matching(seen, identifier@));
            i = i + 1;
        }
        assert(h.subrange(0, n as int) =~= h);
        Ok(out)
    }
}

} // verus!
