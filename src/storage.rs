use crate::{models, Sample, SampleModel};
use vstd::prelude::*;

pub mod memory;

verus! {

/// The last `n` elements of `s`, in their order in `s` (all of `s` when it
/// holds no more than `n`).
pub open spec fn keep_last<T>(s: Seq<T>, n: nat) -> Seq<T> {
    if s.len() <= n {
        s
    } else {
        s.subrange(s.len() - n, s.len() as int)
    }
}

/// The history that a bounded store of capacity `n` holds after `sample`
/// has been stored into history `h`: `sample` is appended and the oldest
/// samples beyond the capacity are evicted.
pub open spec fn after_store(h: Seq<SampleModel>, sample: SampleModel, n: nat) -> Seq<SampleModel> {
    keep_last(h.push(sample), n)
}

/// The samples of `s` whose identifier is `id`, in their order in `s`.
pub open spec fn matching(s: Seq<SampleModel>, id: Seq<char>) -> Seq<SampleModel> {
    s.filter(|x: SampleModel| x.identifier == id)
}

/// A fetch answers exactly the held samples of its identifier: each sample
/// of the answer carries the identifier and is held, each held sample that
/// carries it is in the answer (in the order in which they are held), and
/// an identifier that no held sample carries gets an empty answer.
pub proof fn lemma_fetch_answer(h: Seq<SampleModel>, id: Seq<char>)
    ensures
        forall|i: int|
            0 <= i < matching(h, id).len() ==> (#[trigger] matching(h, id)[i]).identifier == id
                && h.contains(matching(h, id)[i]),
        forall|i: int|
            0 <= i < h.len() && h[i].identifier == id ==> matching(h, id).contains(#[trigger] h[i]),
        (forall|i: int| 0 <= i < h.len() ==> h[i].identifier != id) ==> matching(h, id).len() == 0,
{
    let pred = |x: SampleModel| x.identifier == id;
    assert forall|i: int| 0 <= i < matching(h, id).len() implies (#[trigger] matching(
        h,
        id,
    )[i]).identifier == id && h.contains(matching(h, id)[i]) by {
        h.lemma_filter_pred(pred, i);
        h.lemma_filter_contains_rev(pred, matching(h, id)[i]);
    }
    assert forall|i: int| 0 <= i < h.len() && h[i].identifier == id implies matching(
        h,
        id,
    ).contains(#[trigger] h[i]) by {
        h.lemma_filter_contains(pred, i);
    }
    if matching(h, id).len() > 0 {
        h.lemma_filter_pred(pred, 0);
        h.lemma_filter_contains_rev(pred, matching(h, id)[0]);
    }
}

/// An operation on a bounded history, as the storage actor applies it.
pub ghost enum Operation {
    Store(SampleModel),
    Fetch(Seq<char>),
}

/// The history of capacity `n` after operation `op` is applied to `h`: a
/// store appends and evicts, a fetch changes nothing.
pub open spec fn apply(h: Seq<SampleModel>, op: Operation, n: nat) -> Seq<SampleModel> {
    match op {
        Operation::Store(sample) => after_store(h, sample, n),
        Operation::Fetch(_) => h,
    }
}

/// The history of capacity `n`, empty at first, after the operations of
/// `ops` have been applied one after another.
pub open spec fn history_after(ops: Seq<Operation>, n: nat) -> Seq<SampleModel>
    decreases ops.len(),
{
    if ops.len() == 0 {
        Seq::empty()
    } else {
        apply(history_after(ops.drop_last(), n), ops.last(), n)
    }
}

/// The samples that the store operations of `ops` carry, in order.
pub open spec fn stored_samples(ops: Seq<Operation>) -> Seq<SampleModel>
    decreases ops.len(),
{
    if ops.len() == 0 {
        Seq::empty()
    } else {
        let rest = stored_samples(ops.drop_last());
        match ops.last() {
            Operation::Store(sample) => rest.push(sample),
            Operation::Fetch(_) => rest,
        }
    }
}

/// The store operations that carry the samples of `xs`, in order.
pub open spec fn stores_of(xs: Seq<SampleModel>) -> Seq<Operation> {
    xs.map_values(|x: SampleModel| Operation::Store(x))
}

proof fn lemma_keep_last_push<T>(a: Seq<T>, x: T, n: nat)
    requires
        n > 0,
    ensures
        keep_last(keep_last(a, n).push(x), n) == keep_last(a.push(x), n),
{
    if a.len() > n {
        assert(keep_last(keep_last(a, n).push(x), n) =~= keep_last(a.push(x), n));
    }
}

/// Serialized operations lose no write and half-apply none: after any
/// sequence of stores and fetches, applied one at a time, a store of
/// capacity `n` holds exactly the last `n` samples that the stores carried,
/// oldest first. So a fetch at any point answers from the history made by
/// exactly the operations before it.
pub proof fn lemma_serialized_history(ops: Seq<Operation>, n: nat)
    requires
        n > 0,
    ensures
        history_after(ops, n) == keep_last(stored_samples(ops), n),
    decreases ops.len(),
{
    if ops.len() > 0 {
        lemma_serialized_history(ops.drop_last(), n);
        if let Operation::Store(x) = ops.last() {
            lemma_keep_last_push(stored_samples(ops.drop_last()), x, n);
        }
    }
}

/// What a fetch answers when it is served in a sequence of operations: the
/// fetch at position `k` of `ops` answers the samples of its identifier
/// among the last `n` that the stores before it carried, oldest first. An
/// earlier fetch, answered or abandoned, changes nothing of it.
pub proof fn lemma_fetch_in_sequence(ops: Seq<Operation>, n: nat, k: int)
    requires
        n > 0,
        0 <= k < ops.len(),
        ops[k] is Fetch,
    ensures
        matching(history_after(ops.take(k), n), ops[k]->Fetch_0) == matching(
            keep_last(stored_samples(ops.take(k)), n),
            ops[k]->Fetch_0,
        ),
{
    lemma_serialized_history(ops.take(k), n);
}

/// Eviction: after the samples of `xs` have been stored one after another
/// into an empty store of capacity `n`, it holds exactly the last `n` of
/// them, oldest first; the earlier ones were evicted first.
pub proof fn lemma_eviction_law(xs: Seq<SampleModel>, n: nat)
    requires
        n > 0,
    ensures
        history_after(stores_of(xs), n) == keep_last(xs, n),
        history_after(stores_of(xs), n).len() <= n,
{
    lemma_serialized_history(stores_of(xs), n);
    lemma_stored_samples_of_stores(xs);
}

proof fn lemma_stored_samples_of_stores(xs: Seq<SampleModel>)
    ensures
        stored_samples(stores_of(xs)) == xs,
    decreases xs.len(),
{
    if xs.len() > 0 {
        lemma_stored_samples_of_stores(xs.drop_last());
        assert(stores_of(xs).drop_last() =~= stores_of(xs.drop_last()));
    }
}

/// A failure of a storage backend.
#[derive(Debug)]
pub struct StorageError(String);

impl View for StorageError {
    type V = Seq<char>;

    closed spec fn view(&self) -> Seq<char> {
        self.0@
    }
}

impl StorageError {
    pub fn new(message: String) -> (r: StorageError)
        ensures
            r@ == message@,
    {
        StorageError(message)
    }

    /// The text that describes the failure.
    pub fn message(&self) -> (r: &str)
        ensures
            r@ == self@,
    {
        self.0.as_str()
    }
}

/// A place that keeps a bounded, insertion-ordered history of samples.
///
/// Every backend holds at most `capacity()` samples, evicts the oldest
/// first, and answers a fetch from what it holds. A backend that can fail
/// reports a [`StorageError`] and then leaves its history as it was; each
/// failed store is counted.
pub trait SampleStorage: Sized {
    /// The samples held, oldest first.
    spec fn history(&self) -> Seq<SampleModel>;

    /// The number of samples held at most.
    spec fn capacity(&self) -> nat;

    /// The backend's internal invariant.
    spec fn well_formed(&self) -> bool;

    /// Whether the backend never reports a failure.
    spec fn infallible(&self) -> bool;

    /// The number of stores that have failed so far.
    spec fn failed_stores(&self) -> nat;

    fn store(&mut self, sample: Sample) -> (r: Result<(), StorageError>)
        requires
            old(self).well_formed(),
        ensures
            final(self).well_formed(),
            final(self).capacity() == old(self).capacity(),
            final(self).infallible() == old(self).infallible(),
            final(self).history().len() <= final(self).capacity(),
            old(self).infallible() ==> r is Ok,
            r is Ok ==> final(self).history() == after_store(
                old(self).history(),
                sample@,
                old(self).capacity(),
            ),
            r is Err ==> final(self).history() == old(self).history(),
            r is Ok ==> final(self).failed_stores() == old(self).failed_stores(),
            r is Err ==> final(self).failed_stores() == old(self).failed_stores() + 1,
    ;

    fn fetch(&self, identifier: &str) -> (r: Result<Vec<Sample>, StorageError>)
        requires
            self.well_formed(),
        ensures
            self.infallible() ==> r is Ok,
            r is Ok ==> models(r->Ok_0@) == matching(self.history(), identifier@),
    ;
}

#[verifier::external_type_specification]
#[verifier::external_body]
#[verifier::reject_recursive_types(T)]
pub struct ExOneshotSender<T>(tokio::sync::oneshot::Sender<T>);

/// A request to the storage actor.
#[derive(Debug)]
pub enum StorageServiceMessage {
    /// Keep a sample; no answer is sent.
    Store(Sample),
    /// Answer with the samples held for `identifier`, through
    /// `response_channel`.
    Fetch { identifier: String, response_channel: tokio::sync::oneshot::Sender<Vec<Sample>> },
}

impl StorageServiceMessage {
    /// The operation on the history that this message asks for.
    pub open spec fn operation(&self) -> Operation {
        match self {
            StorageServiceMessage::Store(sample) => Operation::Store(sample@),
            StorageServiceMessage::Fetch { identifier, .. } => Operation::Fetch(identifier@),
        }
    }
}

/// What the storage actor did with one message.
#[derive(Debug)]
pub enum Handled {
    /// The sample was stored.
    Stored,
    /// A fetch was read: `samples` is its answer, owed once to the
    /// requester behind `response_channel`. A requester that has stopped
    /// waiting is no failure of the actor.
    Reply { response_channel: tokio::sync::oneshot::Sender<Vec<Sample>>, samples: Vec<Sample> },
}

/// The storage actor: the sole owner of one storage backend. Messages are
/// applied one at a time, in the order in which they are handed over.
pub struct StorageService<S> {
    storage: S,
}

impl<S: SampleStorage> StorageService<S> {
    /// The backend that this actor owns.
    pub closed spec fn backend(&self) -> S {
        self.storage
    }

    pub fn new(storage: S) -> (r: StorageService<S>)
        ensures
            r.backend() == storage,
    {
        StorageService { storage }
    }

    /// Read access to the backend.
    pub fn storage(&self) -> (r: &S)
        ensures
            *r == self.backend(),
    {
        &self.storage
    }

    /// Applies one message.
    ///
    /// A store writes the sample. A fetch reads the samples held for its
    /// identifier and hands them back, with the message's reply channel, so
    /// that the caller sends the one answer. A backend failure is returned
    /// and leaves the history as it was; with a backend that never fails,
    /// every message succeeds.
    pub fn handle_message(&mut self, message: StorageServiceMessage) -> (r: Result<
        Handled,
        StorageError,
    >)
        requires
            old(self).backend().well_formed(),
        ensures
            final(self).backend().well_formed(),
            final(self).backend().capacity() == old(self).backend().capacity(),
            final(self).backend().infallible() == old(self).backend().infallible(),
            old(self).backend().infallible() ==> r is Ok,
            r is Ok ==> final(self).backend().history() == apply(
                old(self).backend().history(),
                message.operation(),
                old(self).backend().capacity(),
            ),
            r is Err ==> final(self).backend().history() == old(self).backend().history(),
            r is Ok ==> (message is Store <==> r->Ok_0 is Stored),
            r is Ok && message is Fetch ==> r->Ok_0 is Reply,
            r is Ok && r->Ok_0 is Reply ==> {
                &&& message is Fetch
                &&& r->Ok_0->response_channel == message->response_channel
                &&& models(r->Ok_0->samples@) == matching(
                    old(self).backend().history(),
                    message->identifier@,
                )
            },
            message is Store && r is Ok ==> final(self).backend().failed_stores() == old(
                self,
            ).backend().failed_stores(),
            message is Store && r is Err ==> final(self).backend().failed_stores() == old(
                self,
            ).backend().failed_stores() + 1,
            message is Fetch ==> final(self).backend().failed_stores() == old(
                self,
            ).backend().failed_stores(),
    {
        match message {
            StorageServiceMessage::Store(sample) => {
                match self.storage.store(sample) {
                    Ok(()) => Ok(Handled::Stored),
                    Err(e) => Err(e),
                }
            },
            StorageServiceMessage::Fetch { identifier, response_channel } => {
                match self.storage.fetch(identifier.as_str()) {
                    Ok(samples) => Ok(Handled::Reply { response_channel, samples }),
                    Err(e) => Err(e),
                }
            },
        }
    }
}

} // verus!
