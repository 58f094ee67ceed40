//! The hub batcher: records are staged in a FIFO buffer and released to the
//! store in batches of a fixed size, each closed by the record that filled it.
use vstd::prelude::*;

use vstd::arithmetic::div_mod::lemma_fundamental_div_mod_converse;

verus! {

/// Name of the list that stages records between batches.
pub const BUFFER_KEY: &'static str = "processed_agent_data";

/// What the hub does with an incoming record, given the buffer's length.
#[derive(Debug, Clone, Copy, PartialEq, Eq, Structural)]
pub enum HubAction {
    /// Append the record's payload to the buffer.
    Push,
    /// Take `pop` payloads from the front of the buffer and send them,
    /// followed by the record, as one batch.
    Flush { pop: usize },
}

pub open spec fn plan_spec(buffer_len: nat, batch_size: nat) -> HubAction {
    if buffer_len + 1 >= batch_size {
        HubAction::Flush { pop: (batch_size - 1) as usize }
    } else {
        HubAction::Push
    }
}

/// The buffer and the batches released so far, after one more record: the
/// buffer is taken from the front and appended to at the back.
pub open spec fn step<T>(state: (Seq<T>, Seq<Seq<T>>), record: T, batch_size: nat) -> (
    Seq<T>,
    Seq<Seq<T>>,
) {
    let (buffer, batches) = state;
    match plan_spec(buffer.len(), batch_size) {
        HubAction::Flush { .. } => (
            buffer.skip(batch_size - 1),
            batches.push(buffer.take(batch_size - 1).push(record)),
        ),
        HubAction::Push => (buffer.push(record), batches),
    }
}

/// The buffer and the released batches after `records`, from an empty buffer.
pub open spec fn run<T>(records: Seq<T>, batch_size: nat) -> (Seq<T>, Seq<Seq<T>>)
    decreases records.len(),
{
    if records.len() == 0 {
        (Seq::empty(), Seq::empty())
    } else {
        step(run(records.drop_last(), batch_size), records.last(), batch_size)
    }
}

/// The batching rule of a hub.
#[derive(Debug, Clone, Copy, PartialEq, Eq, Structural)]
pub struct Batcher {
    batch_size: usize,
}

impl View for Batcher {
    type V = nat;

    closed spec fn view(&self) -> nat {
        self.batch_size as nat
    }
}

impl Batcher {
    #[verifier::type_invariant]
    spec fn positive(self) -> bool {
        self.batch_size >= 1
    }

    /// A batcher for batches of `batch_size` records; none for size zero.
    pub fn new(batch_size: usize) -> (r: Option<Batcher>)
        ensures
            r is Some <==> batch_size >= 1,
            r matches Some(b) ==> b@ == batch_size,
    {
        if batch_size >= 1 {
            Some(Batcher { batch_size })
        } else {
            None
        }
    }

    pub fn batch_size(&self) -> (r: usize)
        ensures
            r == self@,
            r >= 1,
    {
        proof {
            use_type_invariant(self);
        }
        self.batch_size
    }

    /// What to do with a record that arrives while the buffer holds
    /// `buffer_len` payloads: flush once the record would fill a batch.
    pub fn plan(&self, buffer_len: usize) -> (r: HubAction)
        ensures
            r == plan_spec(buffer_len as nat, self@),
            self@ >= 1,
    {
        let k = self.batch_size();
        if buffer_len >= k - 1 {
            HubAction::Flush { pop: k - 1 }
        } else {
            HubAction::Push
        }
    }
}

/// The batch released by a flush: the payloads taken from the buffer, in
/// buffer order, then the record that triggered it.
pub fn batch_of<T>(popped: Vec<T>, record: T) -> (r: Vec<T>)
    ensures
        r@ == popped@.push(record),
{
    let mut batch = popped;
    batch.push(record);
    batch
}

/// A staging buffer held in memory, with the hub's release rule.
pub struct StagingBuffer<T> {
    batcher: Batcher,
    buffer: Vec<T>,
}

impl<T> View for StagingBuffer<T> {
    type V = Seq<T>;

    closed spec fn view(&self) -> Seq<T> {
        self.buffer@
    }
}

impl<T> StagingBuffer<T> {
    pub closed spec fn batch_size(&self) -> nat {
        self.batcher@
    }

    pub fn new(batcher: Batcher) -> (r: StagingBuffer<T>)
        ensures
            r@ == Seq::<T>::empty(),
            r.batch_size() == batcher@,
    {
        StagingBuffer { batcher, buffer: Vec::new() }
    }

    pub fn len(&self) -> (r: usize)
        ensures
            r == self@.len(),
    {
        self.buffer.len()
    }

    /// Stages `record`, or releases the batch that it completes.
    pub fn push(&mut self, record: T) -> (r: Option<Vec<T>>)
        ensures
            final(self).batch_size() == old(self).batch_size(),
            ({
                let (buffer, batches) = step(
                    (old(self)@, Seq::empty()),
                    record,
                    old(self).batch_size(),
                );
                &&& final(self)@ == buffer
                &&& r is Some <==> batches.len() == 1
                &&& r matches Some(b) ==> b@ == batches[0]
            }),
    {
        match self.batcher.plan(self.buffer.len()) {
            HubAction::Push => {
                self.buffer.push(record);
                None
            },
            HubAction::Flush { pop } => {
                let mut popped = self.buffer.split_off(0);
                let rest = popped.split_off(pop);
                self.buffer = rest;
                Some(batch_of(popped, record))
            },
        }
    }
}

/// Records pushed one by one into a hub with batches of `batch_size` reach
/// the store as `n / batch_size` batches of exactly `batch_size` records, in
/// arrival order, and the last `n % batch_size` records stay in the buffer.
pub proof fn lemma_batches_in_order<T>(records: Seq<T>, batch_size: nat)
    requires
        batch_size >= 1,
    ensures
        ({
            let (buffer, batches) = run(records, batch_size);
            let n = records.len();
            &&& batches.len() == n / batch_size
            &&& forall|i: int|
                0 <= i < batches.len() ==> #[trigger] batches[i] == records.subrange(
                    i * batch_size,
                    i * batch_size + batch_size,
                )
            &&& buffer == records.subrange(n - n % batch_size, n as int)
        }),
{
    lemma_run_shape(records, batch_size);
    let (buffer, batches) = run(records, batch_size);
    lemma_fundamental_div_mod_converse(
        records.len() as int,
        batch_size as int,
        batches.len() as int,
        buffer.len() as int,
    );
}

proof fn lemma_run_shape<T>(records: Seq<T>, batch_size: nat)
    requires
        batch_size >= 1,
    ensures
        ({
            let (buffer, batches) = run(records, batch_size);
            &&& buffer.len() < batch_size
            &&& batches.len() * batch_size + buffer.len() == records.len()
            &&& forall|i: int|
                0 <= i < batches.len() ==> #[trigger] batches[i] == records.subrange(
                    i * batch_size,
                    i * batch_size + batch_size,
                )
            &&& buffer == records.subrange((batches.len() * batch_size) as int, records.len() as int)
        }),
    decreases records.len(),
{
    if records.len() > 0 {
        let prefix = records.drop_last();
        let record = records.last();
        lemma_run_shape(prefix, batch_size);
        let (buffer, batches) = run(prefix, batch_size);
        let b = batches.len() as int;
        let k = batch_size as int;
        assert(run(records, batch_size) == step(run(prefix, batch_size), record, batch_size));
        assert((b + 1) * k == b * k + k) by (nonlinear_arith);
        if buffer.len() + 1 >= k {
            assert(buffer.take((k - 1) as int) =~= buffer);
            assert(buffer.skip((k - 1) as int) =~= Seq::<T>::empty());
            let (nbuf, nbatches) = run(records, batch_size);
            assert(0 <= b * k) by (nonlinear_arith)
                requires
                    0 <= b,
                    k >= 1,
            ;
            assert(nbatches[b as int] == buffer.push(record));
            assert(buffer.push(record) =~= records.subrange(b * k, b * k + k));
            assert forall|i: int| 0 <= i < nbatches.len() implies #[trigger] nbatches[i]
                == records.subrange(i * k, i * k + k) by {
                if i < b {
                    assert(i * k + k <= b * k) by (nonlinear_arith)
                        requires
                            i < b,
                            k >= 1,
                    ;
                    assert(0 <= i * k) by (nonlinear_arith)
                        requires
                            0 <= i,
                            k >= 1,
                    ;
                    assert(nbatches[i] == batches[i]);
                    assert(prefix.subrange(i * k, i * k + k) =~= records.subrange(
                        i * k,
                        i * k + k,
                    ));
                }
            }
            assert(nbuf =~= records.subrange(nbatches.len() as int * k, records.len() as int));
        } else {
            let (nbuf, nbatches) = run(records, batch_size);
            assert forall|i: int| 0 <= i < nbatches.len() implies #[trigger] nbatches[i]
                == records.subrange(i * k, i * k + k) by {
                assert(i * k + k <= b * k) by (nonlinear_arith)
                    requires
                        i < b,
                        k >= 1,
                ;
                assert(0 <= i * k) by (nonlinear_arith)
                    requires
                        0 <= i,
                        k >= 1,
                ;
                assert(prefix.subrange(i * k, i * k + k) =~= records.subrange(i * k, i * k + k));
            }
            assert(nbuf =~= records.subrange(b * k, records.len() as int));
        }
    }
}

} // verus!
