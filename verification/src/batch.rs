//! The bounded, ordered collection of rectangles waiting for the next draw.

use crate::objects2d::InstanceData;
use vstd::prelude::*;

verus! {

/// The most rectangles a batch holds, and so the most one draw call shows.
pub const MAX_INSTANCES: usize = 10000;

/// What a batch holds after `record` was offered to one that held `records`:
/// the record goes to the end while there is room, and is dropped otherwise.
pub open spec fn pushed(records: Seq<InstanceData>, record: InstanceData) -> Seq<InstanceData> {
    if records.len() < MAX_INSTANCES {
        records.push(record)
    } else {
        records
    }
}

/// What a batch holds after every record of `offered` was offered in turn to
/// one that held `records`.
pub open spec fn submitted(records: Seq<InstanceData>, offered: Seq<InstanceData>) -> Seq<
    InstanceData,
>
    decreases offered.len(),
{
    if offered.len() == 0 {
        records
    } else {
        pushed(submitted(records, offered.drop_last()), offered.last())
    }
}

/// The words of an instance buffer that holds `records` from its start on:
/// record `i` occupies words `13 * i` to `13 * i + 12`.
pub open spec fn packed_words(records: Seq<InstanceData>) -> Seq<u32> {
    Seq::new(records.len() * 13, |k: int| records[k / 13].words()[k % 13])
}

/// The first [`MAX_INSTANCES`] of `records`, or all of them if there are
/// fewer.
pub open spec fn capped(records: Seq<InstanceData>) -> Seq<InstanceData> {
    if records.len() <= MAX_INSTANCES {
        records
    } else {
        records.take(MAX_INSTANCES as int)
    }
}

/// Offering records to a batch keeps them in the order offered, behind what
/// the batch held, up to the capacity; what is offered beyond it is dropped.
pub proof fn lemma_submitted_keeps_first(records: Seq<InstanceData>, offered: Seq<InstanceData>)
    requires
        records.len() <= MAX_INSTANCES,
    ensures
        submitted(records, offered) == capped(records + offered),
    decreases offered.len(),
{
    if offered.len() == 0 {
        assert(records + offered =~= records);
    } else {
        lemma_submitted_keeps_first(records, offered.drop_last());
        assert((records + offered).drop_last() =~= records + offered.drop_last());
        assert(submitted(records, offered) =~= capped(records + offered));
    }
}

/// In the words of an instance buffer, the words of the record submitted
/// `i`-th stand at instance `i`.
pub proof fn lemma_packed_words_of_instance(records: Seq<InstanceData>, i: int)
    requires
        0 <= i < records.len(),
    ensures
        packed_words(records).len() == 13 * records.len(),
        packed_words(records).subrange(13 * i, 13 * i + 13) == records[i].words(),
{
    assert(packed_words(records).subrange(13 * i, 13 * i + 13) =~= records[i].words());
}

/// Rectangles in submission order, never more than [`MAX_INSTANCES`].
#[derive(Debug)]
pub struct InstanceBatch {
    records: Vec<InstanceData>,
}

impl View for InstanceBatch {
    type V = Seq<InstanceData>;

    closed spec fn view(&self) -> Seq<InstanceData> {
        self.records@
    }
}

impl InstanceBatch {
    #[verifier::type_invariant]
    spec fn within_capacity(&self) -> bool {
        self.records@.len() <= MAX_INSTANCES
    }

    /// An empty batch with room for [`MAX_INSTANCES`] records set aside.
    pub fn new() -> (batch: Self)
        ensures
            batch@ == Seq::<InstanceData>::empty(),
    {
        InstanceBatch { records: Vec::with_capacity(MAX_INSTANCES) }
    }

    /// The most records the batch holds.
    pub fn capacity(&self) -> (n: usize)
        ensures
            n == MAX_INSTANCES,
    {
        MAX_INSTANCES
    }

    /// How many records the batch holds.
    pub fn len(&self) -> (n: usize)
        ensures
            n == self@.len(),
            n <= MAX_INSTANCES,
    {
        proof {
            use_type_invariant(self);
        }
        self.records.len()
    }

    /// Whether the batch holds no record.
    pub fn is_empty(&self) -> (empty: bool)
        ensures
            empty == (self@.len() == 0),
    {
        self.records.len() == 0
    }

    /// The record at `index` in submission order, if there is one.
    pub fn get(&self, index: usize) -> (record: Option<InstanceData>)
        ensures
            record == if index < self@.len() {
                Some(self@[index as int])
            } else {
                None
            },
    {
        if index < self.records.len() {
            Some(self.records[index])
        } else {
            None
        }
    }

    /// Appends `record` if there is room and says whether it did. A record
    /// offered to a full batch is dropped.
    pub fn push(&mut self, record: InstanceData) -> (accepted: bool)
        ensures
            accepted == (old(self)@.len() < MAX_INSTANCES),
            final(self)@ == pushed(old(self)@, record),
    {
        if self.records.len() < MAX_INSTANCES {
            // The records are taken out while they grow and put back after:
            // the batch itself is then within its capacity at every moment,
            // and the room set aside for the records moves with them.
            let mut records: Vec<InstanceData> = Vec::new();
            std::mem::swap(&mut self.records, &mut records);
            records.push(record);
            std::mem::swap(&mut self.records, &mut records);
            true
        } else {
            false
        }
    }

    /// Empties the batch. The room set aside for records is kept.
    pub fn clear(&mut self)
        ensures
            final(self)@ == Seq::<InstanceData>::empty(),
    {
        let mut records: Vec<InstanceData> = Vec::new();
        std::mem::swap(&mut self.records, &mut records);
        records.clear();
        std::mem::swap(&mut self.records, &mut records);
    }

    /// The batch as the words of an instance buffer.
    pub fn to_words(&self) -> (words: Vec<u32>)
        ensures
            words@ == packed_words(self@),
    {
        let n = self.records.len();
        let mut words: Vec<u32> = Vec::new();
        let mut i: usize = 0;
        while i < n
            invariant
                n == self.records@.len(),
                i <= n,
                words@ == packed_words(self.records@.take(i as int)),
            decreases n - i,
        {
            let record = self.records[i];
            let block = record.to_words();
            let ghost before = words@;
            let mut k: usize = 0;
            while k < 13
                invariant
                    k <= 13,
                    block@ == record.words(),
                    words@ == before + block@.take(k as int),
                decreases 13 - k,
            {
                words.push(block[k]);
                k += 1;
                assert(words@ =~= before + block@.take(k as int));
            }
            i += 1;
            assert(words@ =~= packed_words(self.records@.take(i as int)));
        }
        assert(self.records@.take(n as int) =~= self.records@);
        words
    }
}

} // verus!
