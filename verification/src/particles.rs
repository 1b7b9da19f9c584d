//! The particle store: one record of six scalars for each particle.
//!
//! Scalars are stored as the bit patterns of 32-bit IEEE 754 floats. The
//! store lays records out one after another and does not interpret them.

use vstd::prelude::*;

verus! {

/// Scalars of one record.
pub const RECORD_WORDS: usize = 6;

/// Bytes of one record.
pub const RECORD_BYTES: u32 = 24;

/// One particle: position, sense distance, velocity and preference tag.
#[derive(Clone, Copy, Debug, PartialEq, Eq, Structural)]
pub struct ParticleRecord {
    pub pos_x: u32,
    pub pos_y: u32,
    pub sense_distance: u32,
    pub vel_x: u32,
    pub vel_y: u32,
    pub preference: u32,
}

impl ParticleRecord {
    /// The six scalars of the record in the order in which they are stored.
    pub open spec fn words(self) -> Seq<u32> {
        seq![
            self.pos_x,
            self.pos_y,
            self.sense_distance,
            self.vel_x,
            self.vel_y,
            self.preference,
        ]
    }
}

/// The scalars of a list of records, record after record.
pub open spec fn flatten(records: Seq<ParticleRecord>) -> Seq<u32>
    decreases records.len(),
{
    if records.len() == 0 {
        Seq::empty()
    } else {
        flatten(records.drop_last()) + records.last().words()
    }
}

/// A list of records takes six scalars for each record.
pub proof fn lemma_flatten_len(records: Seq<ParticleRecord>)
    ensures
        flatten(records).len() == RECORD_WORDS * records.len(),
    decreases records.len(),
{
    if records.len() > 0 {
        lemma_flatten_len(records.drop_last());
    }
}

/// Scalar `field` of record `index` stands at position `6 * index + field`.
pub proof fn lemma_flatten_index(records: Seq<ParticleRecord>, index: int, field: int)
    requires
        0 <= index < records.len(),
        0 <= field < RECORD_WORDS,
    ensures
        flatten(records).len() == RECORD_WORDS * records.len(),
        flatten(records)[RECORD_WORDS * index + field] == records[index].words()[field],
    decreases records.len(),
{
    lemma_flatten_len(records);
    lemma_flatten_len(records.drop_last());
    if index < records.len() - 1 {
        lemma_flatten_index(records.drop_last(), index, field);
    }
}

/// The particle store.
pub struct ParticleStore {
    words: Vec<u32>,
    records: Ghost<Seq<ParticleRecord>>,
}

impl View for ParticleStore {
    type V = Seq<ParticleRecord>;

    closed spec fn view(&self) -> Seq<ParticleRecord> {
        self.records@
    }
}

impl ParticleStore {
    /// The stored scalars are those of the records, record after record.
    pub closed spec fn wf(&self) -> bool {
        self.words@ == flatten(self.records@)
    }

    /// Whether a store of `particles` particles can be handed to the device:
    /// its bytes must fit in 32 bits.
    pub open spec fn fits(particles: nat) -> bool {
        RECORD_BYTES * particles <= u32::MAX
    }

    /// A store without particles.
    pub fn new() -> (store: ParticleStore)
        ensures
            store.wf(),
            store@ == Seq::<ParticleRecord>::empty(),
    {
        ParticleStore { words: Vec::new(), records: Ghost(Seq::empty()) }
    }

    /// Adds one record behind those that the store holds.
    pub fn push(&mut self, record: ParticleRecord)
        requires
            old(self).wf(),
        ensures
            final(self).wf(),
            final(self)@ == old(self)@.push(record),
    {
        self.words.push(record.pos_x);
        self.words.push(record.pos_y);
        self.words.push(record.sense_distance);
        self.words.push(record.vel_x);
        self.words.push(record.vel_y);
        self.words.push(record.preference);
        proof {
            let after = self.records@.push(record);
            assert(after.drop_last() =~= self.records@);
            assert(self.words@ =~= flatten(after));
            self.records@ = after;
        }
    }

    /// Number of particles.
    pub fn len(&self) -> (n: usize)
        requires
            self.wf(),
        ensures
            n == self@.len(),
    {
        proof {
            lemma_flatten_len(self.records@);
        }
        self.words.len() / RECORD_WORDS
    }

    /// The record of particle `index`.
    pub fn record(&self, index: usize) -> (record: ParticleRecord)
        requires
            self.wf(),
            index < self@.len(),
        ensures
            record == self@[index as int],
    {
        let total = self.words.len();
        proof {
            lemma_flatten_index(self.records@, index as int, 0);
            lemma_flatten_index(self.records@, index as int, 1);
            lemma_flatten_index(self.records@, index as int, 2);
            lemma_flatten_index(self.records@, index as int, 3);
            lemma_flatten_index(self.records@, index as int, 4);
            lemma_flatten_index(self.records@, index as int, 5);
            assert(RECORD_WORDS * index + 5 < total);
        }
        let base = RECORD_WORDS * index;
        ParticleRecord {
            pos_x: self.words[base],
            pos_y: self.words[base + 1],
            sense_distance: self.words[base + 2],
            vel_x: self.words[base + 3],
            vel_y: self.words[base + 4],
            preference: self.words[base + 5],
        }
    }

    /// The stored scalars, record after record.
    pub fn words(&self) -> (words: &Vec<u32>)
        requires
            self.wf(),
        ensures
            words@ == flatten(self@),
            words@.len() == RECORD_WORDS * self@.len(),
    {
        proof {
            lemma_flatten_len(self.records@);
        }
        &self.words
    }
}

} // verus!
