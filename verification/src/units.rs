//! Two small buffers: a ring of adjustable length over fixed storage, and
//! a bounded collector for the consumer end of a lock-free queue.

use vstd::prelude::*;
use vstd::arithmetic::div_mod::{lemma_mod_self_0, lemma_small_mod};
use ringbuf::Consumer;

verus! {

/// The storage slot that lies `index` steps after `position` in a ring of
/// `size` slots.
pub open spec fn slot(position: int, index: int, size: int) -> int {
    if position + index > size - 1 {
        position + index - size
    } else {
        position + index
    }
}

/// Within a ring, stepping from a position is addition modulo the size.
pub proof fn slot_is_modular(position: int, index: int, size: int)
    requires
        0 <= position < size,
        0 <= index < size,
    ensures
        slot(position, index, size) == (position + index) % size,
        0 <= slot(position, index, size) < size,
{
    if position + index > size - 1 {
        let wrapped: int = position + index - size;
        assert((position + index) % size == wrapped) by {
            lemma_small_mod(wrapped as nat, size as nat);
            vstd::arithmetic::div_mod::lemma_mod_add_multiples_vanish(wrapped, size);
        }
    } else {
        lemma_small_mod((position + index) as nat, size as nat);
    }
}

/// A ring buffer whose length can be changed within the storage it was
/// made with.  Every push overwrites the oldest value.
pub struct VariableRingBuffer<T> {
    buffer: Vec<T>,
    position: usize,
    size: usize,
    blank: T,
}

impl<T: Copy> View for VariableRingBuffer<T> {
    type V = Seq<T>;

    /// The ring's values from the oldest to the newest.
    open spec fn view(&self) -> Seq<T> {
        Seq::new(
            self.spec_size() as nat,
            |index: int| self.storage()[slot(self.position() as int, index, self.spec_size() as int)],
        )
    }
}

impl<T: Copy> VariableRingBuffer<T> {
    /// The storage, slot by slot.
    pub closed spec fn storage(&self) -> Seq<T> {
        self.buffer@
    }

    /// The slot that holds the oldest value and is written next.
    pub closed spec fn position(&self) -> usize {
        self.position
    }

    /// The length of the ring.
    pub closed spec fn spec_size(&self) -> usize {
        self.size
    }

    /// The value that fresh and cleared slots hold.
    pub closed spec fn blank(&self) -> T {
        self.blank
    }

    /// A ring is well formed when it has at least one slot, fits in its
    /// storage, and its position lies within it.
    pub open spec fn wf(&self) -> bool {
        &&& 1 <= self.spec_size() <= self.storage().len()
        &&& self.position() < self.spec_size()
    }

    /// Makes a ring of `init_size` slots over storage for `max_size`
    /// values, every slot holding `blank`.
    pub fn new(init_size: usize, max_size: usize, blank: T) -> (ring: VariableRingBuffer<T>)
        ensures
            ring.storage() == Seq::new(max_size as nat, |i: int| blank),
            ring.position() == 0,
            ring.spec_size() == init_size,
            ring.blank() == blank,
            ring.wf() <==> 1 <= init_size <= max_size,
            ring.wf() ==> ring@ == Seq::new(init_size as nat, |i: int| blank),
    {
        let mut buffer: Vec<T> = Vec::new();
        let mut filled: usize = 0;
        while filled < max_size
            invariant
                filled <= max_size,
                buffer@ == Seq::new(filled as nat, |i: int| blank),
            decreases max_size - filled,
        {
            buffer.push(blank);
            filled += 1;
        }
        VariableRingBuffer { buffer, position: 0, size: init_size, blank }
    }

    /// Overwrites the oldest value with `value`, which becomes the newest.
    pub fn push(&mut self, value: T)
        requires
            old(self).position() < old(self).storage().len(),
            old(self).spec_size() > 0,
        ensures
            final(self).storage() == old(self).storage().update(
                old(self).position() as int,
                value,
            ),
            final(self).position() == (old(self).position() + 1) % (old(self).spec_size() as int),
            final(self).spec_size() == old(self).spec_size(),
            final(self).blank() == old(self).blank(),
            old(self).wf() ==> final(self).wf() && final(self)@ == old(self)@.drop_first().push(
                value,
            ),
    {
        let at: usize = self.position;
        assert(at < self.buffer.len());
        self.buffer[at] = value;
        self.position = (self.position + 1) % self.size;
        proof {
            if old(self).wf() {
                let size: int = self.size as int;
                if at + 1 == size {
                    lemma_mod_self_0(size);
                } else {
                    lemma_small_mod((at + 1) as nat, size as nat);
                }
            }
        }
    }

    /// The oldest value of the ring.
    pub fn oldest(&self) -> (value: T)
        requires
            self.position() < self.storage().len(),
        ensures
            value == self.storage()[self.position() as int],
            self.wf() ==> value == self@[0],
    {
        self.buffer[self.position]
    }

    /// The value `index` steps after the oldest.
    pub fn get(&self, index: usize) -> (value: T)
        requires
            self.spec_size() > 0,
            self.position() + index <= usize::MAX,
            0 <= slot(self.position() as int, index as int, self.spec_size() as int)
                < self.storage().len(),
        ensures
            value == self.storage()[slot(
                self.position() as int,
                index as int,
                self.spec_size() as int,
            )],
            self.wf() && index < self.spec_size() ==> value == self@[index as int],
    {
        let pos: usize = self.position + index;
        if pos > self.size - 1 {
            self.buffer[pos - self.size]
        } else {
            self.buffer[pos]
        }
    }

    /// The length of the ring.
    #[verifier::when_used_as_spec(spec_size)]
    pub fn size(&self) -> (size: usize)
        ensures
            size == self.spec_size(),
    {
        self.size
    }

    /// Sets the length of the ring to `new_size`, or to the whole storage
    /// if that is shorter, and clears every slot.
    pub fn resize(&mut self, new_size: usize)
        ensures
            final(self).spec_size() == (if new_size <= old(self).storage().len() {
                new_size as int
            } else {
                old(self).storage().len() as int
            }),
            final(self).position() == 0,
            final(self).blank() == old(self).blank(),
            final(self).storage() == Seq::new(
                old(self).storage().len(),
                |i: int| old(self).blank(),
            ),
            final(self).wf() <==> new_size >= 1 && old(self).storage().len() >= 1,
            final(self).wf() ==> final(self)@ == Seq::new(
                final(self).spec_size() as nat,
                |i: int| old(self).blank(),
            ),
    {
        let capacity: usize = self.buffer.len();
        self.size = if new_size <= capacity {
            new_size
        } else {
            capacity
        };
        self.position = 0;
        let blank = self.blank;
        let mut cleared: usize = 0;
        while cleared < capacity
            invariant
                cleared <= capacity,
                capacity == self.buffer@.len(),
                blank == self.blank,
                self.blank == old(self).blank,
                self.position == 0,
                self.size == if new_size <= capacity {
                    new_size
                } else {
                    capacity
                },
                capacity == old(self).buffer@.len(),
                forall|i: int| 0 <= i < cleared ==> self.buffer@[i] == blank,
            decreases capacity - cleared,
        {
            self.buffer[cleared] = blank;
            cleared += 1;
        }
    }
}

/// The newest `limit` values of a sequence: the whole sequence if it is no
/// longer than that.
pub open spec fn newest<T>(values: Seq<T>, limit: nat) -> Seq<T> {
    if values.len() > limit {
        values.subrange(values.len() - limit, values.len() as int)
    } else {
        values
    }
}

/// What a well-formed ring holds after `values` were pushed one after
/// another, given what it held before.
pub open spec fn after_pushes<T>(held: Seq<T>, values: Seq<T>) -> Seq<T>
    decreases values.len(),
{
    if values.len() == 0 {
        held
    } else {
        after_pushes(held.drop_first().push(values[0]), values.drop_first())
    }
}

/// However many values are pushed, a ring keeps its length and holds the
/// newest of all values: those it held followed by those pushed.
pub proof fn pushes_keep_the_newest<T>(held: Seq<T>, values: Seq<T>)
    requires
        held.len() >= 1,
    ensures
        after_pushes(held, values) == newest(held + values, held.len()),
    decreases values.len(),
{
    if values.len() == 0 {
        assert(held + values =~= held);
    } else {
        let next = held.drop_first().push(values[0]);
        let rest = values.drop_first();
        pushes_keep_the_newest(next, rest);
        assert(newest(next + rest, next.len()) =~= newest(held + values, held.len()));
    }
}

/// The consumer end of a lock-free single-producer queue, `ringbuf::Consumer`.
/// The type is opaque: a value of it is carried and handed to its methods,
/// and nothing is known of what it holds.
#[verifier::external_type_specification]
#[verifier::external_body]
#[verifier::reject_recursive_types(T)]
pub struct ExConsumer<T>(ringbuf::Consumer<T>);

/// `Consumer::len` reports how many items the queue held when it was
/// asked.  The producer may add more at any time, so nothing is claimed of
/// the number.
pub assume_specification<T>[ ringbuf::Consumer::<T>::len ](
    consumer: &ringbuf::Consumer<T>,
) -> (len: usize)
;

/// `Consumer::pop` removes the item at the front of the queue and hands
/// it out, or hands out `None` when it finds the queue empty.  What the
/// queue holds depends on the producer, so nothing is claimed of the
/// result.
pub assume_specification<T>[ ringbuf::Consumer::<T>::pop ](
    consumer: &mut ringbuf::Consumer<T>,
) -> (item: Option<T>)
;

/// Collects what a queue's consumer end hands out, keeping only the newest
/// values up to a limit.
#[verifier::reject_recursive_types(T)]
pub struct ConsumerDump<T> {
    pub data: Vec<T>,
    consumer: Consumer<T>,
    max_size: usize,
}

impl<T> View for ConsumerDump<T> {
    type V = Seq<T>;

    /// The collected values, oldest first.
    closed spec fn view(&self) -> Seq<T> {
        self.data@
    }
}

impl<T> ConsumerDump<T> {
    /// The most values that are kept.
    pub closed spec fn max_size(&self) -> usize {
        self.max_size
    }

    /// Makes an empty collector over `consumer` that keeps at most
    /// `max_size` values.
    pub fn new(consumer: Consumer<T>, max_size: usize) -> (dump: ConsumerDump<T>)
        ensures
            dump@ == Seq::<T>::empty(),
            dump.max_size() == max_size,
    {
        ConsumerDump { data: Vec::new(), consumer, max_size }
    }

    /// Takes one answer of the queue: an item is appended to the data, and
    /// `None` is passed over.  Tells whether there was an item.
    pub fn absorb(&mut self, popped: Option<T>) -> (more: bool)
        ensures
            more == popped.is_some(),
            final(self).max_size() == old(self).max_size(),
            popped matches Some(item) ==> final(self)@ == old(self)@.push(item),
            popped is None ==> final(self)@ == old(self)@,
    {
        match popped {
            Some(item) => {
                self.data.push(item);
                true
            },
            None => false,
        }
    }

    /// Moves what the queue holds to the end of the data, oldest first,
    /// then drops all but the newest values up to the limit.  How many
    /// items arrive is the queue's affair: the data ends as the newest
    /// part of the old data followed by some run of arrivals.
    pub fn consume(&mut self)
        ensures
            final(self).max_size() == old(self).max_size(),
            exists|arrived: Seq<T>|
                final(self)@ == #[trigger] newest(
                    old(self)@ + arrived,
                    old(self).max_size() as nat,
                ),
            final(self)@.len() <= old(self).max_size(),
    {
        let waiting: usize = self.consumer.len();
        let ghost mut arrived: Seq<T> = Seq::empty();
        let mut taken: usize = 0;
        while taken < waiting
            invariant
                self.max_size == old(self).max_size,
                self@ == old(self)@ + arrived,
            decreases waiting - taken,
        {
            let popped = self.consumer.pop();
            proof {
                if popped is Some {
                    arrived = arrived.push(popped->0);
                }
            }
            if !self.absorb(popped) {
                break ;
            }
            taken += 1;
        }
        self.trim_data();
    }

    /// Sets the limit, then drops all but the newest values up to it.
    pub fn set_max_size(&mut self, max_size: usize)
        ensures
            final(self).max_size() == max_size,
            final(self)@ == newest(old(self)@, max_size as nat),
    {
        self.max_size = max_size;
        self.trim_data();
    }

    /// Drops the oldest values until no more than the limit are left.
    pub fn trim_data(&mut self)
        ensures
            final(self).max_size() == old(self).max_size(),
            final(self)@ == newest(old(self)@, old(self).max_size() as nat),
            final(self)@.len() <= old(self).max_size(),
    {
        let data_len: usize = self.data.len();
        if data_len > self.max_size {
            let kept = self.data.split_off(data_len - self.max_size);
            self.data = kept;
        }
    }
}

} // verus!
