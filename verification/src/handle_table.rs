//! A table that hands out numbers for values and uses them again.
//!
//! Storing a value and finding a number for it, looking a value up and taking
//! it out each take constant time. The number that became free last is used
//! next.

use vstd::prelude::*;

verus! {

/// The number of a value in a [`HandleTable`], counted from one.
#[derive(Clone, Copy, Debug, PartialEq, Eq, PartialOrd, Ord, Hash, Structural)]
pub struct Index(usize);

impl View for Index {
    type V = int;

    /// The number.
    closed spec fn view(&self) -> int {
        self.0 as int
    }
}

impl Index {
    #[verifier::type_invariant]
    spec fn is_positive(self) -> bool {
        self.0 > 0
    }

    /// The index with a number, which is not zero.
    pub fn new(number: usize) -> (index: Option<Index>)
        ensures
            match index {
                Some(index) => number > 0 && index@ == number,
                None => number == 0,
            },
    {
        if number == 0 {
            None
        } else {
            Some(Index(number))
        }
    }

    /// Returns the underlying index value.
    pub fn get(&self) -> (number: usize)
        ensures
            number == self@,
            number > 0,
    {
        proof {
            use_type_invariant(self);
        }
        self.0
    }
}

/// A slot in the handle table, either free or containing a value.
pub enum Slot<T> {
    /// A free slot with the number of the slot that became free before it.
    Free {
        /// That number.
        next_free: Option<Index>,
    },
    /// A slot containing a value.
    Used {
        /// The value.
        value: T,
    },
}

/// What a table holds.
#[verifier::ext_equal]
pub struct HandleTableView<T> {
    /// The values by their number.
    pub values: Map<int, T>,
    /// The numbers that are free again, the latest last.
    pub free: Seq<int>,
    /// How many numbers were ever handed out.
    pub slots: nat,
}

impl<T> HandleTableView<T> {
    /// The number that the next value gets.
    pub open spec fn next(self) -> int {
        if self.free.len() > 0 {
            self.free.last()
        } else {
            (self.slots + 1) as int
        }
    }

    /// The table with one value more.
    pub open spec fn inserted(self, value: T) -> HandleTableView<T> {
        HandleTableView {
            values: self.values.insert(self.next(), value),
            free: if self.free.len() > 0 {
                self.free.drop_last()
            } else {
                self.free
            },
            slots: if self.free.len() > 0 {
                self.slots
            } else {
                self.slots + 1
            },
        }
    }

    /// The table without a value that it holds.
    pub open spec fn removed(self, index: int) -> HandleTableView<T> {
        HandleTableView {
            values: self.values.remove(index),
            free: self.free.push(index),
            slots: self.slots,
        }
    }

    /// The numbers from one to a bound that stand for values, in ascending
    /// order.
    pub open spec fn numbers_up_to(self, bound: nat) -> Seq<int>
        decreases bound,
    {
        if bound == 0 {
            Seq::empty()
        } else if self.values.contains_key(bound as int) {
            self.numbers_up_to((bound - 1) as nat).push(bound as int)
        } else {
            self.numbers_up_to((bound - 1) as nat)
        }
    }

    /// The numbers that stand for values, in ascending order.
    pub open spec fn numbers(self) -> Seq<int> {
        self.numbers_up_to(self.slots)
    }

    /// A table that was not used yet.
    pub open spec fn fresh() -> HandleTableView<T> {
        HandleTableView { values: Map::empty(), free: Seq::empty(), slots: 0 }
    }

    /// The table after one more step.
    pub open spec fn stepped(self, step: TableStep<T>) -> HandleTableView<T> {
        match step {
            TableStep::Insert(value) => self.inserted(value),
            TableStep::Remove(index) => if self.values.contains_key(index) {
                self.removed(index)
            } else {
                self
            },
            TableStep::Clear => HandleTableView::fresh(),
        }
    }

    /// Every number that was handed out either stands for a value or is free
    /// again, once.
    pub open spec fn valid(self) -> bool {
        &&& self.free.no_duplicates()
        &&& forall|index: int| #[trigger]
            self.values.contains_key(index) <==> 1 <= index <= self.slots && !self.free.contains(
                index,
            )
        &&& forall|i: int| 0 <= i < self.free.len() ==> 1 <= #[trigger] self.free[i] <= self.slots
    }
}

/// What is done to a table.
pub enum TableStep<T> {
    /// A value is inserted.
    Insert(T),
    /// The value with a number is removed, if there is one.
    Remove(int),
    /// All values are removed.
    Clear,
}

/// A table that went through steps, from the first to the last.
pub open spec fn table_after<T>(steps: Seq<TableStep<T>>) -> HandleTableView<T>
    decreases steps.len(),
{
    if steps.len() == 0 {
        HandleTableView::fresh()
    } else {
        table_after(steps.drop_last()).stepped(steps.last())
    }
}

/// The most values that a table held at once since it was made or cleared.
pub open spec fn most_values<T>(steps: Seq<TableStep<T>>) -> nat
    decreases steps.len(),
{
    if steps.len() == 0 || steps.last() is Clear {
        0
    } else {
        let held = table_after(steps).values.dom().len();
        let before = most_values(steps.drop_last());
        if held > before {
            held
        } else {
            before
        }
    }
}

/// Which step freed a number last since the table was made or cleared, or -1.
pub open spec fn freed_at<T>(steps: Seq<TableStep<T>>, number: int) -> int
    decreases steps.len(),
{
    if steps.len() == 0 || steps.last() is Clear {
        -1
    } else if steps.last() == TableStep::<T>::Remove(number) && table_after(
        steps.drop_last(),
    ).values.contains_key(number) {
        steps.len() - 1
    } else {
        freed_at(steps.drop_last(), number)
    }
}

/// Whether a number was freed and stands for no value since.
pub open spec fn is_free_again<T>(steps: Seq<TableStep<T>>, number: int) -> bool {
    freed_at(steps, number) >= 0 && !table_after(steps).values.contains_key(number)
}

/// The numbers of indexes.
pub open spec fn numbers_of(indexes: Seq<Index>) -> Seq<int> {
    Seq::new(indexes.len(), |i: int| indexes[i]@)
}

/// A table that assigns unique indices to values for O(1) insertion and lookup.
pub struct HandleTable<T> {
    data: Vec<Slot<T>>,
    free_list: Option<Index>,
    requests: usize,
    free: Ghost<Seq<int>>,
}

impl<T> View for HandleTable<T> {
    type V = HandleTableView<T>;

    closed spec fn view(&self) -> HandleTableView<T> {
        HandleTableView {
            values: Map::new(
                |index: int| 1 <= index <= self.data@.len() && self.data@[index - 1] is Used,
                |index: int| self.data@[index - 1]->value,
            ),
            free: self.free@,
            slots: self.data@.len(),
        }
    }
}

impl<T> HandleTable<T> {
    /// The free slots form a list that starts with the latest, and the count is
    /// that of the values.
    pub closed spec fn valid(&self) -> bool {
        &&& self@.valid()
        &&& self.requests + self.free@.len() == self.data@.len()
        &&& match self.free_list {
            Some(index) => self.free@.len() > 0 && index@ == self.free@.last(),
            None => self.free@.len() == 0,
        }
        &&& forall|i: int|
            #![trigger self.free@[i]]
            0 <= i < self.free@.len() ==> {
                &&& self.data@[self.free@[i] - 1] is Free
                &&& match self.data@[self.free@[i] - 1]->next_free {
                    Some(index) => i > 0 && index@ == self.free@[i - 1],
                    None => i == 0,
                }
            }
    }

    /// How many values the table holds.
    pub closed spec fn count(&self) -> nat {
        self.requests as nat
    }

    /// Creates a new empty `HandleTable`.
    pub fn new() -> (table: HandleTable<T>)
        ensures
            table.valid(),
            table@.values == Map::<int, T>::empty(),
            table@.free == Seq::<int>::empty(),
            table@.slots == 0,
            table.count() == 0,
    {
        let table = HandleTable {
            data: Vec::new(),
            free_list: None,
            requests: 0,
            free: Ghost(Seq::empty()),
        };
        assert(table@.values =~= Map::<int, T>::empty());
        table
    }

    /// Removes all entries from the table.
    pub fn clear(&mut self)
        ensures
            final(self).valid(),
            final(self)@.values == Map::<int, T>::empty(),
            final(self)@.free == Seq::<int>::empty(),
            final(self)@.slots == 0,
            final(self).count() == 0,
    {
        self.data.clear();
        self.free_list = None;
        self.requests = 0;
        self.free = Ghost(Seq::empty());
        assert(self@.values =~= Map::<int, T>::empty());
    }

    /// Returns the number of values in the table.
    pub fn len(&self) -> (len: usize)
        ensures
            len == self.count(),
            self.valid() ==> len == self@.values.dom().len(),
    {
        proof {
            if self.valid() {
                count_is_that_of_the_values(self);
            }
        }
        self.requests
    }

    /// Returns true if there are no values.
    pub fn is_empty(&self) -> (empty: bool)
        ensures
            empty == (self.count() == 0),
            self.valid() ==> empty == (self@.values == Map::<int, T>::empty()),
    {
        proof {
            if self.valid() {
                count_is_that_of_the_values(self);
                if self.count() == 0 {
                    assert(self@.values.dom() =~= Set::empty());
                    assert(self@.values =~= Map::<int, T>::empty());
                }
            }
        }
        self.requests == 0
    }

    /// Insert a value into the table and return its index.
    pub fn insert(&mut self, value: T) -> (index: Index)
        requires
            old(self).valid(),
            old(self)@.free.len() > 0 || old(self)@.slots < usize::MAX,
        ensures
            final(self).valid(),
            index@ == old(self)@.next(),
            final(self)@ == old(self)@.inserted(value),
            final(self).count() == old(self).count() + 1,
    {
        match self.free_list {
            Some(index) => {
                let number: usize = index.get();
                let offset: usize = number - 1;
                let ghost freed = self.free@;
                assert(freed[freed.len() - 1] == number);
                let mut slot = Slot::Used { value };
                assert(self.requests < self.data.len());
                std::mem::swap(&mut self.data[offset], &mut slot);
                self.requests = self.requests + 1;
                self.free = Ghost(freed.drop_last());
                self.free_list =
                match slot {
                    Slot::Free { next_free } => next_free,
                    Slot::Used { .. } => None,
                };
                proof {
                    self.insert_reused(old(self), value);
                }
                index
            },
            None => {
                let offset: usize = self.data.len();
                let index = Index(offset + 1);
                self.requests = self.requests + 1;
                self.data.push(Slot::Used { value });
                proof {
                    assert(self@.values =~= old(self)@.values.insert(offset + 1, value));
                    assert(self@ =~= old(self)@.inserted(value));
                }
                index
            },
        }
    }

    proof fn insert_reused(&self, before: &HandleTable<T>, value: T)
        requires
            before.valid(),
            before.free@.len() > 0,
            self.free@ == before.free@.drop_last(),
            self.data@ == before.data@.update(before.free@.last() - 1, Slot::Used { value }),
            self.requests == before.requests + 1,
            self.free_list == before.data@[before.free@.last() - 1]->next_free,
        ensures
            self.valid(),
            self@ == before@.inserted(value),
    {
        let number = before.free@.last();
        let last = before.free@.len() - 1;
        assert(before.free@[last] == number);
        assert(self@.values =~= before@.values.insert(number, value));
        assert(self@ =~= before@.inserted(value));
        assert forall|i: int| 0 <= i < self.free@.len() implies self.free@[i] != number by {
            assert(before.free@[i] == self.free@[i]);
        }
        assert forall|index: int| #[trigger] self@.values.contains_key(index) <==> 1 <= index
            <= self@.slots && !self@.free.contains(index) by {
            if index == number {
                assert(!self.free@.contains(number));
            } else {
                assert(before@.values.contains_key(index) == self@.values.contains_key(index));
                if before.free@.contains(index) {
                    let i = choose|i: int| 0 <= i < before.free@.len() && before.free@[i] == index;
                    assert(self.free@[i] == index);
                }
                if self.free@.contains(index) {
                    let i = choose|i: int| 0 <= i < self.free@.len() && self.free@[i] == index;
                    assert(before.free@[i] == index);
                }
            }
        }
        if self.free@.len() > 0 {
            assert(before.free@[last - 1] == self.free@.last());
        }
    }
}

impl<T> HandleTable<T> {
    /// The number that the next value gets.
    fn next_index(&self) -> (index: Index)
        requires
            self.valid(),
            self@.free.len() > 0 || self@.slots < usize::MAX,
        ensures
            index@ == self@.next(),
    {
        match self.free_list {
            Some(index) => index,
            None => Index(self.data.len() + 1),
        }
    }

    /// Insert a value into the table using a function to generate the value
    /// from its index.
    pub fn insert_fn<F: FnOnce(Index) -> T>(&mut self, value_fn: F) -> (index: Index)
        requires
            old(self).valid(),
            old(self)@.free.len() > 0 || old(self)@.slots < usize::MAX,
            forall|index: Index| index@ == old(self)@.next() ==> value_fn.requires((index,)),
        ensures
            final(self).valid(),
            index@ == old(self)@.next(),
            value_fn.ensures((index,), final(self)@.values[index@]),
            final(self)@ == old(self)@.inserted(final(self)@.values[index@]),
            final(self).count() == old(self).count() + 1,
    {
        let index = self.next_index();
        let value = value_fn(index);
        let _ = self.insert(value);
        assert(self@.values[index@] == value);
        index
    }

    /// Get a reference to a value by its index
    pub fn get(&self, index: Index) -> (value: Option<&T>)
        requires
            self.valid(),
        ensures
            match value {
                Some(value) => self@.values.contains_key(index@) && *value
                    == self@.values[index@],
                None => !self@.values.contains_key(index@),
            },
    {
        let number: usize = index.get();
        if number > self.data.len() {
            return None;
        }
        match &self.data[number - 1] {
            Slot::Used { value } => Some(value),
            Slot::Free { .. } => None,
        }
    }

    /// Remove a value from the table by its index and return it.
    pub fn remove(&mut self, index: Index) -> (value: Option<T>)
        requires
            old(self).valid(),
        ensures
            final(self).valid(),
            match value {
                Some(value) => {
                    &&& old(self)@.values.contains_key(index@)
                    &&& value == old(self)@.values[index@]
                    &&& final(self)@ == old(self)@.removed(index@)
                    &&& final(self).count() == old(self).count() - 1
                },
                None => {
                    &&& !old(self)@.values.contains_key(index@)
                    &&& final(self)@ == old(self)@
                    &&& final(self).count() == old(self).count()
                },
            },
    {
        let number: usize = index.get();
        if number > self.data.len() {
            return None;
        }
        let offset: usize = number - 1;
        let used = match &self.data[offset] {
            Slot::Used { .. } => true,
            Slot::Free { .. } => false,
        };
        if !used {
            return None;
        }
        proof {
            self.some_slot_is_used(number as int);
        }
        let ghost freed = self.free@;
        let mut slot = Slot::Free { next_free: self.free_list };
        std::mem::swap(&mut self.data[offset], &mut slot);
        self.requests = self.requests - 1;
        self.free_list = Some(index);
        self.free = Ghost(freed.push(number as int));
        proof {
            self.remove_used(old(self), index);
        }
        match slot {
            Slot::Used { value } => Some(value),
            Slot::Free { .. } => None,
        }
    }

    proof fn some_slot_is_used(&self, number: int)
        requires
            self.valid(),
            1 <= number <= self.data@.len(),
            self.data@[number - 1] is Used,
        ensures
            self.requests > 0,
    {
        let free = self.free@;
        let slots = self.data@.len() as int;
        assert(self@.values.contains_key(number));
        assert(!free.contains(number));
        if free.len() >= slots {
            let numbers = Set::new(|n: int| 1 <= n <= slots);
            range_has_its_length(slots);
            free.unique_seq_to_set();
            assert(free.to_set().subset_of(numbers.remove(number))) by {
                assert forall|n: int| free.to_set().contains(n) implies numbers.remove(
                    number,
                ).contains(n) by {
                    let i = choose|i: int| 0 <= i < free.len() && free[i] == n;
                    assert(1 <= free[i] <= self@.slots);
                }
            }
            vstd::set_lib::lemma_len_subset(free.to_set(), numbers.remove(number));
        }
    }

    proof fn remove_used(&self, before: &HandleTable<T>, index: Index)
        requires
            before.valid(),
            1 <= index@ <= before.data@.len(),
            before.data@[index@ - 1] is Used,
            before.requests > 0,
            self.free@ == before.free@.push(index@),
            self.data@ == before.data@.update(
                index@ - 1,
                Slot::Free { next_free: before.free_list },
            ),
            self.requests == before.requests - 1,
            self.free_list == Some(index),
        ensures
            self.valid(),
            self@ == before@.removed(index@),
    {
        let number = index@;
        assert(before@.values.contains_key(number));
        assert(self@.values =~= before@.values.remove(number));
        assert(self@ =~= before@.removed(number));
        assert forall|i: int| 0 <= i < before.free@.len() implies before.free@[i] != number by {
            assert(!before.free@.contains(number));
        }
        assert forall|n: int| #[trigger] self@.values.contains_key(n) <==> 1 <= n <= self@.slots
            && !self@.free.contains(n) by {
            if n == number {
                assert(self.free@[before.free@.len() as int] == number);
            } else {
                assert(before@.values.contains_key(n) == self@.values.contains_key(n));
                if before.free@.contains(n) {
                    let i = choose|i: int| 0 <= i < before.free@.len() && before.free@[i] == n;
                    assert(self.free@[i] == n);
                }
                if self.free@.contains(n) {
                    let i = choose|i: int| 0 <= i < self.free@.len() && self.free@[i] == n;
                    assert(before.free@[i] == n);
                }
            }
        }
        assert forall|i: int|
            #![trigger self.free@[i]]
            0 <= i < self.free@.len() implies {
                &&& self.data@[self.free@[i] - 1] is Free
                &&& match self.data@[self.free@[i] - 1]->next_free {
                    Some(index) => i > 0 && index@ == self.free@[i - 1],
                    None => i == 0,
                }
            } by {
            if i < before.free@.len() {
                assert(self.free@[i] == before.free@[i]);
                if i > 0 {
                    assert(self.free@[i - 1] == before.free@[i - 1]);
                }
            } else {
                if i > 0 {
                    assert(self.free@[i - 1] == before.free@.last());
                }
            }
        }
    }

    /// Returns the valid indexes in their order.
    pub fn indexes(&self) -> (indexes: Vec<Index>)
        requires
            self.valid(),
        ensures
            forall|i: int, j: int|
                0 <= i < j < indexes@.len() ==> (#[trigger] indexes@[i])@ < (#[trigger] indexes@[j])@,
            forall|number: int| #[trigger]
                self@.values.contains_key(number) <==> exists|i: int|
                    0 <= i < indexes@.len() && (#[trigger] indexes@[i])@ == number,
            numbers_of(indexes@) == self@.numbers(),
            indexes@.len() == self.count(),
    {
        let mut indexes: Vec<Index> = Vec::new();
        let mut offset: usize = 0;
        while offset < self.data.len()
            invariant
                self.valid(),
                offset <= self.data@.len(),
                forall|i: int, j: int|
                    0 <= i < j < indexes@.len() ==> (#[trigger] indexes@[i])@ < (
                    #[trigger] indexes@[j])@,
                forall|i: int|
                    0 <= i < indexes@.len() ==> 1 <= (#[trigger] indexes@[i])@ <= offset
                        && self@.values.contains_key(indexes@[i]@),
                forall|number: int|
                    1 <= number <= offset && #[trigger] self@.values.contains_key(number)
                        ==> exists|i: int|
                        0 <= i < indexes@.len() && (#[trigger] indexes@[i])@ == number,
                numbers_of(indexes@) == self@.numbers_up_to(offset as nat),
            decreases self.data@.len() - offset,
        {
            let ghost before = indexes@;
            let used = match &self.data[offset] {
                Slot::Used { .. } => true,
                Slot::Free { .. } => false,
            };
            if used {
                indexes.push(Index(offset + 1));
            }
            proof {
                assert(self@.values.contains_key(offset + 1) == used);
                if used {
                    assert(numbers_of(indexes@) =~= numbers_of(before).push(offset + 1));
                }
                assert forall|number: int|
                    1 <= number <= offset + 1 && #[trigger] self@.values.contains_key(
                        number,
                    ) implies exists|i: int|
                    0 <= i < indexes@.len() && (#[trigger] indexes@[i])@ == number by {
                    if number == offset + 1 {
                        assert(indexes@[before.len() as int]@ == number);
                    } else {
                        let i = choose|i: int|
                            0 <= i < before.len() && (#[trigger] before[i])@ == number;
                        assert(indexes@[i]@ == number);
                    }
                }
            }
            offset = offset + 1;
        }
        proof {
            count_is_that_of_the_values(self);
        }
        indexes
    }

    /// Returns the values with their indexes, in the order of the indexes.
    pub fn iter(&self) -> (items: Vec<(Index, &T)>)
        requires
            self.valid(),
        ensures
            forall|i: int, j: int|
                0 <= i < j < items@.len() ==> (#[trigger] items@[i]).0@ < (#[trigger] items@[j]).0@,
            forall|i: int|
                0 <= i < items@.len() ==> self@.values.contains_key((#[trigger] items@[i]).0@)
                    && *items@[i].1 == self@.values[items@[i].0@],
            forall|number: int| #[trigger]
                self@.values.contains_key(number) ==> exists|i: int|
                    0 <= i < items@.len() && (#[trigger] items@[i]).0@ == number,
            items@.len() == self.count(),
            items@.map_values(|item: (Index, &T)| item.0@) == self@.numbers(),
    {
        let indexes = self.indexes();
        let mut items: Vec<(Index, &T)> = Vec::new();
        let mut position: usize = 0;
        while position < indexes.len()
            invariant
                self.valid(),
                position <= indexes@.len(),
                forall|i: int, j: int|
                    0 <= i < j < indexes@.len() ==> (#[trigger] indexes@[i])@ < (
                    #[trigger] indexes@[j])@,
                forall|number: int| #[trigger]
                    self@.values.contains_key(number) <==> exists|i: int|
                        0 <= i < indexes@.len() && (#[trigger] indexes@[i])@ == number,
                numbers_of(indexes@) == self@.numbers(),
                items@.len() == position,
                forall|i: int|
                    0 <= i < position ==> (#[trigger] items@[i]).0 == indexes@[i] && *items@[i].1
                        == self@.values[indexes@[i]@],
            decreases indexes@.len() - position,
        {
            let index = indexes[position];
            assert(self@.values.contains_key(indexes@[position as int]@));
            match self.get(index) {
                Some(value) => items.push((index, value)),
                None => {},
            }
            position = position + 1;
        }
        proof {
            assert forall|i: int| 0 <= i < items@.len() implies self@.values.contains_key(
                (#[trigger] items@[i]).0@,
            ) by {
                assert(indexes@[i]@ == items@[i].0@);
            }
            assert forall|number: int| #[trigger] self@.values.contains_key(number) implies exists|
                i: int,
            |
                0 <= i < items@.len() && (#[trigger] items@[i]).0@ == number by {
                let i = choose|i: int| 0 <= i < indexes@.len() && (#[trigger] indexes@[i])@ == number;
                assert(items@[i].0@ == number);
            }
            assert(items@.map_values(|item: (Index, &T)| item.0@) =~= numbers_of(indexes@));
        }
        items
    }

    /// Replaces every value by what a function makes of its index and of it.
    pub fn iter_mut<F: Fn(Index, T) -> T>(&mut self, update: F)
        requires
            old(self).valid(),
            forall|index: Index|
                old(self)@.values.contains_key(index@) ==> #[trigger] update.requires(
                    (index, old(self)@.values[index@]),
                ),
        ensures
            final(self).valid(),
            final(self).count() == old(self).count(),
            final(self)@.free == old(self)@.free,
            final(self)@.slots == old(self)@.slots,
            final(self)@.values.dom() == old(self)@.values.dom(),
            forall|index: Index| #[trigger]
                old(self)@.values.contains_key(index@) ==> update.ensures(
                    (index, old(self)@.values[index@]),
                    final(self)@.values[index@],
                ),
    {
        let indexes = self.indexes();
        let mut position: usize = 0;
        while position < indexes.len()
            invariant
                self.valid(),
                position <= indexes@.len(),
                forall|index: Index|
                    old(self)@.values.contains_key(index@) ==> #[trigger] update.requires(
                        (index, old(self)@.values[index@]),
                    ),
                forall|i: int, j: int|
                    0 <= i < j < indexes@.len() ==> (#[trigger] indexes@[i])@ < (
                    #[trigger] indexes@[j])@,
                forall|number: int| #[trigger]
                    old(self)@.values.contains_key(number) <==> exists|i: int|
                        0 <= i < indexes@.len() && (#[trigger] indexes@[i])@ == number,
                self.count() == old(self).count(),
                self@.free == old(self)@.free,
                self@.slots == old(self)@.slots,
                self@.values.dom() == old(self)@.values.dom(),
                forall|i: int|
                    0 <= i < position ==> update.ensures(
                        (#[trigger] indexes@[i], old(self)@.values[indexes@[i]@]),
                        self@.values[indexes@[i]@],
                    ),
                forall|i: int|
                    position <= i < indexes@.len() ==> self@.values[(#[trigger] indexes@[i])@]
                        == old(self)@.values[indexes@[i]@],
            decreases indexes@.len() - position,
        {
            let index = indexes[position];
            assert(old(self)@.values.contains_key(indexes@[position as int]@));
            assert(self@.values.contains_key(index@));
            let ghost before = self@;
            match self.remove(index) {
                Some(value) => {
                    let _ = self.insert(update(index, value));
                    proof {
                        assert(before.removed(index@).free.drop_last() =~= before.free);
                        assert(before.removed(index@).values.insert(
                            index@,
                            self@.values[index@],
                        ) =~= before.values.insert(index@, self@.values[index@]));
                    }
                },
                None => {},
            }
            proof {
                assert(self@.values.dom() =~= old(self)@.values.dom());
            }
            position = position + 1;
        }
        proof {
            assert forall|index: Index| #[trigger] old(self)@.values.contains_key(
                index@,
            ) implies update.ensures(
                (index, old(self)@.values[index@]),
                self@.values[index@],
            ) by {
                let i = choose|i: int|
                    0 <= i < indexes@.len() && (#[trigger] indexes@[i])@ == index@;
                assert(indexes@[i] == index);
            }
        }
    }
}

proof fn range_has_its_length(slots: int)
    requires
        slots >= 0,
    ensures
        Set::new(|n: int| 1 <= n <= slots).finite(),
        Set::new(|n: int| 1 <= n <= slots).len() == slots,
    decreases slots,
{
    let numbers = Set::new(|n: int| 1 <= n <= slots);
    if slots == 0 {
        assert(numbers =~= Set::empty());
    } else {
        range_has_its_length(slots - 1);
        assert(numbers =~= Set::new(|n: int| 1 <= n <= slots - 1).insert(slots));
    }
}

impl<T> Default for HandleTable<T> {
    fn default() -> (table: HandleTable<T>)
        ensures
            table.valid(),
            table@.values == Map::<int, T>::empty(),
            table@.free == Seq::<int>::empty(),
            table@.slots == 0,
            table.count() == 0,
    {
        HandleTable::new()
    }
}

/// The numbers up to a bound that stand for values are as many as those values,
/// and ascend.
proof fn numbers_up_to_are_exact<T>(table: HandleTableView<T>, bound: nat)
    ensures
        ({
            let numbers = table.numbers_up_to(bound);
            let held = table.values.dom().intersect(Set::new(|n: int| 1 <= n <= bound));
            &&& held.finite()
            &&& held.len() == numbers.len()
            &&& forall|i: int, j: int|
                0 <= i < j < numbers.len() ==> #[trigger] numbers[i] < #[trigger] numbers[j]
            &&& forall|i: int| 0 <= i < numbers.len() ==> held.contains(#[trigger] numbers[i])
            &&& forall|n: int| #[trigger] held.contains(n) ==> numbers.contains(n)
        }),
    decreases bound,
{
    let numbers = table.numbers_up_to(bound);
    let held = table.values.dom().intersect(Set::new(|n: int| 1 <= n <= bound));
    if bound == 0 {
        assert(held =~= Set::empty());
    } else {
        let before = (bound - 1) as nat;
        numbers_up_to_are_exact(table, before);
        let fewer = table.numbers_up_to(before);
        let rest = table.values.dom().intersect(Set::new(|n: int| 1 <= n <= before));
        if table.values.contains_key(bound as int) {
            assert(held =~= rest.insert(bound as int));
            assert forall|i: int, j: int| 0 <= i < j < numbers.len() implies #[trigger] numbers[i]
                < #[trigger] numbers[j] by {
                assert(rest.contains(fewer[i]));
            }
            assert forall|i: int| 0 <= i < numbers.len() implies held.contains(
                #[trigger] numbers[i],
            ) by {
                if i < fewer.len() {
                    assert(rest.contains(fewer[i]));
                }
            }
            assert forall|n: int| #[trigger] held.contains(n) implies numbers.contains(n) by {
                if n == bound {
                    assert(numbers[fewer.len() as int] == n);
                } else {
                    assert(rest.contains(n));
                    let i = choose|i: int| 0 <= i < fewer.len() && fewer[i] == n;
                    assert(numbers[i] == n);
                }
            }
        } else {
            assert(held =~= rest);
        }
    }
}

/// In a valid table the numbers in order are exactly those of the values, each
/// once, and the values and the free numbers together are as many as there are
/// slots.
pub proof fn numbers_are_those_of_the_values<T>(table: HandleTableView<T>)
    requires
        table.valid(),
    ensures
        table.values.dom().finite(),
        table.numbers().len() == table.values.dom().len(),
        table.values.dom().len() + table.free.len() == table.slots,
        forall|i: int, j: int|
            0 <= i < j < table.numbers().len() ==> #[trigger] table.numbers()[i]
                < #[trigger] table.numbers()[j],
        forall|number: int| #[trigger]
            table.values.contains_key(number) <==> table.numbers().contains(number),
{
    numbers_up_to_are_exact(table, table.slots);
    let slots = Set::new(|n: int| 1 <= n <= table.slots);
    let held = table.values.dom().intersect(slots);
    assert forall|n: int| table.values.dom().contains(n) implies slots.contains(n) by {
        assert(table.values.contains_key(n));
    }
    assert(held =~= table.values.dom());
    assert forall|number: int| #[trigger] table.values.contains_key(number) <==> table.numbers().contains(
        number,
    ) by {
        if table.values.contains_key(number) {
            assert(held.contains(number));
        }
        if table.numbers().contains(number) {
            let i = choose|i: int| 0 <= i < table.numbers().len() && table.numbers()[i] == number;
            assert(held.contains(table.numbers()[i]));
        }
    }
    let free = table.free.to_set();
    table.free.unique_seq_to_set();
    range_has_its_length(table.slots as int);
    assert(held.disjoint(free)) by {
        assert forall|n: int| free.contains(n) implies !held.contains(n) by {
            assert(table.free.contains(n));
            assert(!table.values.contains_key(n));
        }
    }
    assert(held + free =~= slots) by {
        assert forall|n: int| slots.contains(n) implies (held + free).contains(n) by {
            if !table.free.contains(n) {
                assert(table.values.contains_key(n));
            }
        }
        assert forall|n: int| free.contains(n) implies slots.contains(n) by {
            let i = choose|i: int| 0 <= i < table.free.len() && table.free[i] == n;
            assert(1 <= table.free[i] <= table.slots);
        }
    }
    vstd::set_lib::lemma_set_disjoint_lens(held, free);
}

/// What a valid table holds is valid, and its count is that of its values.
pub proof fn count_is_that_of_the_values<T>(table: &HandleTable<T>)
    requires
        table.valid(),
    ensures
        table@.valid(),
        table@.values.dom().finite(),
        table.count() == table@.values.dom().len(),
        table.count() == table@.numbers().len(),
        table.count() + table@.free.len() == table@.slots,
{
    numbers_are_those_of_the_values(table@);
}

/// A table is valid after a step, whatever was done to it.
proof fn steps_keep_tables_valid<T>(table: HandleTableView<T>, step: TableStep<T>)
    requires
        table.valid(),
    ensures
        table.stepped(step).valid(),
{
    let after = table.stepped(step);
    match step {
        TableStep::Clear => {},
        TableStep::Insert(value) => {
            assert forall|index: int| #[trigger] after.values.contains_key(index) <==> 1 <= index
                <= after.slots && !after.free.contains(index) by {
                assert(table.values.contains_key(index) <==> 1 <= index <= table.slots
                    && !table.free.contains(index));
                if table.free.len() > 0 {
                    let last = table.free.len() - 1;
                    assert(1 <= table.free[last] <= table.slots);
                    if after.free.contains(index) {
                        let i = choose|i: int| 0 <= i < after.free.len() && after.free[i] == index;
                        assert(table.free[i] == index);
                        assert(table.free[i] != table.free[last]);
                    }
                    if table.free.contains(index) && index != table.free[last] {
                        let i = choose|i: int| 0 <= i < table.free.len() && table.free[i] == index;
                        assert(after.free[i] == index);
                    }
                }
            }
        },
        TableStep::Remove(number) => {
            if table.values.contains_key(number) {
                assert(!table.free.contains(number));
                assert forall|index: int| #[trigger] after.values.contains_key(index) <==> 1
                    <= index <= after.slots && !after.free.contains(index) by {
                    assert(table.values.contains_key(index) <==> 1 <= index <= table.slots
                        && !table.free.contains(index));
                    if index == number {
                        assert(after.free[table.free.len() as int] == number);
                    }
                    if table.free.contains(index) {
                        let i = choose|i: int| 0 <= i < table.free.len() && table.free[i] == index;
                        assert(after.free[i] == index);
                    }
                    if after.free.contains(index) && index != number {
                        let i = choose|i: int| 0 <= i < after.free.len() && after.free[i] == index;
                        assert(table.free[i] == index);
                    }
                }
            }
        },
    }
}

/// The free numbers of a table stand in the order in which they were freed, and
/// there are as many slots as there were values at once.
proof fn history_of_a_table<T>(steps: Seq<TableStep<T>>)
    ensures
        table_after(steps).valid(),
        table_after(steps).slots == most_values(steps),
        forall|i: int|
            0 <= i < table_after(steps).free.len() ==> 0 <= freed_at(
                steps,
                #[trigger] table_after(steps).free[i],
            ) < steps.len(),
        forall|i: int, j: int|
            0 <= i < j < table_after(steps).free.len() ==> freed_at(
                steps,
                #[trigger] table_after(steps).free[i],
            ) < freed_at(steps, #[trigger] table_after(steps).free[j]),
        forall|number: int|
            #[trigger] freed_at(steps, number) >= 0 ==> 1 <= number <= table_after(steps).slots,
    decreases steps.len(),
{
    if steps.len() > 0 {
        let front = steps.drop_last();
        let before = table_after(front);
        let after = table_after(steps);
        history_of_a_table(front);
        steps_keep_tables_valid(before, steps.last());
        numbers_are_those_of_the_values(before);
        numbers_are_those_of_the_values(after);
        match steps.last() {
            TableStep::Clear => {},
            TableStep::Insert(value) => {
                assert forall|i: int| 0 <= i < after.free.len() implies 0 <= freed_at(
                    steps,
                    #[trigger] after.free[i],
                ) < steps.len() by {
                    assert(after.free[i] == before.free[i]);
                }
                assert forall|i: int, j: int| 0 <= i < j < after.free.len() implies freed_at(
                    steps,
                    #[trigger] after.free[i],
                ) < freed_at(steps, #[trigger] after.free[j]) by {
                    assert(after.free[i] == before.free[i]);
                    assert(after.free[j] == before.free[j]);
                }
            },
            TableStep::Remove(number) => {
                if before.values.contains_key(number) {
                    assert(1 <= number <= before.slots);
                    assert(!before.free.contains(number));
                    assert forall|i: int| 0 <= i < after.free.len() implies 0 <= freed_at(
                        steps,
                        #[trigger] after.free[i],
                    ) < steps.len() by {
                        if i < before.free.len() {
                            assert(after.free[i] == before.free[i]);
                        }
                    }
                    assert forall|i: int, j: int| 0 <= i < j < after.free.len() implies freed_at(
                        steps,
                        #[trigger] after.free[i],
                    ) < freed_at(steps, #[trigger] after.free[j]) by {
                        assert(after.free[i] == before.free[i]);
                        assert(before.free[i] != number);
                        if j < before.free.len() {
                            assert(after.free[j] == before.free[j]);
                            assert(before.free[j] != number);
                        }
                    }
                }
            },
        }
        assert forall|number: int| #[trigger] freed_at(steps, number) >= 0 implies 1 <= number
            <= after.slots by {
            assert(before.values.contains_key(number) ==> 1 <= number <= before.slots);
            assert(freed_at(front, number) >= 0 ==> 1 <= number <= before.slots);
        }
    }
}

/// Numbers stay small: whatever was done to a table, the next value gets a
/// number no larger than the most values that it held at once since it was made
/// or cleared, that value included. It is the number that was freed last and
/// not handed out again, or, where there is none, the count of the values then.
pub proof fn numbers_stay_below_the_most_values<T>(steps: Seq<TableStep<T>>, value: T)
    ensures
        ({
            let table = table_after(steps);
            let index = table.next();
            &&& table.valid()
            &&& table.slots == most_values(steps)
            &&& 1 <= index <= most_values(steps.push(TableStep::Insert(value)))
            &&& if exists|number: int| #[trigger] is_free_again(steps, number) {
                &&& is_free_again(steps, index)
                &&& forall|number: int| #[trigger]
                    is_free_again(steps, number) ==> freed_at(steps, number) <= freed_at(
                        steps,
                        index,
                    )
            } else {
                index == table.values.dom().len() + 1
            }
        }),
{
    let table = table_after(steps);
    let index = table.next();
    let longer = steps.push(TableStep::Insert(value));
    history_of_a_table(steps);
    history_of_a_table(longer);
    numbers_are_those_of_the_values(table);
    assert(longer.drop_last() =~= steps);
    assert(longer.last() == TableStep::Insert(value));
    if table.free.len() > 0 {
        assert(1 <= table.free[table.free.len() - 1] <= table.slots);
        assert(table.free.contains(index));
        assert(!table.values.contains_key(index));
        assert(is_free_again(steps, index));
    }
    assert forall|number: int| #[trigger] is_free_again(steps, number) implies table.free.contains(
        number,
    ) && freed_at(steps, number) <= freed_at(steps, index) by {
        assert(!table.values.contains_key(number));
        assert(table.free.contains(number));
        let i = choose|i: int| 0 <= i < table.free.len() && table.free[i] == number;
        let last = table.free.len() - 1;
        if i < last {
            assert(freed_at(steps, table.free[i]) < freed_at(steps, table.free[last]));
        }
    }
}

/// The number that became free last is handed out next, and with it the value
/// is back: removing and inserting leaves the table as it was but for the
/// value.
pub proof fn latest_number_is_reused<T>(table: HandleTableView<T>, index: int, value: T)
    requires
        table.valid(),
        table.values.contains_key(index),
    ensures
        table.removed(index).next() == index,
        table.removed(index).inserted(value) == (HandleTableView {
            values: table.values.insert(index, value),
            ..table
        }),
{
    let after = table.removed(index).inserted(value);
    assert(after.free =~= table.free);
    assert(after.values =~= table.values.insert(index, value));
}

/// A new value gets a number that stands for no other, and leaves the others
/// where they are.
pub proof fn numbers_are_unique<T>(table: HandleTableView<T>, value: T, other: int)
    requires
        table.valid(),
        table.values.contains_key(other),
    ensures
        !table.values.contains_key(table.next()),
        table.inserted(value).values.contains_key(other),
        table.inserted(value).values[other] == table.values[other],
        table.inserted(value).values[table.next()] == value,
{
    if table.free.len() > 0 {
        assert(table.free.contains(table.free.last()));
    }
}

/// A value is found under the number that it got until it is removed, comes back
/// unchanged, and is then gone; its number is the next one to be handed out.
/// Nothing happens to the other values.
pub proof fn values_are_found_under_their_number<T>(
    filled: &mut HandleTable<T>,
    emptied: &mut HandleTable<T>,
    refilled: &mut HandleTable<T>,
    values: (T, T),
    index: Index,
    again: Index,
    other: Index,
    found: (Option<&T>, Option<&T>, Option<&T>, Option<&T>, Option<&T>),
    removed: Option<T>,
    lens: (usize, usize, usize),
)
    requires
        old(filled).valid(),
        call_ensures(HandleTable::<T>::get, (&*old(filled), other), found.0),
        call_ensures(HandleTable::<T>::len, (&*old(filled),), lens.0),
        call_ensures(HandleTable::<T>::insert, (filled, values.0), index),
        call_ensures(HandleTable::<T>::get, (final(filled), index), found.1),
        call_ensures(HandleTable::<T>::get, (final(filled), other), found.2),
        call_ensures(HandleTable::<T>::len, (final(filled),), lens.1),
        *old(emptied) == *final(filled),
        call_ensures(HandleTable::<T>::remove, (emptied, index), removed),
        call_ensures(HandleTable::<T>::get, (final(emptied), index), found.3),
        call_ensures(HandleTable::<T>::get, (final(emptied), other), found.4),
        call_ensures(HandleTable::<T>::len, (final(emptied),), lens.2),
        *old(refilled) == *final(emptied),
        call_ensures(HandleTable::<T>::insert, (refilled, values.1), again),
    ensures
        found.1 matches Some(value) && *value == values.0,
        removed == Some(values.0),
        found.3 is None,
        found.0 is Some ==> index@ != other@,
        index@ != other@ ==> found.2 == found.0 && found.4 == found.0,
        lens.1 == lens.0 + 1 && lens.2 == lens.0,
        again@ == index@,
        1 <= index@ <= old(filled)@.slots + 1,
        old(filled)@.free.len() == 0 ==> index@ == lens.0 + 1,
{
    count_is_that_of_the_values(old(filled));
}

/// Removing what is not there changes nothing, and clearing leaves a table as if
/// it were new.
pub proof fn cleared_tables_are_new<T>(
    missed: &mut HandleTable<T>,
    cleared: &mut HandleTable<T>,
    index: Index,
    found: (Option<&T>, Option<&T>),
    removed: Option<T>,
    made: HandleTable<T>,
    len: usize,
    empty: (bool, bool),
)
    requires
        old(missed).valid(),
        call_ensures(HandleTable::<T>::new, (), made),
        call_ensures(HandleTable::<T>::get, (&*old(missed), index), found.0),
        found.0 is None,
        call_ensures(HandleTable::<T>::remove, (missed, index), removed),
        call_ensures(HandleTable::<T>::clear, (cleared,), ()),
        call_ensures(HandleTable::<T>::get, (final(cleared), index), found.1),
        call_ensures(HandleTable::<T>::len, (&made,), len),
        call_ensures(HandleTable::<T>::is_empty, (&made,), empty.0),
        call_ensures(HandleTable::<T>::is_empty, (final(cleared),), empty.1),
    ensures
        removed is None && final(missed)@ == old(missed)@,
        found.1 is None && final(cleared)@ == made@,
        len == 0 && empty.0 && empty.1,
{
}

/// The indexes of a table are those under which a value is found, each once and
/// in ascending order, and its items pair them with the values.
pub proof fn indexes_are_those_of_the_values<T>(
    table: &HandleTable<T>,
    indexes: Vec<Index>,
    items: Vec<(Index, &T)>,
    index: Index,
    found: Option<&T>,
    len: usize,
)
    requires
        table.valid(),
        call_ensures(HandleTable::<T>::indexes, (table,), indexes),
        call_ensures(HandleTable::<T>::iter, (table,), items),
        call_ensures(HandleTable::<T>::get, (table, index), found),
        call_ensures(HandleTable::<T>::len, (table,), len),
    ensures
        indexes@.len() == len && items@.len() == len,
        forall|i: int, j: int|
            0 <= i < j < len ==> (#[trigger] indexes@[i])@ < (#[trigger] indexes@[j])@,
        forall|i: int| 0 <= i < len ==> (#[trigger] items@[i]).0@ == indexes@[i]@,
        found is Some <==> exists|i: int| 0 <= i < len && (#[trigger] indexes@[i])@ == index@,
        forall|i: int|
            0 <= i < len && (#[trigger] items@[i]).0@ == index@ ==> found == Some(items@[i].1),
{
    assert(numbers_of(indexes@) == items@.map_values(|item: (Index, &T)| item.0@));
    assert forall|i: int| 0 <= i < len implies (#[trigger] items@[i]).0@ == indexes@[i]@ by {
        assert(numbers_of(indexes@)[i] == indexes@[i]@);
        assert(items@.map_values(|item: (Index, &T)| item.0@)[i] == items@[i].0@);
    }
}

/// A value that is made from its number is found under that number, and a change
/// of every value leaves each under its own.
pub proof fn values_know_their_number<T, F: FnOnce(Index) -> T, G: Fn(Index, T) -> T>(
    made: &mut HandleTable<T>,
    changed: &mut HandleTable<T>,
    make: F,
    change: G,
    index: Index,
    other: Index,
    found: Option<&T>,
    read: (Option<&T>, Option<&T>),
)
    requires
        old(made).valid(),
        old(changed).valid(),
        call_ensures(HandleTable::<T>::insert_fn::<F>, (made, make), index),
        call_ensures(HandleTable::<T>::get, (final(made), index), found),
        call_ensures(HandleTable::<T>::get, (&*old(changed), other), read.0),
        call_ensures(HandleTable::<T>::iter_mut::<G>, (changed, change), ()),
        call_ensures(HandleTable::<T>::get, (final(changed), other), read.1),
    ensures
        found matches Some(value) && make.ensures((index,), *value),
        !old(made)@.values.contains_key(index@),
        read.0 is Some <==> read.1 is Some,
        read.0 matches Some(before) ==> change.ensures((other, *before), *read.1->0),
{
    count_is_that_of_the_values(old(made));
}

/// An index has the number that it was made of, which is never zero.
pub proof fn indexes_have_their_number(number: usize, index: Option<Index>, read: usize)
    requires
        call_ensures(Index::new, (number,), index),
        index matches Some(index) ==> call_ensures(Index::get, (&index,), read),
    ensures
        index is Some <==> number != 0,
        index is Some ==> read == number,
{
}

} // verus!
