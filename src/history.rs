use vstd::prelude::*;

verus! {

/// One published dispatch table together with the size tag it was built with.
pub struct Entry<T> {
    pub abi_size_tag: usize,
    pub table: T,
}

/// Every table in the sequence carries the size tag of the first one.
pub open spec fn tags_agree<T>(entries: Seq<Entry<T>>) -> bool {
    forall|i: int| 0 <= i < entries.len() ==> #[trigger] entries[i].abi_size_tag == entries[0].abi_size_tag
}

/// A history is well formed when it holds at least the initial table and
/// every later table kept the initial size tag.
pub open spec fn history_wf<T>(entries: Seq<Entry<T>>) -> bool {
    &&& entries.len() > 0
    &&& tags_agree(entries)
}

/// The arena of every dispatch table that was ever published, oldest first.
///
/// The last entry is the current one. Entries are never removed, so a
/// reader that still holds an older table can keep calling through it.
pub struct ReloadHistory<T> {
    entries: Vec<Entry<T>>,
}

impl<T> View for ReloadHistory<T> {
    type V = Seq<Entry<T>>;

    closed spec fn view(&self) -> Seq<Entry<T>> {
        self.entries@
    }
}

impl<T> ReloadHistory<T> {
    pub open spec fn wf(&self) -> bool {
        history_wf(self@)
    }

    /// A history whose only table is the one the process started with.
    pub fn new(initial: T, abi_size_tag: usize) -> (r: Self)
        ensures
            r@ == seq![Entry { abi_size_tag, table: initial }],
            r.wf(),
    {
        let mut entries: Vec<Entry<T>> = Vec::new();
        entries.push(Entry { abi_size_tag, table: initial });
        ReloadHistory { entries }
    }

    /// Number of tables published so far, the initial one included.
    pub fn len(&self) -> (r: usize)
        ensures
            r == self@.len(),
    {
        self.entries.len()
    }

    /// The table that readers dispatch through now.
    pub fn current(&self) -> (r: &T)
        requires
            self.wf(),
        ensures
            *r == self@.last().table,
    {
        &self.entries[self.entries.len() - 1].table
    }

    /// Size tag of the current table.
    pub fn current_tag(&self) -> (r: usize)
        requires
            self.wf(),
        ensures
            r == self@.last().abi_size_tag,
    {
        self.entries[self.entries.len() - 1].abi_size_tag
    }

    /// A table published earlier; it stays valid for the life of the history.
    pub fn get(&self, generation: usize) -> (r: Option<&T>)
        ensures
            generation < self@.len() ==> r == Some(&self@[generation as int].table),
            generation >= self@.len() ==> r.is_none(),
    {
        if generation < self.entries.len() {
            Some(&self.entries[generation].table)
        } else {
            None
        }
    }

    /// Appends `table` when its size tag matches the current one, and returns
    /// its generation, the position it now has in the history. A table with
    /// another tag is refused, with the current tag, and the history is left
    /// as it was.
    pub fn publish(&mut self, abi_size_tag: usize, table: T) -> (r: Result<usize, usize>)
        requires
            old(self).wf(),
        ensures
            final(self).wf(),
            abi_size_tag == old(self)@.last().abi_size_tag ==> {
                &&& final(self)@ == old(self)@.push(Entry { abi_size_tag, table })
                &&& r == Ok::<usize, usize>(old(self)@.len() as usize)
            },
            abi_size_tag != old(self)@.last().abi_size_tag ==> {
                &&& final(self)@ == old(self)@
                &&& r == Err::<usize, usize>(old(self)@.last().abi_size_tag)
            },
    {
        let current = self.current_tag();
        if abi_size_tag != current {
            return Err(current);
        }
        let generation = self.entries.len();
        self.entries.push(Entry { abi_size_tag, table });
        proof {
            let s = self@;
            assert(s[0] == old(self)@[0]);
            assert forall|i: int| 0 <= i < s.len() implies #[trigger] s[i].abi_size_tag == s[0].abi_size_tag by {
                if i < old(self)@.len() {
                    assert(s[i] == old(self)@[i]);
                }
            }
        }
        Ok(generation)
    }
}

} // verus!
