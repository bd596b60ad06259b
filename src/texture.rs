use vstd::prelude::*;

verus! {

/// What loading a decoded texture returns to a table that holds `n`
/// textures: the next index, or the decode failure.
pub open spec fn load_result<T, E>(n: nat, decoded: Result<T, E>) -> Result<usize, E> {
    match decoded {
        Ok(_) => Ok(n as usize),
        Err(e) => Err(e),
    }
}

/// The table's textures after loading: the texture is appended on success,
/// nothing changes on failure.
pub open spec fn after_load<T, E>(entries: Seq<T>, decoded: Result<T, E>) -> Seq<T> {
    match decoded {
        Ok(t) => entries.push(t),
        Err(_) => entries,
    }
}

/// The textures of a table that started empty, after loading each of
/// `loads` in turn.
pub open spec fn table_after<T, E>(loads: Seq<Result<T, E>>) -> Seq<T>
    decreases loads.len(),
{
    if loads.len() == 0 {
        Seq::empty()
    } else {
        after_load(table_after(loads.drop_last()), loads.last())
    }
}

/// The number of successful decodes among `loads`.
pub open spec fn successes<T, E>(loads: Seq<Result<T, E>>) -> nat
    decreases loads.len(),
{
    if loads.len() == 0 {
        0
    } else {
        successes(loads.drop_last()) + if loads.last() is Ok {
            1nat
        } else {
            0nat
        }
    }
}

/// Textures by index, in the order they were loaded; the table only grows.
pub struct TextureTable<T> {
    entries: Vec<T>,
}

impl<T> TextureTable<T> {
    pub closed spec fn entry_seq(&self) -> Seq<T> {
        self.entries@
    }

    /// An empty table.
    pub fn new() -> (r: Self)
        ensures
            r.entry_seq() == Seq::<T>::empty(),
    {
        TextureTable { entries: Vec::new() }
    }

    /// The number of textures.
    pub fn len(&self) -> (r: usize)
        ensures
            r == self.entry_seq().len(),
    {
        self.entries.len()
    }

    /// The texture at `index`, if there is one.
    pub fn get(&self, index: usize) -> (r: Option<&T>)
        ensures
            index < self.entry_seq().len() ==> r == Some(&self.entry_seq()[index as int]),
            index >= self.entry_seq().len() ==> r is None,
    {
        if index < self.entries.len() {
            Some(&self.entries[index])
        } else {
            None
        }
    }

    /// Appends a decoded texture and returns its index, or hands back the
    /// decode failure without allocating an index.
    pub fn load_texture<E>(&mut self, decoded: Result<T, E>) -> (r: Result<usize, E>)
        ensures
            r == load_result(old(self).entry_seq().len(), decoded),
            final(self).entry_seq() == after_load(old(self).entry_seq(), decoded),
    {
        match decoded {
            Ok(t) => {
                let index = self.entries.len();
                self.entries.push(t);
                Ok(index)
            },
            Err(e) => Err(e),
        }
    }
}

/// A table that started empty holds one texture per successful decode.
pub proof fn lemma_table_counts_successes<T, E>(loads: Seq<Result<T, E>>)
    ensures
        table_after(loads).len() == successes(loads),
    decreases loads.len(),
{
    if loads.len() > 0 {
        lemma_table_counts_successes(loads.drop_last());
    }
}

/// Loading into a table that started empty hands out 0, 1, 2, ... in call
/// order: the load at position `k` returns the number of successful loads
/// before it, and a failed decode returns its error and uses up no index.
pub proof fn lemma_indices_in_call_order<T, E>(loads: Seq<Result<T, E>>, k: int)
    requires
        0 <= k < loads.len(),
    ensures
        load_result(table_after(loads.take(k)).len(), loads[k]) == match loads[k] {
            Ok(_) => Ok::<usize, E>(successes(loads.take(k)) as usize),
            Err(e) => Err(e),
        },
        table_after(loads.take(k + 1)).len() == successes(loads.take(k)) + if loads[k] is Ok {
            1nat
        } else {
            0nat
        },
{
    lemma_table_counts_successes(loads.take(k));
    lemma_table_counts_successes(loads.take(k + 1));
    assert(loads.take(k + 1).drop_last() =~= loads.take(k));
}

} // verus!
