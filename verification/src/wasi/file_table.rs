//! The table of open files of a WASI instance, indexed by file descriptor.
use vstd::prelude::*;

verus! {

/// Open files by descriptor; a closed descriptor is an empty slot, which the
/// next file added takes.
pub struct FileTable<F>(pub Vec<Option<F>>);

impl<F> View for FileTable<F> {
    type V = Seq<Option<F>>;

    open spec fn view(&self) -> Seq<Option<F>> {
        self.0@
    }
}

/// The lowest empty slot of `s` from `i` on, if any.
pub open spec fn first_free_from<F>(s: Seq<Option<F>>, i: int) -> Option<int>
    decreases s.len() - i,
{
    if i < 0 || i >= s.len() {
        None
    } else if s[i] is None {
        Some(i)
    } else {
        first_free_from(s, i + 1)
    }
}

/// The lowest empty slot of `s`, if any.
pub open spec fn first_free<F>(s: Seq<Option<F>>) -> Option<int> {
    first_free_from(s, 0)
}

/// The slot that the next file added takes.
pub open spec fn next_slot<F>(s: Seq<Option<F>>) -> int {
    match first_free(s) {
        Some(i) => i,
        None => s.len() as int,
    }
}

/// The slots after adding `file`: it takes the lowest empty slot, or a new
/// one at the end.
pub open spec fn spec_add<F>(s: Seq<Option<F>>, file: F) -> Seq<Option<F>> {
    match first_free(s) {
        Some(i) => s.update(i, Some(file)),
        None => s.push(Some(file)),
    }
}

/// The slots after setting slot `idx` to `file`, with empty slots added up
/// to it when it is past the end.
pub open spec fn spec_set<F>(s: Seq<Option<F>>, idx: int, file: Option<F>) -> Seq<Option<F>> {
    if idx < s.len() {
        s.update(idx, file)
    } else {
        (s + Seq::new((idx - s.len()) as nat, |i: int| None::<F>)).push(file)
    }
}

/// What the scan for an empty slot finds is empty, and every slot before it
/// from where the scan starts is taken.
pub proof fn lemma_first_free_from<F>(s: Seq<Option<F>>, i: int)
    requires
        0 <= i,
    ensures
        first_free_from(s, i) matches Some(j) ==> i <= j < s.len() && s[j] is None && forall|k: int|
            i <= k < j ==> s[k] is Some,
        first_free_from(s, i) is None ==> forall|k: int| i <= k < s.len() ==> s[k] is Some,
    decreases s.len() - i,
{
    if i < s.len() && s[i] is Some {
        lemma_first_free_from(s, i + 1);
    }
}

impl<F> FileTable<F> {
    /// A table of the given files, at descriptors from 0 on.
    pub fn with_io(files: Vec<F>) -> (t: FileTable<F>)
        ensures
            t@.len() == files@.len(),
            forall|i: int| 0 <= i < files@.len() ==> #[trigger] t@[i] == Some(files@[i]),
    {
        let mut slots: Vec<Option<F>> = Vec::new();
        let mut files = files;
        let ghost all = files@;
        while files.len() > 0
            invariant
                slots@.len() + files@.len() == all.len(),
                files@ == all.skip(slots@.len() as int),
                forall|i: int| 0 <= i < slots@.len() ==> #[trigger] slots@[i] == Some(all[i]),
            decreases files@.len(),
        {
            let ghost k = slots@.len() as int;
            let f = files.remove(0);
            assert(files@ =~= all.skip(k + 1));
            slots.push(Some(f));
        }
        FileTable(slots)
    }

    /// The open file at `idx`.
    pub fn get(&self, idx: usize) -> (r: Option<&F>)
        ensures
            idx < self@.len() && self@[idx as int] is Some ==> r == Some(&self@[idx as int]->0),
            !(idx < self@.len() && self@[idx as int] is Some) ==> r is None,
    {
        if idx < self.0.len() {
            match &self.0[idx] {
                Some(f) => Some(f),
                None => None,
            }
        } else {
            None
        }
    }

    /// Adds a file at the lowest free descriptor and gives the descriptor.
    pub fn add(&mut self, file: F) -> (idx: usize)
        ensures
            idx == next_slot(old(self)@),
            final(self)@ == spec_add(old(self)@, file),
    {
        let n = self.0.len();
        let mut i: usize = 0;
        proof {
            lemma_first_free_from(self@, 0);
        }
        while i < n
            invariant
                n == self@.len(),
                self@ == old(self)@,
                i <= n,
                first_free(self@) == first_free_from(self@, i as int),
            decreases n - i,
        {
            if self.0[i].is_none() {
                self.0.set(i, Some(file));
                return i;
            }
            i = i + 1;
        }
        self.0.push(Some(file));
        n
    }

    /// Takes the file out of `idx`, leaving the slot empty.
    pub fn take(&mut self, idx: usize) -> (r: Option<F>)
        ensures
            idx < old(self)@.len() ==> r == old(self)@[idx as int] && final(self)@ == old(self)@.update(
                idx as int,
                None,
            ),
            idx >= old(self)@.len() ==> r is None && final(self)@ == old(self)@,
    {
        if idx < self.0.len() {
            let slot = self.0.remove(idx);
            self.0.insert(idx, None);
            assert(self@ =~= old(self)@.update(idx as int, None));
            slot
        } else {
            None
        }
    }

    /// Puts `file` at `idx`, adding empty slots up to it if needed.
    pub fn set(&mut self, idx: usize, file: Option<F>)
        requires
            idx < usize::MAX,
        ensures
            final(self)@ == spec_set(old(self)@, idx as int, file),
    {
        if idx >= self.0.len() {
            while self.0.len() < idx
                invariant
                    old(self)@.len() <= self@.len() <= idx,
                    self@ == old(self)@ + Seq::new((self@.len() - old(self)@.len()) as nat, |i: int| None::<F>),
                decreases idx - self@.len(),
            {
                self.0.push(None);
                assert(self@ =~= old(self)@ + Seq::new((self@.len() - old(self)@.len()) as nat, |i: int| None::<F>));
            }
            self.0.push(file);
        } else {
            self.0.remove(idx);
            self.0.insert(idx, file);
            assert(self@ =~= old(self)@.update(idx as int, file));
        }
    }

    /// Closes the file at `idx`; whether the descriptor was in the table.
    pub fn close(&mut self, idx: usize) -> (ok: bool)
        ensures
            ok == (idx < old(self)@.len()),
            ok ==> final(self)@ == old(self)@.update(idx as int, None),
            !ok ==> final(self)@ == old(self)@,
    {
        if idx < self.0.len() {
            self.0.remove(idx);
            self.0.insert(idx, None);
            assert(self@ =~= old(self)@.update(idx as int, None));
            true
        } else {
            false
        }
    }
}

/// A file added to the table is what `get` gives at the descriptor that
/// `add` returned.
pub proof fn lemma_get_after_add<F>(s: Seq<Option<F>>, file: F)
    ensures
        0 <= next_slot(s) < spec_add(s, file).len(),
        spec_add(s, file)[next_slot(s)] == Some(file),
        forall|k: int| 0 <= k < s.len() && k != next_slot(s) ==> #[trigger] spec_add(s, file)[k] == s[k],
{
    lemma_first_free_from(s, 0);
}

/// `add` takes the lowest free descriptor: every descriptor below it is in
/// use, and a closed descriptor is reused by the next `add`.
pub proof fn lemma_add_lowest_free<F>(s: Seq<Option<F>>, file: F)
    ensures
        forall|k: int| 0 <= k < next_slot(s) ==> #[trigger] s[k] is Some,
        next_slot(s) < s.len() ==> s[next_slot(s)] is None,
{
    lemma_first_free_from(s, 0);
}

/// Closing a descriptor and then adding a file, when every lower descriptor
/// is in use, gives the file that descriptor.
pub proof fn lemma_add_reuses_closed<F>(s: Seq<Option<F>>, idx: int, file: F)
    requires
        0 <= idx < s.len(),
        forall|k: int| 0 <= k < idx ==> #[trigger] s[k] is Some,
    ensures
        next_slot(s.update(idx, None)) == idx,
{
    let t = s.update(idx, None);
    lemma_first_free_from(t, 0);
    assert(t[idx] is None);
    if first_free(t) is None {
        assert(false);
    }
}

/// After `set`, the slot holds what was set, and the other slots that were
/// there are unchanged.
pub proof fn lemma_get_after_set<F>(s: Seq<Option<F>>, idx: int, file: Option<F>)
    requires
        0 <= idx,
    ensures
        spec_set(s, idx, file).len() == if idx < s.len() { s.len() as int } else { idx + 1 },
        spec_set(s, idx, file)[idx] == file,
        forall|k: int| 0 <= k < s.len() && k != idx ==> #[trigger] spec_set(s, idx, file)[k] == s[k],
{
}

} // verus!
