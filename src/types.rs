use vstd::prelude::*;

verus! {

/// The demo application's state: the word indices shown in the list, the
/// index that the next added item gets, and whether the user asked the list
/// to follow its end.
pub struct AppData {
    pub indices: Vec<usize>,
    pub next_index: usize,
    pub snap_user_requested: bool,
}

impl AppData {
    /// An empty list that follows its end.
    pub fn new() -> (r: AppData)
        ensures
            r.indices@ == Seq::<usize>::empty(),
            r.next_index == 0,
            r.snap_user_requested,
    {
        AppData { indices: Vec::new(), next_index: 0, snap_user_requested: true }
    }

    /// Appends `next_index` to the list and advances it, wrapping to zero
    /// after the last of `word_count` words.
    pub fn add_item(&mut self, word_count: usize)
        requires
            old(self).next_index < word_count,
        ensures
            final(self).indices@ == old(self).indices@.push(old(self).next_index),
            final(self).next_index == if old(self).next_index + 1 == word_count {
                0
            } else {
                old(self).next_index + 1
            },
            final(self).next_index < word_count,
            final(self).snap_user_requested == old(self).snap_user_requested,
    {
        self.indices.push(self.next_index);
        if self.next_index == word_count - 1 {
            self.next_index = 0;
        } else {
            self.next_index = self.next_index + 1;
        }
    }

    /// Empties the list and starts the words over.
    pub fn clear(&mut self)
        ensures
            final(self).indices@ == Seq::<usize>::empty(),
            final(self).next_index == 0,
            final(self).snap_user_requested == old(self).snap_user_requested,
    {
        self.next_index = 0;
        self.indices = Vec::new();
    }
}

} // verus!
