//! A message sink that records every sent message in memory, for tests.
use vstd::prelude::*;

verus! {

/// Records every message handed to it, in send order, instead of dispatching it.
pub struct MockSender<M: Clone> {
    captured: Vec<M>,
}

impl<M: Clone> View for MockSender<M> {
    type V = Seq<M>;

    closed spec fn view(&self) -> Seq<M> {
        self.captured@
    }
}

impl<M: Clone> MockSender<M> {
    /// A sender that has captured nothing yet.
    pub fn new() -> (s: Self)
        ensures
            s@ == Seq::<M>::empty(),
    {
        MockSender { captured: Vec::new() }
    }

    /// Record one sent message (a clone of it) after those captured so far.
    pub fn record(&mut self, message: &M)
        ensures
            final(self)@.len() == old(self)@.len() + 1,
            final(self)@.take(old(self)@.len() as int) == old(self)@,
            cloned(*message, final(self)@.last()),
    {
        let copy = message.clone();
        self.captured.push(copy);
        assert(self.captured@.take(old(self)@.len() as int) =~= old(self)@);
    }

    /// Clones of all messages captured so far, in send order.
    pub fn messages(&self) -> (v: Vec<M>)
        ensures
            v@.len() == self@.len(),
            forall|i: int| 0 <= i < self@.len() ==> cloned(#[trigger] self@[i], v@[i]),
    {
        self.captured.clone()
    }

    /// The number of messages captured so far.
    pub fn len(&self) -> (n: usize)
        ensures
            n == self@.len(),
    {
        self.captured.len()
    }

    /// Whether no message has been captured yet.
    pub fn is_empty(&self) -> (r: bool)
        ensures
            r == (self@.len() == 0),
    {
        self.captured.len() == 0
    }

    /// Forget all captured messages.
    pub fn clear(&mut self)
        ensures
            final(self)@ == Seq::<M>::empty(),
    {
        self.captured.clear();
    }
}

impl<M: Clone> Default for MockSender<M> {
    /// Same as [`MockSender::new`].
    fn default() -> (s: Self)
        ensures
            s@ == Seq::<M>::empty(),
    {
        MockSender::new()
    }
}

/// The error type of the mock sender, which never fails.
#[derive(Debug)]
pub struct MockError;

} // verus!
