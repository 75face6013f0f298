use vstd::prelude::*;
use crate::chunker::{opt_view, strings_view};

verus! {

pub open spec fn is_lower_ascii(c: char) -> bool {
    'a' <= c && c <= 'z'
}

/// A chunk is worth narrating when it holds a lowercase ASCII letter.
pub open spec fn speakable(s: Seq<char>) -> bool {
    exists|i: int| 0 <= i < s.len() && is_lower_ascii(#[trigger] s[i])
}

/// Whether the chunk holds a lowercase ASCII letter.
pub fn is_speakable(s: &str) -> (r: bool)
    ensures
        r == speakable(s@),
{
    let n = s.unicode_len();
    let mut i: usize = 0;
    while i < n
        invariant
            n == s@.len(),
            i <= n,
            forall|k: int| 0 <= k < i ==> !is_lower_ascii(#[trigger] s@[k]),
        decreases n - i,
    {
        let c = s.get_char(i);
        if 'a' <= c && c <= 'z' {
            assert(is_lower_ascii(s@[i as int]));
            return true;
        }
        i += 1;
    }
    false
}

/// The queue after the consumer takes its next utterance, and that utterance:
/// leading chunks with nothing to say are dropped.
pub open spec fn next_spoken(q: Seq<Seq<char>>) -> (Seq<Seq<char>>, Option<Seq<char>>)
    decreases q.len(),
{
    if q.len() == 0 {
        (q, None)
    } else if speakable(q[0]) {
        (q.drop_first(), Some(q[0]))
    } else {
        next_spoken(q.drop_first())
    }
}

/// Ordered queue of chunks waiting to be narrated.
pub struct NarrationQueue {
    items: std::collections::VecDeque<String>,
}

impl View for NarrationQueue {
    type V = Seq<Seq<char>>;

    closed spec fn view(&self) -> Seq<Seq<char>> {
        strings_view(self.items@)
    }
}

impl NarrationQueue {
    pub fn new() -> (r: Self)
        ensures
            r@ == Seq::<Seq<char>>::empty(),
    {
        NarrationQueue { items: std::collections::VecDeque::new() }
    }

    pub fn len(&self) -> (r: usize)
        ensures
            r == self@.len(),
    {
        self.items.len()
    }

    pub fn is_empty(&self) -> (r: bool)
        ensures
            r == (self@.len() == 0),
    {
        self.items.len() == 0
    }

    /// Appends a chunk at the back.
    pub fn push(&mut self, chunk: String)
        ensures
            final(self)@ == old(self)@.push(chunk@),
    {
        self.items.push_back(chunk);
        proof {
            assert(strings_view(self.items@) =~= old(self)@.push(chunk@));
        }
    }

    /// Takes the chunk at the front.
    pub fn pop(&mut self) -> (r: Option<String>)
        ensures
            old(self)@.len() == 0 ==> r is None && final(self)@ == old(self)@,
            old(self)@.len() > 0 ==> opt_view(r) == Some(old(self)@[0]) && final(self)@
                == old(self)@.drop_first(),
    {
        let r = self.items.pop_front();
        proof {
            if old(self)@.len() > 0 {
                assert(strings_view(self.items@) =~= old(self)@.drop_first());
            }
        }
        r
    }

    /// The next chunk to narrate; chunks with nothing to say are dropped on
    /// the way, and the rest keep their order.
    pub fn next_utterance(&mut self) -> (r: Option<String>)
        ensures
            (final(self)@, opt_view(r)) == next_spoken(old(self)@),
    {
        loop
            invariant
                next_spoken(self@) == next_spoken(old(self)@),
            decreases self@.len(),
        {
            match self.pop() {
                None => {
                    return None;
                },
                Some(chunk) => {
                    if is_speakable(chunk.as_str()) {
                        return Some(chunk);
                    }
                },
            }
        }
    }
}

/// The whole queue pushed after what it held, in order.
pub open spec fn push_all(q: Seq<Seq<char>>, items: Seq<Seq<char>>) -> Seq<Seq<char>>
    decreases items.len(),
{
    if items.len() == 0 {
        q
    } else {
        push_all(q.push(items[0]), items.drop_first())
    }
}

/// What a run of pops hands out, front first, until the queue is empty.
pub open spec fn drain(q: Seq<Seq<char>>) -> Seq<Seq<char>>
    decreases q.len(),
{
    if q.len() == 0 {
        Seq::empty()
    } else {
        seq![q[0]] + drain(q.drop_first())
    }
}

/// Chunks pushed one after another by one producer come out in the order
/// they went in, after what the queue already held.
pub proof fn lemma_queue_keeps_order(q: Seq<Seq<char>>, items: Seq<Seq<char>>)
    ensures
        push_all(q, items) == q + items,
        drain(push_all(q, items)) == q + items,
    decreases items.len(),
{
    if items.len() > 0 {
        lemma_queue_keeps_order(q.push(items[0]), items.drop_first());
        assert(q.push(items[0]) + items.drop_first() =~= q + items);
    }
    lemma_drain_is_identity(q + items);
}

proof fn lemma_drain_is_identity(q: Seq<Seq<char>>)
    ensures
        drain(q) == q,
    decreases q.len(),
{
    if q.len() > 0 {
        lemma_drain_is_identity(q.drop_first());
        assert(seq![q[0]] + q.drop_first() =~= q);
    }
}

pub open spec fn speakable_pred() -> spec_fn(Seq<char>) -> bool {
    |s: Seq<char>| speakable(s)
}

/// The consumer speaks exactly the speakable chunks, in queue order: a chunk
/// with nothing to say is dropped and the next one is served in its place.
pub proof fn lemma_consumer_speaks_filtered(q: Seq<Seq<char>>)
    ensures
        ({
            let f = q.filter(speakable_pred());
            let (rest, out) = next_spoken(q);
            &&& f.len() == 0 ==> out is None && rest.len() == 0
            &&& f.len() > 0 ==> out == Some(f[0]) && rest.filter(speakable_pred())
                == f.drop_first()
        }),
    decreases q.len(),
{
    if q.len() > 0 {
        let t = q.drop_first();
        lemma_consumer_speaks_filtered(t);
        assert(q =~= seq![q[0]] + t);
        Seq::filter_distributes_over_add(seq![q[0]], t, speakable_pred());
        reveal_with_fuel(Seq::filter, 2);
        assert(seq![q[0]].drop_last() =~= Seq::<Seq<char>>::empty());
        if speakable(q[0]) {
            assert(seq![q[0]].filter(speakable_pred()) =~= seq![q[0]]);
            assert(q.filter(speakable_pred()) =~= seq![q[0]] + t.filter(speakable_pred()));
            assert((seq![q[0]] + t.filter(speakable_pred())).drop_first() =~= t.filter(
                speakable_pred(),
            ));
        } else {
            assert(seq![q[0]].filter(speakable_pred()) =~= Seq::<Seq<char>>::empty());
            assert(q.filter(speakable_pred()) =~= t.filter(speakable_pred()));
        }
    }
}

} // verus!
