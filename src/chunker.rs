use vstd::prelude::*;

verus! {

/// Separator placed between fragments when a chunk is assembled.
pub open spec fn separator() -> Seq<char> {
    seq![' ']
}

/// The fragments joined in order, with `sep` between neighbours.
pub open spec fn join_with(parts: Seq<Seq<char>>, sep: Seq<char>) -> Seq<char>
    decreases parts.len(),
{
    if parts.len() == 0 {
        Seq::empty()
    } else if parts.len() == 1 {
        parts[0]
    } else {
        join_with(parts.drop_last(), sep) + sep + parts.last()
    }
}

/// The fragment holds at least one of the sentence-terminating characters.
pub open spec fn ends_sentence(fragment: Seq<char>, terminators: Seq<char>) -> bool {
    exists|i: int| 0 <= i < fragment.len() && terminators.contains(#[trigger] fragment[i])
}

/// Abstract state of a chunker: what it holds and how it is tuned.
pub struct ChunkerView {
    pub pending: Seq<Seq<char>>,
    pub min_fragments: nat,
    pub terminators: Seq<char>,
}

/// The state and the emitted chunk after one fragment is fed.
pub open spec fn feed_spec(c: ChunkerView, fragment: Seq<char>) -> (ChunkerView, Option<Seq<char>>) {
    let acc = c.pending.push(fragment);
    if ends_sentence(fragment, c.terminators) && acc.len() > c.min_fragments {
        (ChunkerView { pending: Seq::empty(), ..c }, Some(join_with(acc, separator())))
    } else {
        (ChunkerView { pending: acc, ..c }, None)
    }
}

/// The state and the emitted chunk at end of stream.
pub open spec fn finish_spec(c: ChunkerView) -> (ChunkerView, Option<Seq<char>>) {
    if c.pending.len() > 0 {
        (ChunkerView { pending: Seq::empty(), ..c }, Some(join_with(c.pending, separator())))
    } else {
        (c, None)
    }
}

/// The text of an optional string.
pub open spec fn opt_view(o: Option<String>) -> Option<Seq<char>> {
    match o {
        Some(s) => Some(s@),
        None => None,
    }
}

pub open spec fn strings_view(v: Seq<String>) -> Seq<Seq<char>> {
    v.map_values(|s: String| s@)
}

/// Accumulates streamed fragments and cuts them into speakable chunks.
pub struct SentenceChunker {
    fragments: Vec<String>,
    min_fragments: usize,
    terminators: Vec<char>,
}

impl View for SentenceChunker {
    type V = ChunkerView;

    closed spec fn view(&self) -> ChunkerView {
        ChunkerView {
            pending: strings_view(self.fragments@),
            min_fragments: self.min_fragments as nat,
            terminators: self.terminators@,
        }
    }
}

/// Default number of fragments a chunk must exceed before a terminator cuts it.
pub const DEFAULT_MIN_FRAGMENTS: usize = 10;

/// Whether `s` holds a character of `terminators`.
pub fn contains_terminator(s: &str, terminators: &Vec<char>) -> (r: bool)
    ensures
        r == ends_sentence(s@, terminators@),
{
    let n = s.unicode_len();
    let mut i: usize = 0;
    while i < n
        invariant
            n == s@.len(),
            i <= n,
            forall|k: int| 0 <= k < i ==> !terminators@.contains(#[trigger] s@[k]),
        decreases n - i,
    {
        let c = s.get_char(i);
        let mut j: usize = 0;
        while j < terminators.len()
            invariant
                n == s@.len(),
                i < n,
                c == s@[i as int],
                j <= terminators.len(),
                forall|m: int| 0 <= m < j ==> terminators@[m] != c,
            decreases terminators.len() - j,
        {
            if terminators[j] == c {
                assert(terminators@.contains(s@[i as int]));
                return true;
            }
            j += 1;
        }
        i += 1;
    }
    false
}

/// Joins the fragments in order with one space between neighbours.
pub fn join_fragments(parts: &Vec<String>) -> (r: String)
    ensures
        r@ == join_with(strings_view(parts@), separator()),
{
    let ghost pv = strings_view(parts@);
    let mut r = String::new();
    let mut i: usize = 0;
    while i < parts.len()
        invariant
            pv == strings_view(parts@),
            i <= parts.len(),
            r@ == join_with(pv.take(i as int), separator()),
        decreases parts.len() - i,
    {
        let ghost before = r@;
        if i > 0 {
            proof {
                reveal_strlit(" ");
                assert(" "@ =~= separator());
            }
            r.append(" ");
            assert(r@ == before + separator());
        }
        r.append(parts[i].as_str());
        proof {
            let t = pv.take(i as int + 1);
            assert(t.drop_last() =~= pv.take(i as int));
            assert(t.last() == parts@[i as int]@);
            assert(r@ =~= join_with(t, separator()));
        }
        i += 1;
    }
    assert(pv.take(parts.len() as int) =~= pv);
    r
}

impl SentenceChunker {
    /// A chunker that cuts on an ASCII period or a full-width period once
    /// more than `min_fragments` fragments are held.
    pub fn new(min_fragments: usize) -> (r: Self)
        ensures
            r@.pending.len() == 0,
            r@.min_fragments == min_fragments,
            r@.terminators == seq!['.', '。'],
    {
        let mut terminators: Vec<char> = Vec::new();
        terminators.push('.');
        terminators.push('。');
        SentenceChunker { fragments: Vec::new(), min_fragments, terminators }
    }

    /// Adds one more sentence-terminating character.
    pub fn add_terminator(&mut self, c: char)
        ensures
            final(self)@.pending == old(self)@.pending,
            final(self)@.min_fragments == old(self)@.min_fragments,
            final(self)@.terminators == old(self)@.terminators.push(c),
    {
        self.terminators.push(c);
    }

    /// Number of fragments held.
    pub fn pending_len(&self) -> (r: usize)
        ensures
            r == self@.pending.len(),
    {
        self.fragments.len()
    }

    pub fn min_fragments(&self) -> (r: usize)
        ensures
            r == self@.min_fragments,
    {
        self.min_fragments
    }

    /// Takes everything held as one chunk and empties the accumulator.
    fn take_chunk(&mut self) -> (r: String)
        ensures
            r@ == join_with(old(self)@.pending, separator()),
            final(self)@ == (ChunkerView { pending: Seq::empty(), ..old(self)@ }),
    {
        let r = join_fragments(&self.fragments);
        self.fragments.clear();
        proof {
            assert(strings_view(self.fragments@) =~= Seq::<Seq<char>>::empty());
        }
        r
    }

    /// Adds a fragment; returns a chunk when the fragment ends a sentence and
    /// more than the minimum number of fragments is held.
    pub fn feed(&mut self, fragment: String) -> (r: Option<String>)
        ensures
            (final(self)@, opt_view(r)) == feed_spec(old(self)@, fragment@),
    {
        let ends = contains_terminator(fragment.as_str(), &self.terminators);
        self.fragments.push(fragment);
        proof {
            assert(strings_view(self.fragments@) =~= old(self)@.pending.push(fragment@));
        }
        if ends && self.fragments.len() > self.min_fragments {
            let chunk = self.take_chunk();
            Some(chunk)
        } else {
            None
        }
    }

    /// End of stream: returns whatever is held as a final chunk, if anything.
    pub fn finish(&mut self) -> (r: Option<String>)
        ensures
            (final(self)@, opt_view(r)) == finish_spec(old(self)@),
    {
        if self.fragments.len() > 0 {
            let chunk = self.take_chunk();
            Some(chunk)
        } else {
            None
        }
    }
}

} // verus!
