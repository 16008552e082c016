use vstd::prelude::*;

verus! {

/// The sum of a sequence of lengths.
pub open spec fn total_len(s: Seq<u64>) -> nat
    decreases s.len(),
{
    if s.len() == 0 {
        0
    } else {
        total_len(s.drop_last()) + s.last() as nat
    }
}

/// The lengths of several sources, one source after another.
pub open spec fn concat_all(sources: Seq<Seq<u64>>) -> Seq<u64>
    decreases sources.len(),
{
    if sources.len() == 0 {
        Seq::empty()
    } else {
        concat_all(sources.drop_last()) + sources.last()
    }
}

/// The sum of the sources' own totals.
pub open spec fn sources_total(sources: Seq<Seq<u64>>) -> nat
    decreases sources.len(),
{
    if sources.len() == 0 {
        0
    } else {
        sources_total(sources.drop_last()) + total_len(sources.last())
    }
}

proof fn lemma_total_concat(a: Seq<u64>, b: Seq<u64>)
    ensures
        total_len(a + b) == total_len(a) + total_len(b),
    decreases b.len(),
{
    if b.len() == 0 {
        assert(a + b =~= a);
    } else {
        lemma_total_concat(a, b.drop_last());
        assert((a + b).drop_last() =~= a + b.drop_last());
    }
}

/// The output time line of an encoder fed frame after frame: each frame is
/// stamped with the position where the frames before it end, in the
/// encoder's time base (one unit per sample, or per video frame).
pub struct Timeline {
    pub position: u64,
    /// The length of every frame stamped so far.
    pub stamped: Ghost<Seq<u64>>,
}

impl Timeline {
    pub open spec fn wf(&self) -> bool {
        &&& self.position == total_len(self.stamped@)
        &&& self.position <= i64::MAX
    }

    /// A time line with nothing stamped.
    pub fn new() -> (r: Timeline)
        ensures
            r.wf(),
            r.position == 0,
            r.stamped@.len() == 0,
    {
        Timeline { position: 0, stamped: Ghost(Seq::empty()) }
    }

    /// Stamps the next frame, `length` units long, and returns its timestamp.
    pub fn stamp(&mut self, length: u64) -> (pts: i64)
        requires
            old(self).wf(),
            old(self).position + length <= i64::MAX,
        ensures
            final(self).wf(),
            pts == old(self).position,
            final(self).position == old(self).position + length,
            final(self).stamped@ == old(self).stamped@.push(length),
    {
        let pts = self.position as i64;
        proof {
            assert(self.stamped@.push(length).drop_last() =~= self.stamped@);
        }
        self.position = self.position + length;
        self.stamped = Ghost(self.stamped@.push(length));
        pts
    }

    /// Whether a frame `length` units long still fits on the time line.
    pub fn fits(&self, length: u64) -> (r: bool)
        requires
            self.wf(),
        ensures
            r == (self.position + length <= i64::MAX),
    {
        length <= i64::MAX as u64 - self.position
    }
}

/// Sources fed one after another into one time line are concatenated: the
/// line ends at the sum of the sources' lengths, and each source starts where
/// the ones before it end.
pub proof fn lemma_concatenation(t: &Timeline, sources: Seq<Seq<u64>>)
    requires
        t.wf(),
        t.stamped@ == concat_all(sources),
    ensures
        t.position == sources_total(sources),
        forall|i: int|
            0 <= i <= sources.len() ==> total_len(#[trigger] concat_all(sources.take(i))) == sources_total(
                sources.take(i),
            ),
{
    lemma_concat_total(sources);
    assert forall|i: int| 0 <= i <= sources.len() implies total_len(
        #[trigger] concat_all(sources.take(i)),
    ) == sources_total(sources.take(i)) by {
        lemma_concat_total(sources.take(i));
    }
}

proof fn lemma_concat_total(sources: Seq<Seq<u64>>)
    ensures
        total_len(concat_all(sources)) == sources_total(sources),
    decreases sources.len(),
{
    if sources.len() > 0 {
        lemma_concat_total(sources.drop_last());
        lemma_total_concat(concat_all(sources.drop_last()), sources.last());
    }
}

} // verus!
