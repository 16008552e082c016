use vstd::prelude::*;

use crate::error::JobError;

verus! {

/// Keeps the write discipline of an output container: the header once,
/// before any packet; packets only on declared streams, with timestamps
/// (already in the stream's time base) that never go backwards on a stream;
/// the trailer once, after the header.
pub struct MuxAdapter {
    pub stream_count: usize,
    pub header_written: bool,
    pub trailer_written: bool,
    pub last_ts: Vec<Option<i64>>,
    /// Every packet admitted so far, as (stream, timestamp).
    pub admitted: Ghost<Seq<(usize, i64)>>,
}

impl MuxAdapter {
    pub open spec fn wf(&self) -> bool {
        &&& self.last_ts@.len() == self.stream_count
        &&& forall|i: int| 0 <= i < self.admitted@.len() ==> {
            let (s, t) = #[trigger] self.admitted@[i];
            &&& s < self.stream_count
            &&& self.last_ts@[s as int] matches Some(l) && t <= l
        }
        &&& forall|s: int| 0 <= s < self.stream_count ==> (#[trigger] self.last_ts@[s] matches Some(l) ==> exists|i: int|
            0 <= i < self.admitted@.len() && #[trigger] self.admitted@[i] == (s as usize, l))
        &&& forall|i: int, j: int|
            0 <= i < j < self.admitted@.len() && (#[trigger] self.admitted@[i]).0 == (
            #[trigger] self.admitted@[j]).0 ==> self.admitted@[i].1 <= self.admitted@[j].1
        &&& (self.admitted@.len() > 0 ==> self.header_written)
        &&& (self.trailer_written ==> self.header_written)
    }

    /// An adapter for an output with `stream_count` declared streams, with
    /// nothing written yet.
    pub fn new(stream_count: usize) -> (r: MuxAdapter)
        ensures
            r.wf(),
            r.stream_count == stream_count,
            !r.header_written,
            !r.trailer_written,
            r.admitted@.len() == 0,
    {
        let mut last_ts: Vec<Option<i64>> = Vec::new();
        let mut i: usize = 0;
        while i < stream_count
            invariant
                i <= stream_count,
                last_ts@.len() == i,
                forall|j: int| 0 <= j < i ==> #[trigger] last_ts@[j] is None,
            decreases stream_count - i,
        {
            last_ts.push(None);
            i = i + 1;
        }
        MuxAdapter {
            stream_count,
            header_written: false,
            trailer_written: false,
            last_ts,
            admitted: Ghost(Seq::empty()),
        }
    }

    /// Records the header write. Fails with `MuxSequence`, changing nothing,
    /// where the header was already written.
    pub fn write_header(&mut self) -> (r: Result<(), JobError>)
        requires
            old(self).wf(),
        ensures
            final(self).wf(),
            final(self).stream_count == old(self).stream_count,
            final(self).admitted@ == old(self).admitted@,
            final(self).trailer_written == old(self).trailer_written,
            old(self).header_written ==> r == Err::<(), JobError>(JobError::MuxSequence)
                && final(self).header_written,
            !old(self).header_written ==> r == Ok::<(), JobError>(()) && final(self).header_written,
    {
        if self.header_written {
            return Err(JobError::MuxSequence);
        }
        self.header_written = true;
        Ok(())
    }

    /// Admits a packet of `stream` with timestamp `ts`. Fails with
    /// `MuxSequence` before the header, after the trailer or on an undeclared
    /// stream, and with `TimestampOrder` where `ts` is below the stream's last
    /// timestamp; a failure changes nothing.
    pub fn admit_packet(&mut self, stream: usize, ts: i64) -> (r: Result<(), JobError>)
        requires
            old(self).wf(),
        ensures
            final(self).wf(),
            final(self).stream_count == old(self).stream_count,
            final(self).header_written == old(self).header_written,
            final(self).trailer_written == old(self).trailer_written,
            if !old(self).header_written || old(self).trailer_written || stream >= old(self).stream_count {
                r == Err::<(), JobError>(JobError::MuxSequence) && final(self).admitted@ == old(self).admitted@
            } else if old(self).last_ts@[stream as int] matches Some(l) && ts < l {
                r == Err::<(), JobError>(JobError::TimestampOrder) && final(self).admitted@ == old(self).admitted@
            } else {
                r == Ok::<(), JobError>(()) && final(self).admitted@ == old(self).admitted@.push((stream, ts))
            },
    {
        if !self.header_written || self.trailer_written || stream >= self.stream_count {
            return Err(JobError::MuxSequence);
        }
        match self.last_ts[stream] {
            Some(l) => {
                if ts < l {
                    return Err(JobError::TimestampOrder);
                }
            },
            None => {},
        }
        let ghost old_adm = self.admitted@;
        let ghost old_last = self.last_ts@;
        assert(forall|i: int| 0 <= i < old_adm.len() && (#[trigger] old_adm[i]).0 == stream ==> old_adm[i].1 <= ts);
        self.last_ts.set(stream, Some(ts));
        self.admitted = Ghost(self.admitted@.push((stream, ts)));
        assert forall|s: int| 0 <= s < self.stream_count implies (#[trigger] self.last_ts@[s] matches Some(
            l,
        ) ==> exists|i: int| 0 <= i < self.admitted@.len() && #[trigger] self.admitted@[i] == (s as usize, l)) by {
            if s == stream {
                assert(self.admitted@[old_adm.len() as int] == (stream, ts));
            } else if old_last[s] is Some {
                let l = old_last[s].unwrap();
                let i = choose|i: int| 0 <= i < old_adm.len() && #[trigger] old_adm[i] == (s as usize, l);
                assert(self.admitted@[i] == (s as usize, l));
            }
        }
        Ok(())
    }

    /// Records the trailer write. Fails with `MuxSequence`, changing nothing,
    /// before the header or after an earlier trailer.
    pub fn write_trailer(&mut self) -> (r: Result<(), JobError>)
        requires
            old(self).wf(),
        ensures
            final(self).wf(),
            final(self).stream_count == old(self).stream_count,
            final(self).admitted@ == old(self).admitted@,
            final(self).header_written == old(self).header_written,
            if !old(self).header_written || old(self).trailer_written {
                r == Err::<(), JobError>(JobError::MuxSequence) && final(self).trailer_written == old(self).trailer_written
            } else {
                r == Ok::<(), JobError>(()) && final(self).trailer_written
            },
    {
        if !self.header_written || self.trailer_written {
            return Err(JobError::MuxSequence);
        }
        self.trailer_written = true;
        Ok(())
    }
}

/// On each stream, the admitted packets' timestamps never decrease.
pub proof fn lemma_admitted_monotone(m: &MuxAdapter)
    requires
        m.wf(),
    ensures
        forall|i: int, j: int|
            0 <= i < j < m.admitted@.len() && (#[trigger] m.admitted@[i]).0 == (#[trigger] m.admitted@[j]).0
                ==> m.admitted@[i].1 <= m.admitted@[j].1,
{
}

} // verus!
