//! Keeping the beginning of an output stream.
use vstd::prelude::*;
use vstd::slice::slice_subrange;

verus! {

/// How many bytes are read from a stream at a time.
pub const READ_CHUNK_BYTES: usize = 8_192;

/// What becomes of the next bytes of a stream.
#[derive(Clone, Copy, Debug, PartialEq, Eq, Structural)]
pub enum CapturePhase {
    /// They are kept.
    Keeping,
    /// They are read and thrown away, so that the writer can go on.
    Draining,
    /// They are not read.
    Ended,
}

/// The beginning of a stream, up to a cap.
pub struct PipeCapture {
    kept: Vec<u8>,
    cap: usize,
    phase: CapturePhase,
}

/// What a `PipeCapture` holds.
#[verifier::ext_equal]
pub struct CaptureModel {
    pub kept: Seq<u8>,
    pub cap: nat,
    pub phase: CapturePhase,
}

impl CaptureModel {
    /// No more than the cap is kept; there is room while bytes are kept, and
    /// none once they are thrown away.
    pub open spec fn well_formed(self) -> bool {
        &&& self.kept.len() <= self.cap
        &&& self.phase == CapturePhase::Keeping ==> self.kept.len() < self.cap
        &&& self.phase == CapturePhase::Draining ==> self.kept.len() == self.cap
    }

    /// What a read that gave `chunk` makes of this; an empty read is the end of
    /// the stream.
    pub open spec fn after(self, chunk: Seq<u8>) -> CaptureModel {
        match self.phase {
            CapturePhase::Keeping => {
                let room = self.cap - self.kept.len();
                if chunk.len() == 0 {
                    CaptureModel { phase: CapturePhase::Ended, ..self }
                } else if chunk.len() < room {
                    CaptureModel { kept: self.kept + chunk, ..self }
                } else if chunk.len() == room {
                    CaptureModel {
                        kept: self.kept + chunk,
                        phase: CapturePhase::Ended,
                        cap: self.cap,
                    }
                } else {
                    CaptureModel {
                        kept: self.kept + chunk.take(room),
                        phase: CapturePhase::Draining,
                        cap: self.cap,
                    }
                }
            },
            CapturePhase::Draining => if chunk.len() == 0 {
                CaptureModel { phase: CapturePhase::Ended, ..self }
            } else {
                self
            },
            CapturePhase::Ended => self,
        }
    }
}

/// A capture of which nothing was read yet.
pub open spec fn fresh_capture(cap: nat) -> CaptureModel {
    CaptureModel {
        kept: Seq::empty(),
        cap,
        phase: if cap == 0 {
            CapturePhase::Ended
        } else {
            CapturePhase::Keeping
        },
    }
}

impl View for PipeCapture {
    type V = CaptureModel;

    closed spec fn view(&self) -> CaptureModel {
        CaptureModel { kept: self.kept@, cap: self.cap as nat, phase: self.phase }
    }
}

impl PipeCapture {
    #[verifier::type_invariant]
    spec fn is_well_formed(self) -> bool {
        self@.well_formed()
    }

    /// Keeps at most `cap` bytes. Where that is none, the stream is not read.
    pub fn new(cap: usize) -> (res: Self)
        ensures
            res@ == fresh_capture(cap as nat),
    {
        let phase = if cap == 0 {
            CapturePhase::Ended
        } else {
            CapturePhase::Keeping
        };
        let res = PipeCapture { kept: Vec::new(), cap, phase };
        assert(res@ =~= fresh_capture(cap as nat));
        res
    }

    /// Whether to read on.
    pub fn wants_read(&self) -> (res: bool)
        ensures
            res == (self@.phase != CapturePhase::Ended),
    {
        match self.phase {
            CapturePhase::Ended => false,
            _ => true,
        }
    }

    /// Takes what one read gave; nothing, at the end of the stream.
    pub fn accept(&mut self, chunk: &[u8])
        ensures
            final(self)@ == old(self)@.after(chunk@),
    {
        proof {
            use_type_invariant(&*self);
        }
        match self.phase {
            CapturePhase::Keeping => {
                if chunk.len() == 0 {
                    self.phase = CapturePhase::Ended;
                } else {
                    let ghost before = self.kept@;
                    let cap = self.cap;
                    let room: usize = cap - self.kept.len();
                    let taken: usize = if chunk.len() < room {
                        chunk.len()
                    } else {
                        room
                    };
                    let mut kept: Vec<u8> = Vec::new();
                    std::mem::swap(&mut kept, &mut self.kept);
                    kept.extend_from_slice(slice_subrange(chunk, 0, taken));
                    assert(kept@ =~= before + chunk@.take(taken as int));
                    let phase = if taken < chunk.len() {
                        CapturePhase::Draining
                    } else {
                        assert(chunk@.take(taken as int) =~= chunk@);
                        if kept.len() == cap {
                            CapturePhase::Ended
                        } else {
                            CapturePhase::Keeping
                        }
                    };
                    *self = PipeCapture { kept, cap, phase };
                }
            },
            CapturePhase::Draining => {
                if chunk.len() == 0 {
                    self.phase = CapturePhase::Ended;
                }
            },
            CapturePhase::Ended => {},
        }
        assert(self@ =~= old(self)@.after(chunk@));
    }

    /// A read failed: what was kept so far is all there will be.
    pub fn fail(&mut self)
        ensures
            final(self)@ == (CaptureModel { phase: CapturePhase::Ended, ..old(self)@ }),
    {
        proof {
            use_type_invariant(&*self);
        }
        self.phase = CapturePhase::Ended;
        assert(self@ =~= (CaptureModel { phase: CapturePhase::Ended, ..old(self)@ }));
    }

    /// The bytes that were kept.
    pub fn into_bytes(self) -> (res: Vec<u8>)
        ensures
            res@ == self@.kept,
    {
        self.kept
    }
}

/// What reads that gave `chunks`, one after the other, make of a fresh capture.
pub open spec fn captured(cap: nat, chunks: Seq<Seq<u8>>) -> CaptureModel
    decreases chunks.len(),
{
    if chunks.len() == 0 {
        fresh_capture(cap)
    } else {
        captured(cap, chunks.drop_last()).after(chunks.last())
    }
}

/// The bytes of `chunks`, one after the other.
pub open spec fn streamed(chunks: Seq<Seq<u8>>) -> Seq<u8>
    decreases chunks.len(),
{
    if chunks.len() == 0 {
        Seq::empty()
    } else {
        streamed(chunks.drop_last()) + chunks.last()
    }
}

/// However a stream is cut into reads, what is kept is its beginning: all of it
/// where it fits the cap, and exactly as much as the cap where it does not.
pub proof fn capture_keeps_the_beginning(cap: nat, chunks: Seq<Seq<u8>>)
    requires
        forall|i: int| 0 <= i < chunks.len() ==> (#[trigger] chunks[i]).len() > 0,
    ensures
        captured(cap, chunks).well_formed(),
        captured(cap, chunks).cap == cap,
        streamed(chunks).len() <= cap ==> captured(cap, chunks).kept == streamed(chunks),
        streamed(chunks).len() > cap ==> captured(cap, chunks).kept == streamed(chunks).take(
            cap as int,
        ),
        captured(cap, chunks).phase == CapturePhase::Keeping <==> streamed(chunks).len() < cap,
    decreases chunks.len(),
{
    if chunks.len() > 0 {
        let before = chunks.drop_last();
        assert forall|i: int| 0 <= i < before.len() implies (#[trigger] before[i]).len() > 0 by {
            assert(before[i] == chunks[i]);
        }
        capture_keeps_the_beginning(cap, before);
        let so_far = captured(cap, before);
        let chunk = chunks.last();
        assert(chunk.len() > 0) by {
            assert(chunk == chunks[chunks.len() - 1]);
        }
        let all = streamed(chunks);
        if streamed(before).len() < cap {
            if all.len() > cap {
                assert(so_far.kept + chunk.take(cap - so_far.kept.len()) =~= all.take(cap as int));
            }
        } else {
            assert(all.take(cap as int) =~= streamed(before).take(cap as int));
            assert(streamed(before).take(cap as int) =~= so_far.kept) by {
                if streamed(before).len() == cap {
                    assert(streamed(before).take(cap as int) =~= streamed(before));
                }
            }
        }
    }
}

/// A stream that overruns the cap within a read is read to its end, and nothing
/// more of it is kept.
pub proof fn overrun_is_drained(before: CaptureModel, chunk: Seq<u8>)
    requires
        before.phase == CapturePhase::Draining,
    ensures
        before.after(chunk).kept == before.kept,
        before.after(chunk).phase == CapturePhase::Ended <==> chunk.len() == 0,
{
}

/// A read is kept as far as there is room: all of it where it fits, and else its
/// beginning. The capture ends when a read fills it exactly, and what overruns it
/// is thrown away from then on.
pub proof fn reads_are_kept_as_far_as_there_is_room(before: CaptureModel, chunk: Seq<u8>)
    requires
        before.phase == CapturePhase::Keeping,
        before.kept.len() < before.cap,
        chunk.len() > 0,
    ensures
        ({
            let after = before.after(chunk);
            let total = before.kept.len() + chunk.len();
            &&& total <= before.cap ==> after.kept == before.kept + chunk
            &&& total > before.cap ==> after.kept == (before.kept + chunk).take(before.cap as int)
            &&& after.cap == before.cap
            &&& after.phase == CapturePhase::Keeping <==> total < before.cap
            &&& after.phase == CapturePhase::Ended <==> total == before.cap
            &&& after.phase == CapturePhase::Draining <==> total > before.cap
        }),
{
    let room = before.cap - before.kept.len();
    if chunk.len() > room {
        assert(before.kept + chunk.take(room) =~= (before.kept + chunk).take(before.cap as int));
    }
}

/// The end of a stream ends its capture, and what was kept stays; a capture that
/// ended takes nothing more.
pub proof fn the_end_of_a_stream_ends_its_capture(before: CaptureModel, chunk: Seq<u8>)
    ensures
        before.after(Seq::empty()).phase == CapturePhase::Ended,
        before.after(Seq::empty()).kept == before.kept,
        before.phase == CapturePhase::Ended ==> before.after(chunk) == before,
{
}

/// A fresh capture is empty and is read into, unless nothing is to be kept.
pub proof fn fresh_captures_are_empty(cap: nat)
    ensures
        fresh_capture(cap).kept.len() == 0,
        fresh_capture(cap).cap == cap,
        fresh_capture(cap).phase == (if cap > 0 {
            CapturePhase::Keeping
        } else {
            CapturePhase::Ended
        }),
{
}

} // verus!
