use vstd::prelude::*;
use crate::chunker::strings_view;
use crate::recording::RecContext;

verus! {

#[derive(Debug, Clone, Copy, PartialEq, Eq, Structural)]
pub enum TranscribeError {
    /// Capture is on, or its thread has not been joined: the buffer may still grow.
    CaptureActive,
    /// The recognition model could not be loaded.
    ModelLoad,
    /// Recognition failed.
    Inference,
}

/// The segments' texts concatenated in order.
pub open spec fn concat_all(parts: Seq<Seq<char>>) -> Seq<char>
    decreases parts.len(),
{
    if parts.len() == 0 {
        Seq::empty()
    } else {
        concat_all(parts.drop_last()) + parts.last()
    }
}

/// Checks that the buffer may be read. `Ok(true)`: run the recognizer on it;
/// `Ok(false)`: nothing was captured and the transcript is empty.
pub fn begin_transcription(rec: &RecContext) -> (r: Result<bool, TranscribeError>)
    ensures
        rec@.active || rec@.thread ==> r == Err::<bool, TranscribeError>(
            TranscribeError::CaptureActive,
        ),
        !(rec@.active || rec@.thread) ==> r == Ok::<bool, TranscribeError>(rec@.buffer.len() > 0),
{
    if rec.is_recording() || rec.has_thread() {
        Err(TranscribeError::CaptureActive)
    } else {
        Ok(rec.buffer_len() > 0)
    }
}

/// The transcript: the recognizer's segments in temporal order.
pub fn join_segments(segments: &Vec<String>) -> (r: String)
    ensures
        r@ == concat_all(strings_view(segments@)),
{
    let ghost pv = strings_view(segments@);
    let mut r = String::new();
    let mut i: usize = 0;
    while i < segments.len()
        invariant
            pv == strings_view(segments@),
            i <= segments.len(),
            r@ == concat_all(pv.take(i as int)),
        decreases segments.len() - i,
    {
        r.append(segments[i].as_str());
        proof {
            let t = pv.take(i as int + 1);
            assert(t.drop_last() =~= pv.take(i as int));
        }
        i += 1;
    }
    assert(pv.take(segments.len() as int) =~= pv);
    r
}

} // verus!
