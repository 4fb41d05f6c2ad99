//! The observable state of one streaming-mode scan session.
//!
//! The engine's stream handle itself is opaque persistent state, created
//! by an external open operation and finalised by an external close. What
//! this layer can state about it is its offset discipline: every chunk
//! scanned on the handle extends one logical unbounded stream, and match
//! offsets reported by the engine are cumulative within that stream since
//! it was opened. [`StreamSession`] tracks exactly that — the running byte
//! count, together with the chunk history it is the length of — so that
//! the cumulative-offset lemmas of [`crate::offsets`] apply to a live
//! session.

use vstd::prelude::*;

use crate::buffer::Scannable;
use crate::offsets;

verus! {

/// The byte accounting of one stream handle, from open onwards.
pub struct StreamSession {
    scanned: u64,
    history: Ghost<Seq<Seq<u8>>>,
}

impl StreamSession {
    /// The chunks scanned on this session so far, oldest first.
    pub closed spec fn history(&self) -> Seq<Seq<u8>> {
        self.history@
    }

    /// The cumulative byte count since the stream was opened.
    pub closed spec fn scanned_bytes(&self) -> u64 {
        self.scanned
    }

    /// The byte count is the length of the chunks' concatenation: the
    /// logical stream the engine's offsets refer to.
    pub open spec fn wf(&self) -> bool {
        self.scanned_bytes() == self.history().flatten().len()
    }

    /// Begins the accounting for a freshly opened stream: nothing scanned.
    pub fn open_session() -> (r: StreamSession)
        ensures
            r.wf(),
            r.history() == Seq::<Seq<u8>>::empty(),
            r.scanned_bytes() == 0,
    {
        StreamSession { scanned: 0, history: Ghost(Seq::empty()) }
    }

    /// Records one chunk handed to the engine's streaming entry point and
    /// returns the length argument for that call.
    ///
    /// The session's logical stream grows by exactly this chunk; offsets
    /// the engine reports from now on lie within the new byte count.
    pub fn scan_chunk<T: Scannable>(&mut self, data: &T) -> (len: u32)
        requires
            old(self).wf(),
            data.bytes().len() <= u32::MAX,
            old(self).scanned_bytes() + data.bytes().len() <= u64::MAX,
        ensures
            final(self).wf(),
            len == data.bytes().len(),
            final(self).history() == old(self).history().push(data.bytes()),
            final(self).scanned_bytes() == old(self).scanned_bytes() + len,
    {
        let b = data.as_bytes();
        let len = b.len() as u32;
        proof {
            self.history@.lemma_flatten_push(b@);
        }
        self.history = Ghost(self.history@.push(b@));
        self.scanned = self.scanned + (len as u64);
        len
    }

    /// The cumulative byte count, for callers that need it at run time.
    pub fn bytes_scanned(&self) -> (r: u64)
        ensures
            r == self.scanned_bytes(),
    {
        self.scanned
    }
}

/// Streaming offsets are cumulative across chunks: byte `j` of chunk `i`
/// lies at offset `prefix_len(history, i) + j` of the logical stream, and
/// every such offset lies below the session's cumulative byte count.
pub proof fn lemma_stream_offsets(s: StreamSession, i: int, j: int)
    requires
        s.wf(),
        0 <= i < s.history().len(),
        0 <= j < s.history()[i].len(),
    ensures
        0 <= offsets::prefix_len(s.history(), i) + j < s.scanned_bytes(),
        s.history().flatten()[offsets::prefix_len(s.history(), i) + j] == s.history()[i][j],
{
    offsets::lemma_cumulative_offset(s.history(), i, j);
}

} // verus!
