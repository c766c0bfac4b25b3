//! The archive session: one open output container and its sequential write
//! cursor. The container format admits at most one entry open for writing at
//! a time; an entry is fully written (whole or chunk by chunk) before the
//! next begins, and the container is finalized exactly once, after the last
//! entry. The session records each entry's archive path and its logical
//! (uncompressed) content; compressing and framing the bytes is the archive
//! codec's affair and happens at the I/O boundary outside this crate.

use vstd::prelude::*;

verus! {

/// One finished entry: its archive-relative path and the exact bytes the
/// entry decompresses to.
pub struct ArchiveEntry {
    pub path: String,
    pub content: Vec<u8>,
}

impl View for ArchiveEntry {
    type V = (Seq<char>, Seq<u8>);

    open spec fn view(&self) -> (Seq<char>, Seq<u8>) {
        (self.path@, self.content@)
    }
}

/// Where the session stands in the sequential-entry protocol.
#[derive(Clone, Copy, Debug, PartialEq, Eq, Structural)]
pub enum SessionPhase {
    /// No entry is open; a new entry may begin, or the container may be
    /// finalized.
    Ready,
    /// A streamed entry is open for chunk writes and must be closed before
    /// anything else happens.
    EntryOpen,
    /// The trailing index is written; the session accepts nothing further.
    Finalized,
}

/// The session's abstract state: its protocol phase, the finished entries in
/// the order they were written, and the open entry's path and bytes so far.
pub struct SessionView {
    pub phase: SessionPhase,
    pub entries: Seq<(Seq<char>, Seq<u8>)>,
    pub open_path: Seq<char>,
    pub open_data: Seq<u8>,
}

/// An archive session: the finished entries, and at most one entry open for
/// streaming. It mirrors, entry for entry and byte for byte, what the
/// surrounding binary hands the archive codec.
pub struct ArchiveSession {
    phase: SessionPhase,
    entries: Vec<ArchiveEntry>,
    open_path: String,
    open_data: Vec<u8>,
}

impl View for ArchiveSession {
    type V = SessionView;

    closed spec fn view(&self) -> SessionView {
        SessionView {
            phase: self.phase,
            entries: self.entries@.map_values(|e: ArchiveEntry| e@),
            open_path: self.open_path@,
            open_data: self.open_data@,
        }
    }
}

impl ArchiveSession {
    /// Opens a session over a freshly created container: no entries yet,
    /// ready for the first one.
    pub fn new() -> (s: Self)
        ensures
            s@.phase == SessionPhase::Ready,
            s@.entries == Seq::<(Seq<char>, Seq<u8>)>::empty(),
    {
        let s = ArchiveSession {
            phase: SessionPhase::Ready,
            entries: Vec::new(),
            open_path: String::new(),
            open_data: Vec::new(),
        };
        proof {
            assert(s@.entries =~= Seq::<(Seq<char>, Seq<u8>)>::empty());
        }
        s
    }

    /// Writes one complete entry in a single call: the whole-buffer path.
    pub fn write_entry_whole(&mut self, path: String, data: Vec<u8>)
        requires
            old(self)@.phase == SessionPhase::Ready,
        ensures
            final(self)@.phase == SessionPhase::Ready,
            final(self)@.entries == old(self)@.entries.push((path@, data@)),
    {
        let ghost pushed = (path@, data@);
        self.entries.push(ArchiveEntry { path, content: data });
        proof {
            assert(self@.entries =~= old(self)@.entries.push(pushed));
        }
    }

    /// Opens a streamed entry at `path`: the chunked path begins. The entry
    /// starts empty and grows chunk by chunk.
    pub fn begin_entry_stream(&mut self, path: String)
        requires
            old(self)@.phase == SessionPhase::Ready,
        ensures
            final(self)@.phase == SessionPhase::EntryOpen,
            final(self)@.entries == old(self)@.entries,
            final(self)@.open_path == path@,
            final(self)@.open_data == Seq::<u8>::empty(),
    {
        self.phase = SessionPhase::EntryOpen;
        self.open_path = path;
        self.open_data = Vec::new();
        proof {
            assert(self@.open_data =~= Seq::<u8>::empty());
        }
    }

    /// Appends one chunk to the open streamed entry.
    pub fn write_chunk(&mut self, chunk: &[u8])
        requires
            old(self)@.phase == SessionPhase::EntryOpen,
        ensures
            final(self)@.phase == SessionPhase::EntryOpen,
            final(self)@.entries == old(self)@.entries,
            final(self)@.open_path == old(self)@.open_path,
            final(self)@.open_data == old(self)@.open_data + chunk@,
    {
        self.open_data.extend_from_slice(chunk);
    }

    /// Closes the open streamed entry: its accumulated bytes become the next
    /// finished entry and the session is ready for another.
    pub fn close_entry(&mut self)
        requires
            old(self)@.phase == SessionPhase::EntryOpen,
        ensures
            final(self)@.phase == SessionPhase::Ready,
            final(self)@.entries == old(self)@.entries.push(
                (old(self)@.open_path, old(self)@.open_data),
            ),
    {
        let ghost pushed = (self.open_path@, self.open_data@);
        let mut path = String::new();
        core::mem::swap(&mut path, &mut self.open_path);
        let mut data: Vec<u8> = Vec::new();
        core::mem::swap(&mut data, &mut self.open_data);
        self.entries.push(ArchiveEntry { path, content: data });
        self.phase = SessionPhase::Ready;
        proof {
            assert(self@.entries =~= old(self)@.entries.push(pushed));
        }
    }

    /// Writes the container's trailing index: the session is complete and
    /// accepts nothing further.
    pub fn finalize(&mut self)
        requires
            old(self)@.phase == SessionPhase::Ready,
        ensures
            final(self)@.phase == SessionPhase::Finalized,
            final(self)@.entries == old(self)@.entries,
    {
        self.phase = SessionPhase::Finalized;
    }

    /// How many entries have been fully written.
    pub fn entry_count(&self) -> (n: usize)
        ensures
            n == self@.entries.len(),
    {
        self.entries.len()
    }

    /// The `i`th finished entry, in write order.
    pub fn entry(&self, i: usize) -> (e: &ArchiveEntry)
        requires
            i < self@.entries.len(),
        ensures
            e@ == self@.entries[i as int],
    {
        &self.entries[i]
    }

    /// Whether the container has been finalized.
    pub fn is_finalized(&self) -> (b: bool)
        ensures
            b == (self@.phase == SessionPhase::Finalized),
    {
        self.phase == SessionPhase::Finalized
    }
}

} // verus!
