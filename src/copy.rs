use vstd::prelude::*;

verus! {

/// What is found at a path.
#[derive(Clone, Copy, Debug, PartialEq, Eq, Structural)]
pub enum EntryKind {
    Missing,
    File,
    Dir,
}

/// The metadata of a regular file that the copy decision reads: its size in
/// bytes and, where the platform gives one, its modification time in whole
/// seconds since the epoch.
#[derive(Clone, Copy, Debug, PartialEq, Eq, Structural)]
pub struct FileStat {
    pub len: u64,
    pub mtime_secs: Option<u64>,
}

/// The outcome of the cheap tiers of the file equality test.
#[derive(Clone, Copy, Debug, PartialEq, Eq, Structural)]
pub enum FileCheck {
    /// The destination is missing or differs: write it.
    Copy,
    /// Sizes and modification times agree: leave the destination alone.
    Skip,
    /// Sizes agree but the times cannot decide: compare the bytes.
    CompareBytes,
}

/// The size tier, then the modification-time tier; whatever they cannot
/// decide goes to the byte comparison.
pub open spec fn file_check_of(from: FileStat, to: Option<FileStat>) -> FileCheck {
    match to {
        None => FileCheck::Copy,
        Some(t) => if from.len != t.len {
            FileCheck::Copy
        } else {
            match (from.mtime_secs, t.mtime_secs) {
                (Some(a), Some(b)) if a == b => FileCheck::Skip,
                _ => FileCheck::CompareBytes,
            }
        },
    }
}

/// Decides, from metadata alone, whether a file at `to` (absent when `None`)
/// must be rewritten from a file with metadata `from`.
pub fn check_file(from: &FileStat, to: &Option<FileStat>) -> (r: FileCheck)
    ensures
        r == file_check_of(*from, *to),
{
    match to {
        None => FileCheck::Copy,
        Some(t) => {
            if from.len != t.len {
                FileCheck::Copy
            } else {
                match (from.mtime_secs, t.mtime_secs) {
                    (Some(a), Some(b)) => if a == b {
                        FileCheck::Skip
                    } else {
                        FileCheck::CompareBytes
                    },
                    _ => FileCheck::CompareBytes,
                }
            }
        },
    }
}

/// The verdict on one pair of chunks read side by side from two files.
#[derive(Clone, Copy, Debug, PartialEq, Eq, Structural)]
pub enum ChunkVerdict {
    /// Both chunks hold the same bytes: read on.
    Continue,
    /// Both files ended together: they are equal.
    Identical,
    /// The chunks differ in length or in content.
    Different,
}

pub open spec fn chunk_verdict(x: Seq<u8>, y: Seq<u8>) -> ChunkVerdict {
    if x.len() != y.len() {
        ChunkVerdict::Different
    } else if x.len() == 0 {
        ChunkVerdict::Identical
    } else if x == y {
        ChunkVerdict::Continue
    } else {
        ChunkVerdict::Different
    }
}

/// Tests two byte slices for equality.
pub fn bytes_equal(x: &[u8], y: &[u8]) -> (r: bool)
    ensures
        r == (x@ == y@),
{
    if x.len() != y.len() {
        return false;
    }
    let mut i: usize = 0;
    while i < x.len()
        invariant
            i <= x@.len(),
            x@.len() == y@.len(),
            forall|j: int| 0 <= j < i ==> x@[j] == y@[j],
        decreases x.len() - i,
    {
        if x[i] != y[i] {
            return false;
        }
        i = i + 1;
    }
    assert(x@ =~= y@);
    true
}

/// Compares the chunks that one read of each file returned; an empty chunk
/// marks the end of its file.
pub fn compare_chunks(x: &[u8], y: &[u8]) -> (r: ChunkVerdict)
    ensures
        r == chunk_verdict(x@, y@),
{
    if x.len() != y.len() {
        ChunkVerdict::Different
    } else if x.len() == 0 {
        ChunkVerdict::Identical
    } else if bytes_equal(x, y) {
        ChunkVerdict::Continue
    } else {
        ChunkVerdict::Different
    }
}

/// The part of `s` from `off` on (empty past its end).
pub open spec fn tail_from(s: Seq<u8>, off: nat) -> Seq<u8> {
    if off <= s.len() {
        s.subrange(off as int, s.len() as int)
    } else {
        Seq::<u8>::empty()
    }
}

/// The chunk of at most `k` bytes that a read at `off` returns.
pub open spec fn window(s: Seq<u8>, off: nat, k: nat) -> Seq<u8> {
    let t = tail_from(s, off);
    if k <= t.len() {
        t.subrange(0, k as int)
    } else {
        t
    }
}

/// The verdict of comparing `a` and `b` chunk by chunk from `off` on, each
/// read returning `k` bytes or what is left before the end.
pub open spec fn streamed_verdict(a: Seq<u8>, b: Seq<u8>, k: nat, off: nat) -> ChunkVerdict
    decreases tail_from(a, off).len(),
{
    let v = chunk_verdict(window(a, off, k), window(b, off, k));
    if k == 0 || off >= a.len() {
        v
    } else {
        match v {
            ChunkVerdict::Continue => streamed_verdict(a, b, k, off + k),
            _ => v,
        }
    }
}

proof fn lemma_streamed_from(a: Seq<u8>, b: Seq<u8>, k: nat, off: nat)
    requires
        k > 0,
    ensures
        streamed_verdict(a, b, k, off) != ChunkVerdict::Continue,
        streamed_verdict(a, b, k, off) == ChunkVerdict::Identical <==> tail_from(a, off)
            =~= tail_from(b, off),
    decreases tail_from(a, off).len(),
{
    let ta = tail_from(a, off);
    let tb = tail_from(b, off);
    let wa = window(a, off, k);
    let wb = window(b, off, k);
    if ta.len() == 0 || tb.len() == 0 {
        if ta =~= tb {
            assert(wa =~= wb);
        } else {
            assert(wa.len() != wb.len());
        }
    } else if wa.len() != wb.len() {
        assert(ta.len() != tb.len());
    } else if wa != wb {
        assert(!(wa =~= wb));
        let i = choose|i: int| 0 <= i < wa.len() && wa[i] != wb[i];
        if ta =~= tb {
            assert(wa =~= wb);
        }
        assert(ta[i] == wa[i] && tb[i] == wb[i]);
    } else {
        assert(off < a.len());
        lemma_streamed_from(a, b, k, off + k);
        let na = tail_from(a, off + k);
        let nb = tail_from(b, off + k);
        if wa.len() == k {
            assert(ta =~= wa + na);
            assert(tb =~= wb + nb);
            if ta =~= tb {
                assert(na =~= ta.subrange(k as int, ta.len() as int));
                assert(nb =~= tb.subrange(k as int, tb.len() as int));
            }
        } else {
            assert(ta =~= wa);
            assert(tb =~= wb);
            assert(na =~= nb);
        }
    }
}

/// The byte fallback is exact: comparing two files chunk by chunk, with any
/// positive chunk size, ends with `Identical` exactly when their contents are
/// equal, and with `Different` otherwise, whatever their sizes and times.
pub proof fn lemma_byte_fallback_exact(a: Seq<u8>, b: Seq<u8>, k: nat)
    requires
        k > 0,
    ensures
        streamed_verdict(a, b, k, 0) == ChunkVerdict::Identical <==> a == b,
        streamed_verdict(a, b, k, 0) == ChunkVerdict::Different <==> a != b,
{
    lemma_streamed_from(a, b, k, 0);
    assert(tail_from(a, 0) =~= a);
    assert(tail_from(b, 0) =~= b);
}

/// A second copy of an unchanged file writes nothing: once the destination
/// holds the source's bytes, the metadata tiers never ask for a copy, and
/// the byte comparison that they may ask for finds the files identical.
pub proof fn lemma_unchanged_file_not_rewritten(
    content: Seq<u8>,
    from: FileStat,
    to: FileStat,
    k: nat,
)
    requires
        k > 0,
        from.len == content.len(),
        to.len == content.len(),
    ensures
        file_check_of(from, Some(to)) != FileCheck::Copy,
        file_check_of(from, Some(to)) == FileCheck::CompareBytes ==> streamed_verdict(
            content,
            content,
            k,
            0,
        ) == ChunkVerdict::Identical,
{
    lemma_byte_fallback_exact(content, content, k);
}

/// The first step of copy mode.
#[derive(Clone, Copy, Debug, PartialEq, Eq, Structural)]
pub enum CopyAction {
    /// The source is absent: nothing to do.
    Nothing,
    /// The source is a directory: create the destination directory if
    /// `create` holds, then copy each entry of the source into it. Entries
    /// of the destination that the source lacks stay.
    MirrorDir { create: bool },
    /// The source is a file: decide with `check_file`.
    CheckFile,
}

pub open spec fn copy_action_of(from: EntryKind, to: EntryKind) -> CopyAction {
    match from {
        EntryKind::Missing => CopyAction::Nothing,
        EntryKind::Dir => CopyAction::MirrorDir { create: to == EntryKind::Missing },
        EntryKind::File => CopyAction::CheckFile,
    }
}

/// Chooses the first step of copying `from` onto `to`.
pub fn plan_copy(from: EntryKind, to: EntryKind) -> (r: CopyAction)
    ensures
        r == copy_action_of(from, to),
{
    match from {
        EntryKind::Missing => CopyAction::Nothing,
        EntryKind::Dir => CopyAction::MirrorDir { create: to == EntryKind::Missing },
        EntryKind::File => CopyAction::CheckFile,
    }
}

/// How the destination of a hardlinked item relates to its source.
#[derive(Clone, Copy, Debug, PartialEq, Eq, Structural)]
pub enum DestIdentity {
    Absent,
    /// The destination is the same filesystem object as the source.
    SameFile,
    /// The destination exists and is another object.
    Other,
}

/// What one item's transfer does.
#[derive(Clone, Copy, Debug, PartialEq, Eq, Structural)]
pub enum TransferAction {
    /// The source does not exist: skipped, not an error.
    SkipMissingSource,
    /// A hardlinked item whose source is not a regular file: skipped.
    SkipNotAFile,
    /// The destination already is the source: nothing to do.
    AlreadyLinked,
    /// Remove whatever is at the destination and hardlink the source there.
    Link,
    /// Copy mode.
    SmartCopy,
}

pub open spec fn transfer_action_of(is_hardlink: bool, from: EntryKind, dest: DestIdentity) -> TransferAction {
    if from == EntryKind::Missing {
        TransferAction::SkipMissingSource
    } else if !is_hardlink {
        TransferAction::SmartCopy
    } else if from != EntryKind::File {
        TransferAction::SkipNotAFile
    } else if dest == DestIdentity::SameFile {
        TransferAction::AlreadyLinked
    } else {
        TransferAction::Link
    }
}

/// Chooses between copy mode and link mode for one item, and the link
/// mode's outcome.
pub fn plan_transfer(is_hardlink: bool, from: EntryKind, dest: DestIdentity) -> (r: TransferAction)
    ensures
        r == transfer_action_of(is_hardlink, from, dest),
        is_hardlink ==> r != TransferAction::SmartCopy,
        !is_hardlink ==> r != TransferAction::Link && r != TransferAction::AlreadyLinked,
{
    if from == EntryKind::Missing {
        TransferAction::SkipMissingSource
    } else if !is_hardlink {
        TransferAction::SmartCopy
    } else if from != EntryKind::File {
        TransferAction::SkipNotAFile
    } else if dest == DestIdentity::SameFile {
        TransferAction::AlreadyLinked
    } else {
        TransferAction::Link
    }
}

} // verus!
