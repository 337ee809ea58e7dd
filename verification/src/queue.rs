//! The queue of install intents that survive a restart: at most one entry for
//! each pair of major version and image type.

use crate::text::same_text;
use crate::types::duplicate_opt;
use vstd::prelude::*;

verus! {

/// An install that was begun and has not yet produced an installation.
#[derive(Debug, Clone)]
pub struct PendingJavaDownload {
    pub major_version: u32,
    /// The image type in its written form, `jre` or `jdk`.
    pub image_type: String,
    pub download_url: String,
    pub file_name: String,
    pub file_size: u64,
    pub checksum: Option<String>,
    pub install_path: String,
    /// When the entry was made, in seconds since the Unix epoch.
    pub created_at: u64,
}

impl PendingJavaDownload {
    /// Whether the entry stands for the given major version and image type.
    pub open spec fn has_key(self, major_version: u32, image_type: Seq<char>) -> bool {
        self.major_version == major_version && self.image_type@ == image_type
    }

    /// Whether two entries stand for the same major version and image type.
    pub open spec fn same_key(self, other: PendingJavaDownload) -> bool {
        self.has_key(other.major_version, other.image_type@)
    }

    /// Tests whether the entry stands for the given major version and image type.
    pub fn matches_key(&self, major_version: u32, image_type: &str) -> (out: bool)
        ensures
            out == self.has_key(major_version, image_type@),
    {
        self.major_version == major_version && same_text(self.image_type.as_str(), image_type)
    }

    /// An independent copy.
    pub fn duplicate(&self) -> (out: PendingJavaDownload)
        ensures
            out == *self,
    {
        PendingJavaDownload {
            major_version: self.major_version,
            image_type: self.image_type.clone(),
            download_url: self.download_url.clone(),
            file_name: self.file_name.clone(),
            file_size: self.file_size,
            checksum: duplicate_opt(&self.checksum),
            install_path: self.install_path.clone(),
            created_at: self.created_at,
        }
    }
}

/// No two entries stand for the same major version and image type.
pub open spec fn unique_keys(entries: Seq<PendingJavaDownload>) -> bool {
    forall|i: int, j: int|
        0 <= i < j < entries.len() ==> !(#[trigger] entries[i]).same_key(#[trigger] entries[j])
}

/// The entries that do not stand for the given key, in their order.
pub open spec fn without_key(
    entries: Seq<PendingJavaDownload>,
    major_version: u32,
    image_type: Seq<char>,
) -> Seq<PendingJavaDownload>
    decreases entries.len(),
{
    if entries.len() == 0 {
        entries
    } else {
        let rest = without_key(entries.drop_last(), major_version, image_type);
        if entries.last().has_key(major_version, image_type) {
            rest
        } else {
            rest.push(entries.last())
        }
    }
}

/// The entries after `entry` was added: what stood for its key is gone and
/// `entry` stands at the end.
pub open spec fn with_entry(
    entries: Seq<PendingJavaDownload>,
    entry: PendingJavaDownload,
) -> Seq<PendingJavaDownload> {
    without_key(entries, entry.major_version, entry.image_type@).push(entry)
}

/// The entries after each of `entries` was added in turn to an empty queue.
pub open spec fn added_in_turn(entries: Seq<PendingJavaDownload>) -> Seq<PendingJavaDownload>
    decreases entries.len(),
{
    if entries.len() == 0 {
        entries
    } else {
        with_entry(added_in_turn(entries.drop_last()), entries.last())
    }
}

/// What is left without a key holds only entries that were there, none of
/// which stands for the key, and keeps keys unique.
pub proof fn lemma_without_key(
    entries: Seq<PendingJavaDownload>,
    major_version: u32,
    image_type: Seq<char>,
)
    ensures
        forall|i: int|
            0 <= i < without_key(entries, major_version, image_type).len() ==> {
                &&& !(#[trigger] without_key(entries, major_version, image_type)[i]).has_key(
                    major_version,
                    image_type,
                )
                &&& entries.contains(without_key(entries, major_version, image_type)[i])
            },
        without_key(entries, major_version, image_type).len() <= entries.len(),
        unique_keys(entries) ==> unique_keys(without_key(entries, major_version, image_type)),
        (forall|i: int| 0 <= i < entries.len() ==> !(#[trigger] entries[i]).has_key(
            major_version,
            image_type,
        )) ==> without_key(entries, major_version, image_type) == entries,
    decreases entries.len(),
{
    let out = without_key(entries, major_version, image_type);
    if entries.len() > 0 {
        let front = entries.drop_last();
        let rest = without_key(front, major_version, image_type);
        lemma_without_key(front, major_version, image_type);
        assert forall|i: int| 0 <= i < out.len() implies {
            &&& !(#[trigger] out[i]).has_key(major_version, image_type)
            &&& entries.contains(out[i])
        } by {
            if i < rest.len() {
                assert(out[i] == rest[i]);
                let k = choose|k: int| 0 <= k < front.len() && front[k] == rest[i];
                assert(entries[k] == rest[i]);
            } else {
                assert(out[i] == entries.last());
                assert(entries[entries.len() - 1] == out[i]);
            }
        }
        if unique_keys(entries) {
            assert(unique_keys(front)) by {
                assert forall|i: int, j: int| 0 <= i < j < front.len() implies !(
                #[trigger] front[i]).same_key(#[trigger] front[j]) by {
                    assert(front[i] == entries[i] && front[j] == entries[j]);
                }
            }
            assert forall|i: int, j: int| 0 <= i < j < out.len() implies !(
            #[trigger] out[i]).same_key(#[trigger] out[j]) by {
                if j < rest.len() {
                    assert(out[i] == rest[i] && out[j] == rest[j]);
                } else {
                    assert(out[j] == entries.last());
                    assert(out[i] == rest[i]);
                    let k = choose|k: int| 0 <= k < front.len() && front[k] == rest[i];
                    assert(entries[k] == rest[i]);
                    assert(!entries[k].same_key(entries[entries.len() - 1]));
                }
            }
        }
        if forall|i: int| 0 <= i < entries.len() ==> !(#[trigger] entries[i]).has_key(
            major_version,
            image_type,
        ) {
            assert forall|i: int| 0 <= i < front.len() implies !(#[trigger] front[i]).has_key(
                major_version,
                image_type,
            ) by {
                assert(front[i] == entries[i]);
            }
            assert(!entries[entries.len() - 1].has_key(major_version, image_type));
            assert(out =~= entries);
        }
    }
}

/// Adding an entry keeps keys unique.
pub proof fn lemma_with_entry_unique(entries: Seq<PendingJavaDownload>, entry: PendingJavaDownload)
    requires
        unique_keys(entries),
    ensures
        unique_keys(with_entry(entries, entry)),
{
    let rest = without_key(entries, entry.major_version, entry.image_type@);
    lemma_without_key(entries, entry.major_version, entry.image_type@);
    let out = with_entry(entries, entry);
    assert forall|i: int, j: int| 0 <= i < j < out.len() implies !(#[trigger] out[i]).same_key(
        #[trigger] out[j],
    ) by {
        if j < rest.len() {
            assert(out[i] == rest[i] && out[j] == rest[j]);
        } else {
            assert(out[i] == rest[i]);
            assert(!rest[i].has_key(entry.major_version, entry.image_type@));
        }
    }
}

/// Entries added in turn have unique keys.
pub proof fn lemma_added_in_turn_unique(entries: Seq<PendingJavaDownload>)
    ensures
        unique_keys(added_in_turn(entries)),
    decreases entries.len(),
{
    if entries.len() > 0 {
        lemma_added_in_turn_unique(entries.drop_last());
        lemma_with_entry_unique(added_in_turn(entries.drop_last()), entries.last());
    }
}

/// The pending installs, in the order in which they were last added.
#[derive(Debug)]
pub struct DownloadQueue {
    pending_downloads: Vec<PendingJavaDownload>,
}

impl View for DownloadQueue {
    type V = Seq<PendingJavaDownload>;

    closed spec fn view(&self) -> Seq<PendingJavaDownload> {
        self.pending_downloads@
    }
}

impl DownloadQueue {
    /// Every queue holds at most one entry for each key.
    #[verifier::type_invariant]
    closed spec fn keys_are_unique(self) -> bool {
        unique_keys(self.pending_downloads@)
    }

    /// The empty queue.
    pub fn new() -> (queue: DownloadQueue)
        ensures
            queue@.len() == 0,
    {
        DownloadQueue { pending_downloads: Vec::new() }
    }

    /// The queue that stored entries describe: each is added in turn, so of
    /// several stored entries with one key the last one stays.
    pub fn from_entries(entries: Vec<PendingJavaDownload>) -> (queue: DownloadQueue)
        ensures
            queue@ == added_in_turn(entries@),
            unique_keys(queue@),
            unique_keys(entries@) ==> queue@ == entries@,
    {
        let mut queue = DownloadQueue::new();
        let mut entries = entries;
        let ghost all = entries@;
        let mut i: usize = 0;
        let n = entries.len();
        assert(all.subrange(0, 0) =~= Seq::<PendingJavaDownload>::empty());
        while i < n
            invariant
                i <= n,
                n == all.len(),
                entries@.len() == n,
                forall|k: int| i <= k < n ==> entries@[k] == all[k],
                queue@ == added_in_turn(all.subrange(0, i as int)),
            decreases n - i,
        {
            let entry = entries[i].duplicate();
            proof {
                let upto = all.subrange(0, i + 1);
                assert(upto.drop_last() =~= all.subrange(0, i as int));
                assert(upto.last() == all[i as int]);
            }
            queue.add(entry);
            i = i + 1;
        }
        proof {
            assert(all.subrange(0, n as int) =~= all);
            lemma_added_in_turn_unique(all);
            if unique_keys(all) {
                lemma_unique_added_in_turn(all);
            }
        }
        queue
    }

    /// The number of pending installs.
    pub fn len(&self) -> (n: usize)
        ensures
            n == self@.len(),
    {
        self.pending_downloads.len()
    }

    /// Whether nothing is pending.
    pub fn is_empty(&self) -> (empty: bool)
        ensures
            empty == (self@.len() == 0),
    {
        self.pending_downloads.len() == 0
    }

    /// Whether an install is pending for the given major version and image type.
    pub fn contains(&self, major_version: u32, image_type: &str) -> (found: bool)
        ensures
            found == exists|i: int|
                0 <= i < self@.len() && (#[trigger] self@[i]).has_key(major_version, image_type@),
    {
        let mut i: usize = 0;
        while i < self.pending_downloads.len()
            invariant
                i <= self.pending_downloads.len(),
                forall|k: int|
                    0 <= k < i ==> !(#[trigger] self.pending_downloads@[k]).has_key(
                        major_version,
                        image_type@,
                    ),
            decreases self.pending_downloads.len() - i,
        {
            if self.pending_downloads[i].matches_key(major_version, image_type) {
                assert(self@[i as int].has_key(major_version, image_type@));
                return true;
            }
            i = i + 1;
        }
        false
    }

    /// Registers an install. An entry for the same major version and image type
    /// is replaced; the new entry stands last.
    pub fn add(&mut self, download: PendingJavaDownload)
        ensures
            final(self)@ == with_entry(old(self)@, download),
            unique_keys(final(self)@),
    {
        proof {
            use_type_invariant(&*self);
            lemma_with_entry_unique(self@, download);
        }
        let mut kept = remove_key(
            &self.pending_downloads,
            download.major_version,
            download.image_type.as_str(),
        );
        kept.push(download);
        self.pending_downloads = kept;
    }

    /// Retires the install for the given major version and image type, if one is
    /// pending; the other entries keep their order.
    pub fn remove(&mut self, major_version: u32, image_type: &str)
        ensures
            final(self)@ == without_key(old(self)@, major_version, image_type@),
            unique_keys(final(self)@),
    {
        proof {
            use_type_invariant(&*self);
            lemma_without_key(self@, major_version, image_type@);
        }
        let kept = remove_key(&self.pending_downloads, major_version, image_type);
        self.pending_downloads = kept;
    }

    /// The pending installs, in order.
    pub fn list(&self) -> (entries: Vec<PendingJavaDownload>)
        ensures
            entries@ == self@,
            unique_keys(entries@),
    {
        proof {
            use_type_invariant(self);
        }
        let mut out: Vec<PendingJavaDownload> = Vec::new();
        let mut i: usize = 0;
        while i < self.pending_downloads.len()
            invariant
                i <= self.pending_downloads.len(),
                out@ == self.pending_downloads@.subrange(0, i as int),
            decreases self.pending_downloads.len() - i,
        {
            out.push(self.pending_downloads[i].duplicate());
            i = i + 1;
        }
        assert(self.pending_downloads@.subrange(0, self.pending_downloads.len() as int)
            =~= self.pending_downloads@);
        out
    }
}

/// Entries with unique keys, added in turn, stay as they are.
pub proof fn lemma_unique_added_in_turn(entries: Seq<PendingJavaDownload>)
    requires
        unique_keys(entries),
    ensures
        added_in_turn(entries) == entries,
    decreases entries.len(),
{
    if entries.len() > 0 {
        let front = entries.drop_last();
        let last = entries.last();
        assert(unique_keys(front)) by {
            assert forall|i: int, j: int| 0 <= i < j < front.len() implies !(
            #[trigger] front[i]).same_key(#[trigger] front[j]) by {
                assert(front[i] == entries[i] && front[j] == entries[j]);
            }
        }
        lemma_unique_added_in_turn(front);
        assert forall|i: int| 0 <= i < front.len() implies !(#[trigger] front[i]).has_key(
            last.major_version,
            last.image_type@,
        ) by {
            assert(front[i] == entries[i]);
            assert(!entries[i].same_key(entries[entries.len() - 1]));
        }
        lemma_without_key(front, last.major_version, last.image_type@);
        assert(with_entry(front, last) =~= entries);
    }
}

/// Copies the entries that do not stand for the given key.
fn remove_key(
    entries: &Vec<PendingJavaDownload>,
    major_version: u32,
    image_type: &str,
) -> (out: Vec<PendingJavaDownload>)
    ensures
        out@ == without_key(entries@, major_version, image_type@),
{
    let mut out: Vec<PendingJavaDownload> = Vec::new();
    let mut i: usize = 0;
    assert(entries@.subrange(0, 0) =~= Seq::<PendingJavaDownload>::empty());
    while i < entries.len()
        invariant
            i <= entries.len(),
            out@ == without_key(entries@.subrange(0, i as int), major_version, image_type@),
        decreases entries.len() - i,
    {
        proof {
            let upto = entries@.subrange(0, i + 1);
            assert(upto.drop_last() =~= entries@.subrange(0, i as int));
            assert(upto.last() == entries@[i as int]);
        }
        if !entries[i].matches_key(major_version, image_type) {
            out.push(entries[i].duplicate());
        }
        i = i + 1;
    }
    assert(entries@.subrange(0, entries.len() as int) =~= entries@);
    out
}

/// Adding the same entry twice leaves the queue as adding it once.
pub proof fn law_add_is_idempotent(entries: Seq<PendingJavaDownload>, entry: PendingJavaDownload)
    ensures
        with_entry(with_entry(entries, entry), entry) == with_entry(entries, entry),
{
    let rest = without_key(entries, entry.major_version, entry.image_type@);
    lemma_without_key(entries, entry.major_version, entry.image_type@);
    let once = rest.push(entry);
    assert(once.drop_last() =~= rest);
    lemma_without_key(rest, entry.major_version, entry.image_type@);
    assert(without_key(once, entry.major_version, entry.image_type@) == rest);
}

/// After an entry was added and its key removed, no entry stands for that key.
pub proof fn law_removed_key_is_absent(
    entries: Seq<PendingJavaDownload>,
    major_version: u32,
    image_type: Seq<char>,
)
    ensures
        forall|i: int|
            0 <= i < without_key(entries, major_version, image_type).len() ==> !(
            #[trigger] without_key(entries, major_version, image_type)[i]).has_key(
                major_version,
                image_type,
            ),
{
    lemma_without_key(entries, major_version, image_type);
}

} // verus!
