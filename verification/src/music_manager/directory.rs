use vstd::prelude::*;
use vstd::string::*;
use super::text::has_music_extension;
use super::text::is_music_file;

verus! {

/// What a directory holds: a file, named by its path, or another directory.
#[derive(Debug)]
pub enum Entry {
    File(String),
    Directory(Directory),
}

/// A directory as it was listed: its path and its entries, in the order of
/// the listing. Paths are separated by `/`.
#[derive(Debug)]
pub struct Directory {
    pub path: String,
    pub entries: Vec<Entry>,
}

/// One step of a scan: an album to be saved, or a song to be read and saved.
#[derive(Clone, Debug)]
pub enum Task {
    Album(String),
    Song(String),
}

/// What a `Task` stands for.
pub enum Work {
    Album(Seq<char>),
    Song(Seq<char>),
}

impl View for Task {
    type V = Work;

    open spec fn view(&self) -> Work {
        match self {
            Task::Album(path) => Work::Album(path@),
            Task::Song(path) => Work::Song(path@),
        }
    }
}

/// What a sequence of tasks stands for, item by item.
pub open spec fn works(tasks: Seq<Task>) -> Seq<Work> {
    tasks.map_values(|task: Task| task@)
}

/// The work that the first `count` of `entries` give, in the order of the
/// walk: entry by entry, and a directory before what it holds.
pub open spec fn plan_of(entries: Seq<Entry>, count: nat) -> Seq<Work>
    decreases entries, count,
{
    if count == 0 || count > entries.len() {
        Seq::empty()
    } else {
        plan_of(entries, (count - 1) as nat) + entry_plan(entries[count - 1])
    }
}

/// The work that one entry gives: a song where it is a music file, nothing
/// where it is another file, and an album followed by the work of its entries
/// where it is a directory.
pub open spec fn entry_plan(entry: Entry) -> Seq<Work>
    decreases entry,
{
    match entry {
        Entry::File(path) => if is_music_file(path@) {
            seq![Work::Song(path@)]
        } else {
            Seq::empty()
        },
        Entry::Directory(directory) => seq![Work::Album(directory.path@)] + plan_of(
            directory.entries@,
            directory.entries@.len(),
        ),
    }
}

/// The paths of the songs among `work`, in their order.
pub open spec fn songs_of(work: Seq<Work>) -> Seq<Seq<char>>
    decreases work.len(),
{
    if work.len() == 0 {
        Seq::empty()
    } else {
        match work.last() {
            Work::Song(path) => songs_of(work.drop_last()).push(path),
            Work::Album(_) => songs_of(work.drop_last()),
        }
    }
}

/// The paths of the albums among `work`, in their order.
pub open spec fn albums_of(work: Seq<Work>) -> Seq<Seq<char>>
    decreases work.len(),
{
    if work.len() == 0 {
        Seq::empty()
    } else {
        match work.last() {
            Work::Album(path) => albums_of(work.drop_last()).push(path),
            Work::Song(_) => albums_of(work.drop_last()),
        }
    }
}

/// `count`, or the largest `u64` where `count` is larger.
pub open spec fn saturated(count: nat) -> nat {
    if count <= u64::MAX {
        count
    } else {
        u64::MAX as nat
    }
}

/// The songs of two pieces of work are the songs of the first, then those of
/// the second.
pub proof fn lemma_songs_of_concat(first: Seq<Work>, second: Seq<Work>)
    ensures
        songs_of(first + second) == songs_of(first) + songs_of(second),
    decreases second.len(),
{
    if second.len() > 0 {
        assert((first + second).drop_last() =~= first + second.drop_last());
        lemma_songs_of_concat(first, second.drop_last());
    }
}

/// Whether every song among `work` is a music file.
pub open spec fn songs_are_music(work: Seq<Work>) -> bool {
    forall|i: int|
        0 <= i < work.len() ==> (#[trigger] work[i] matches Work::Song(path) ==> is_music_file(
            path,
        ))
}

/// The songs of a walk are music files: nothing else is planned as a song.
pub proof fn lemma_plan_songs_are_music(entries: Seq<Entry>, count: nat)
    ensures
        songs_are_music(plan_of(entries, count)),
    decreases entries, count,
{
    if count > 0 && count <= entries.len() {
        let earlier = plan_of(entries, (count - 1) as nat);
        let last = entry_plan(entries[count - 1]);
        lemma_plan_songs_are_music(entries, (count - 1) as nat);
        lemma_entry_songs_are_music(entries[count - 1]);
        assert forall|i: int| 0 <= i < (earlier + last).len() implies (#[trigger] (earlier
            + last)[i] matches Work::Song(path) ==> is_music_file(path)) by {
            if i < earlier.len() {
                assert((earlier + last)[i] == earlier[i]);
            } else {
                assert((earlier + last)[i] == last[i - earlier.len()]);
            }
        }
    }
}

/// The songs of what one entry gives are music files.
pub proof fn lemma_entry_songs_are_music(entry: Entry)
    ensures
        songs_are_music(entry_plan(entry)),
    decreases entry,
{
    match entry {
        Entry::File(_) => {},
        Entry::Directory(directory) => {
            let inner = plan_of(directory.entries@, directory.entries@.len());
            lemma_plan_songs_are_music(directory.entries@, directory.entries@.len());
            let all = seq![Work::Album(directory.path@)] + inner;
            assert forall|i: int| 0 <= i < all.len() implies (#[trigger] all[i] matches Work::Song(
                path,
            ) ==> is_music_file(path)) by {
                if i > 0 {
                    assert(all[i] == inner[i - 1]);
                }
            }
        },
    }
}

/// The songs and the albums of a single piece of work.
pub proof fn lemma_songs_and_albums_of_one(item: Work)
    ensures
        songs_of(seq![item]) == match item {
            Work::Song(path) => seq![path],
            Work::Album(_) => Seq::<Seq<char>>::empty(),
        },
        albums_of(seq![item]) == match item {
            Work::Album(path) => seq![path],
            Work::Song(_) => Seq::<Seq<char>>::empty(),
        },
{
    let one = seq![item];
    assert(songs_of(one.drop_last()) =~= Seq::<Seq<char>>::empty());
    assert(albums_of(one.drop_last()) =~= Seq::<Seq<char>>::empty());
}

/// There are no more songs, and no more albums, than there is work.
pub proof fn lemma_songs_and_albums_bounded(work: Seq<Work>)
    ensures
        songs_of(work).len() + albums_of(work).len() == work.len(),
    decreases work.len(),
{
    if work.len() > 0 {
        lemma_songs_and_albums_bounded(work.drop_last());
    }
}

impl Directory {
    /// The work of a scan of this directory.
    pub open spec fn plan(&self) -> Seq<Work> {
        plan_of(self.entries@, self.entries@.len())
    }

    /// The paths of the music files below this directory, in the order of
    /// the walk.
    pub open spec fn music_files(&self) -> Seq<Seq<char>> {
        songs_of(self.plan())
    }

    /// The paths of the directories below this directory, in the order of
    /// the walk.
    pub open spec fn albums(&self) -> Seq<Seq<char>> {
        albums_of(self.plan())
    }

    /// Creates a directory without entries.
    pub fn new(path: &str) -> (directory: Directory)
        ensures
            directory.path@ == path@,
            directory.entries@.len() == 0,
    {
        Directory { path: String::from_str(path), entries: Vec::new() }
    }

    /// The tasks of a scan of this directory, in the order of the walk.
    pub fn tasks(&self) -> (tasks: Vec<Task>)
        ensures
            works(tasks@) == self.plan(),
    {
        let mut tasks: Vec<Task> = Vec::new();
        plan_entries(&self.entries, &mut tasks);
        tasks
    }

    /// Counts recursively the number of music files in the directory. The
    /// count stops at the largest `u64`.
    pub fn count_files(&self) -> (count: u64)
        ensures
            count as nat == saturated(self.music_files().len()),
    {
        count_entries(&self.entries)
    }
}

/// Appends the tasks of `entries` to `tasks`.
fn plan_entries(entries: &Vec<Entry>, tasks: &mut Vec<Task>)
    ensures
        works(final(tasks)@) == works(old(tasks)@) + plan_of(entries@, entries@.len()),
    decreases entries,
{
    let ghost before = works(tasks@);
    let mut i: usize = 0;
    while i < entries.len()
        invariant
            i <= entries.len(),
            works(tasks@) == before + plan_of(entries@, i as nat),
        decreases entries.len() - i,
    {
        let ghost earlier = works(tasks@);
        match &entries[i] {
            Entry::File(path) => {
                if has_music_extension(path.as_str()) {
                    tasks.push(Task::Song(path.clone()));
                }
            },
            Entry::Directory(directory) => {
                tasks.push(Task::Album(directory.path.clone()));
                plan_entries(&directory.entries, tasks);
            },
        }
        assert(works(tasks@) =~= earlier + entry_plan(entries@[i as int]));
        i += 1;
    }
}

/// `first + second`, or the largest `u64` where the sum is larger.
fn saturating_sum(first: u64, second: u64) -> (sum: u64)
    ensures
        sum as nat == saturated((first + second) as nat),
{
    if first > u64::MAX - second {
        u64::MAX
    } else {
        first + second
    }
}

/// Counts the music files among `entries` and below them.
fn count_entries(entries: &Vec<Entry>) -> (count: u64)
    ensures
        count as nat == saturated(songs_of(plan_of(entries@, entries@.len())).len()),
    decreases entries,
{
    let mut count: u64 = 0;
    let mut i: usize = 0;
    while i < entries.len()
        invariant
            i <= entries.len(),
            count as nat == saturated(songs_of(plan_of(entries@, i as nat)).len()),
        decreases entries.len() - i,
    {
        let ghost done = plan_of(entries@, i as nat);
        let ghost next = entry_plan(entries@[i as int]);
        proof {
            lemma_songs_of_concat(done, next);
        }
        match &entries[i] {
            Entry::File(path) => {
                if has_music_extension(path.as_str()) {
                    proof {
                        lemma_songs_and_albums_of_one(Work::Song(path@));
                    }
                    count = saturating_sum(count, 1);
                }
            },
            Entry::Directory(directory) => {
                let below = count_entries(&directory.entries);
                proof {
                    let inner = plan_of(directory.entries@, directory.entries@.len());
                    lemma_songs_of_concat(seq![Work::Album(directory.path@)], inner);
                    lemma_songs_and_albums_of_one(Work::Album(directory.path@));
                }
                count = saturating_sum(count, below);
            },
        }
        i += 1;
    }
    count
}

} // verus!
