use vstd::prelude::*;
use vstd::string::*;
use std::sync::mpsc::Receiver;
use std::sync::mpsc::Sender;
use super::directory::lemma_songs_and_albums_bounded;
use super::directory::lemma_songs_and_albums_of_one;
use super::directory::lemma_songs_of_concat;
use super::directory::lemma_plan_songs_are_music;
use super::directory::songs_are_music;
use super::directory::songs_of;
use super::directory::works;
use super::directory::Directory;
use super::directory::Task;
use super::directory::Work;
use super::catalog::album_lookup_request;
use super::catalog::column_of;
use super::catalog::key_lookup_request;
use super::catalog::song_lookup_request;
use super::catalog::unknown;
use super::music_database::album_attempt;
use super::music_database::answers_with_row;
use super::music_database::from_store;
use super::music_database::lemma_continues;
use super::music_database::lemma_known_song_is_kept;
use super::music_database::song_attempt;
use super::music_database::Exchange;
use super::music_database::MusicDatabase;
use super::store::StorageError;
use super::music_file::decoded_title;
use super::music_file::decodes;
use super::music_file::is_file_of;
use super::music_file::MusicFile;
use super::text::child;
use super::query_manager::Column;
use super::query_manager::Table;
use super::text::child_path;
use super::text::has_music_extension;
use super::text::is_music_file;
use super::text::text_or;

verus! {

/// `std::sync::mpsc::Sender`: the sending half of a channel.
#[verifier::external_type_specification]
#[verifier::external_body]
#[verifier::reject_recursive_types(T)]
pub struct ExSender<T>(Sender<T>);

/// `std::sync::mpsc::Receiver`: the receiving half of a channel.
#[verifier::external_type_specification]
#[verifier::external_body]
#[verifier::reject_recursive_types(T)]
pub struct ExReceiver<T>(Receiver<T>);

/// Types of events that occur during the mining.
#[derive(Clone, Copy, Debug, PartialEq, Eq)]
pub enum MinerEvent {
    Ready,
    Mining,
    /// So many music files, of so many in all, are scanned.
    Percentage(u64, u64),
    Finished,
}

/// What a scan needs next from the one who runs it.
#[derive(Clone, Debug)]
pub enum MinerAction {
    /// The bytes of the file at this path, to be handed to `proceed`.
    Read(String),
    /// Nothing: the scan is over.
    Done,
}

/// The environment tells of no home directory.
#[derive(Clone, Copy, Debug, PartialEq, Eq)]
pub struct HomeNotFound;

/// How far a miner is with a scan.
#[derive(Clone, Copy, Debug)]
enum Phase {
    Ready,
    Mining,
    Finished,
}

/// A miner instance has a directory (where the mine is done), a database connection,
/// a list of listeners, and the number of files in the directory (scanned and not scanned).
/// The miner is able use it's database connection to store the music it founds.
///
/// A scan is run by its caller, who reads the files: `mine` begins it, and
/// `proceed` takes the bytes of one music file after the other, until the
/// scan is done.
pub struct Miner {
    directory: String,
    database: MusicDatabase,
    listeners: Vec<Sender<MinerEvent>>,
    number_of_files: u64,
    files_scanned: u64,
    tasks: Vec<Task>,
    next: usize,
    phase: Phase,
    emitted: Ghost<Seq<MinerEvent>>,
    told: Ghost<Map<int, Seq<MinerEvent>>>,
}

/// `std::sync::mpsc::channel`: a new channel, as its sending and its
/// receiving half.
#[verifier::external_body]
fn new_channel() -> (channel: (Sender<MinerEvent>, Receiver<MinerEvent>)) {
    std::sync::mpsc::channel()
}

/// `std::sync::mpsc::Sender::send`: hands `event` to the channel, and tells
/// whether it took it. A channel whose receiver is gone takes nothing.
#[verifier::external_body]
fn send_event(listener: &Sender<MinerEvent>, event: MinerEvent) -> (taken: bool) {
    listener.send(event).is_ok()
}

/// `dirs::home_dir`: the home directory of the user, if the environment tells
/// of one. Of the path, nothing is claimed.
#[verifier::external_body]
fn home_directory() -> (home: Option<String>) {
    dirs::home_dir().map(|path| path.to_string_lossy().into_owned())
}

/// The music folder of the user whose home directory is `home`: its entry
/// `Music`.
pub open spec fn music_folder(home: Seq<char>) -> Seq<char> {
    child(home, "Music"@)
}

/// The music folder of the user whose home directory is `home`. Without a
/// home directory there is no music folder.
pub fn music_folder_in(home: Option<String>) -> (folder: Result<String, HomeNotFound>)
    ensures
        match folder {
            Ok(folder) => home is Some && folder@ == music_folder(home->0@),
            Err(_) => home is None,
        },
{
    match home {
        Some(home) => Ok(child_path(home.as_str(), "Music")),
        None => Err(HomeNotFound),
    }
}

/// Whether `path` is the music folder of some home directory.
pub open spec fn is_music_folder(path: Seq<char>) -> bool {
    exists|home: Seq<char>| path == #[trigger] music_folder(home)
}

/// Returns the default music folder of the computer: the entry `Music` of
/// the user's home directory. It fails where the environment tells of no
/// home directory, and only there.
pub fn get_default_music_folder_path() -> (folder: Result<String, HomeNotFound>)
    ensures
        folder matches Ok(path) ==> is_music_folder(path@),
{
    let home = home_directory();
    let folder = music_folder_in(home);
    proof {
        if folder is Ok {
            assert(folder->Ok_0@ == music_folder(home->0@));
        }
    }
    folder
}

/// The events that tell of `scanned` music files, one after the other, of
/// `total` in all.
pub open spec fn percentages(scanned: nat, total: nat) -> Seq<MinerEvent> {
    Seq::new(scanned, |i: int| MinerEvent::Percentage((i + 1) as u64, total as u64))
}

/// The events of a scan of `total` music files of which `scanned` are
/// scanned: `Mining`, one `Percentage` for each scanned file, and `Finished`
/// where the scan is over.
pub open spec fn scan_events(scanned: nat, total: nat, finished: bool) -> Seq<MinerEvent> {
    seq![MinerEvent::Mining] + percentages(scanned, total) + if finished {
        seq![MinerEvent::Finished]
    } else {
        Seq::empty()
    }
}

/// What is left of `work` once the albums that it begins with are saved.
pub open spec fn after_albums(work: Seq<Work>) -> Seq<Work>
    decreases work.len(),
{
    if work.len() > 0 && work[0] is Album {
        after_albums(work.skip(1))
    } else {
        work
    }
}

impl Miner {
    /// The directory where the mining is done.
    pub closed spec fn spec_directory(&self) -> Seq<char> {
        self.directory@
    }

    /// The number of music files of the scan at hand.
    pub closed spec fn number_of_files(&self) -> nat {
        self.number_of_files as nat
    }

    /// The number of music files that the scan at hand is done with.
    pub closed spec fn files_scanned(&self) -> nat {
        self.files_scanned as nat
    }

    /// The work that the scan at hand has before it.
    pub closed spec fn remaining(&self) -> Seq<Work> {
        works(self.tasks@).skip(self.next as int)
    }

    /// The number of listeners.
    pub closed spec fn listeners(&self) -> nat {
        self.listeners@.len()
    }

    /// The events of the scan at hand, in the order in which the listeners
    /// were told.
    pub closed spec fn emitted(&self) -> Seq<MinerEvent> {
        self.emitted@
    }

    /// The events that were handed to the channel of a listener, in their
    /// order. The listeners are counted from 0, in the order in which they
    /// were made.
    pub closed spec fn told(&self, listener: int) -> Seq<MinerEvent> {
        if self.told@.dom().contains(listener) {
            self.told@[listener]
        } else {
            Seq::empty()
        }
    }

    /// Whether this miner is `earlier` after each of its listeners was told
    /// `events`: the listeners are those of `earlier`, and each was told what
    /// it was told before, and then `events`.
    pub open spec fn tells(&self, earlier: &Miner, events: Seq<MinerEvent>) -> bool {
        &&& self.listeners() == earlier.listeners()
        &&& forall|i: int|
            0 <= i < self.listeners() ==> #[trigger] self.told(i) == earlier.told(i) + events
    }

    /// Whether a listener was told of the whole scan at hand: what it was
    /// told ends with the events of the scan.
    pub open spec fn heard(&self, listener: int) -> bool {
        ends_with(self.told(listener), self.emitted())
    }

    /// Whether this miner is `earlier` after more events of the scan at hand:
    /// the events of the scan are those of `earlier` and then the new ones,
    /// each listener was told the new ones, and a listener that had been told
    /// of the whole scan still is.
    pub open spec fn goes_on(&self, earlier: &Miner) -> bool {
        &&& earlier.emitted().len() <= self.emitted().len()
        &&& self.emitted().take(earlier.emitted().len() as int) == earlier.emitted()
        &&& self.tells(earlier, self.emitted().skip(earlier.emitted().len() as int))
        &&& forall|i: int|
            0 <= i < earlier.listeners() && earlier.heard(i) ==> #[trigger] self.heard(i)
    }

    /// Whether a scan is under way.
    pub closed spec fn is_mining(&self) -> bool {
        self.phase is Mining
    }

    /// Whether the last scan is over.
    pub closed spec fn is_finished(&self) -> bool {
        self.phase is Finished
    }

    /// The database in which the miner stores what it finds.
    pub closed spec fn store(&self) -> MusicDatabase {
        self.database
    }

    /// The song whose bytes the scan waits for.
    pub open spec fn awaited(&self) -> Option<Seq<char>> {
        if self.is_mining() && self.remaining().len() > 0 && self.remaining()[0] is Song {
            Some(self.remaining()[0]->Song_0)
        } else {
            None
        }
    }

    /// What holds of a miner between its operations: the music files that are
    /// scanned and those that the scan has before it are the music files of
    /// the scan, and a scan that is under way has work before it.
    pub closed spec fn wf(&self) -> bool {
        &&& self.coherent()
        &&& self.phase is Mining ==> self.next < self.tasks@.len()
    }

    spec fn coherent(&self) -> bool {
        &&& self.next <= self.tasks@.len()
        &&& songs_are_music(works(self.tasks@))
        &&& self.files_scanned + songs_of(self.remaining()).len() == self.number_of_files
        &&& self.phase is Ready ==> self.tasks@.len() == 0
        &&& self.phase is Finished ==> self.next == self.tasks@.len()
    }

    /// Whether the listeners were told of the scan at hand, and of nothing
    /// else: no event before the first scan, and after that `Mining`, one
    /// `Percentage` for each music file that is scanned, and `Finished` once
    /// the scan is over.
    pub closed spec fn scanning(&self) -> bool {
        self.emitted@ == match self.phase {
            Phase::Ready => Seq::empty(),
            Phase::Mining => scan_events(
                self.files_scanned as nat,
                self.number_of_files as nat,
                false,
            ),
            Phase::Finished => scan_events(
                self.files_scanned as nat,
                self.number_of_files as nat,
                true,
            ),
        }
    }

    /// Whether `other` differs from this miner in nothing but its database.
    pub closed spec fn same_but_store(&self, other: &Miner) -> bool {
        &&& self.directory == other.directory
        &&& self.listeners == other.listeners
        &&& self.number_of_files == other.number_of_files
        &&& self.files_scanned == other.files_scanned
        &&& self.tasks == other.tasks
        &&& self.next == other.next
        &&& self.phase == other.phase
        &&& self.emitted == other.emitted
        &&& self.told == other.told
    }

    /// Whether `other` differs from this miner in nothing but the events of
    /// the scan and what its listeners were told.
    pub closed spec fn same_but_events(&self, other: &Miner) -> bool {
        &&& self.directory == other.directory
        &&& self.database == other.database
        &&& self.listeners == other.listeners
        &&& self.number_of_files == other.number_of_files
        &&& self.files_scanned == other.files_scanned
        &&& self.tasks == other.tasks
        &&& self.next == other.next
        &&& self.phase == other.phase
    }

    /// Creates a new instance of a miner for the default music folder, that
    /// stores what it finds in `database`. It fails where the environment
    /// tells of no home directory, and only there.
    pub fn new(database: MusicDatabase) -> (miner: Result<Miner, HomeNotFound>)
        ensures
            miner matches Ok(miner) ==> {
                &&& is_music_folder(miner.spec_directory())
                &&& miner.wf()
                &&& miner.scanning()
                &&& miner.store() == database
                &&& miner.listeners() == 0
                &&& miner.number_of_files() == 0
                &&& miner.files_scanned() == 0
                &&& miner.remaining().len() == 0
                &&& miner.emitted().len() == 0
                &&& !miner.is_mining()
                &&& !miner.is_finished()
            },
    {
        match get_default_music_folder_path() {
            Ok(folder) => Ok(Miner::from_dir(folder.as_str(), database)),
            Err(error) => Err(error),
        }
    }

    /// Creates a new instance of a miner, with an specific mining directory,
    /// that stores what it finds in `database`.
    pub fn from_dir(directory: &str, database: MusicDatabase) -> (miner: Miner)
        ensures
            miner.wf(),
            miner.scanning(),
            miner.spec_directory() == directory@,
            miner.store() == database,
            miner.listeners() == 0,
            miner.number_of_files() == 0,
            miner.files_scanned() == 0,
            miner.remaining().len() == 0,
            miner.emitted().len() == 0,
            !miner.is_mining(),
            !miner.is_finished(),
    {
        let miner = Miner {
            directory: String::from_str(directory),
            database,
            listeners: Vec::new(),
            number_of_files: 0,
            files_scanned: 0,
            tasks: Vec::new(),
            next: 0,
            phase: Phase::Ready,
            emitted: Ghost(Seq::empty()),
            told: Ghost(Map::empty()),
        };
        miner
    }

    /// Returns the current directory where the mining is done.
    pub fn directory(&self) -> (directory: &String)
        ensures
            directory@ == self.spec_directory(),
    {
        &self.directory
    }

    /// Returns the database in which the miner stores what it finds.
    pub fn database(&self) -> (database: &MusicDatabase)
        ensures
            *database == self.store(),
    {
        &self.database
    }

    /// Returns the database in which the miner stores what it finds, for
    /// use. The miner goes on with the database as its user leaves it.
    pub fn database_mut(&mut self) -> (database: &mut MusicDatabase)
        ensures
            *database == old(self).store(),
            final(self).store() == *final(database),
            final(self).same_but_store(old(self)),
            final(self).wf() == old(self).wf(),
            final(self).scanning() == old(self).scanning(),
            final(self).emitted() == old(self).emitted(),
            final(self).listeners() == old(self).listeners(),
            final(self).spec_directory() == old(self).spec_directory(),
            final(self).number_of_files() == old(self).number_of_files(),
            final(self).files_scanned() == old(self).files_scanned(),
            final(self).remaining() == old(self).remaining(),
            final(self).is_mining() == old(self).is_mining(),
            final(self).is_finished() == old(self).is_finished(),
            forall|i: int| final(self).told(i) == old(self).told(i),
    {
        &mut self.database
    }

    /// Gives up the miner for the database in which it stored what it
    /// found.
    pub fn into_database(self) -> (database: MusicDatabase)
        ensures
            database == self.store(),
    {
        self.database
    }

    /// Returns a new miner event listener: the receiving half of a channel
    /// that is told each event from now on. Of what the listeners were told
    /// before, it was told nothing.
    pub fn get_listener(&mut self) -> (listener: Receiver<MinerEvent>)
        ensures
            final(self).listeners() == old(self).listeners() + 1,
            final(self).told(old(self).listeners() as int).len() == 0,
            forall|i: int|
                0 <= i < old(self).listeners() ==> #[trigger] final(self).told(i) == old(
                    self,
                ).told(i),
            final(self).emitted() == old(self).emitted(),
            final(self).wf() == old(self).wf(),
            final(self).scanning() == old(self).scanning(),
            final(self).spec_directory() == old(self).spec_directory(),
            final(self).number_of_files() == old(self).number_of_files(),
            final(self).files_scanned() == old(self).files_scanned(),
            final(self).remaining() == old(self).remaining(),
            final(self).is_mining() == old(self).is_mining(),
            final(self).is_finished() == old(self).is_finished(),
            final(self).store() == old(self).store(),
    {
        let (sender, receiver) = new_channel();
        let ghost made = self.listeners@.len() as int;
        self.listeners.push(sender);
        self.told = Ghost(self.told@.insert(made, Seq::empty()));
        receiver
    }

    /// Notifies the miner's listeners about an event: it is handed to the
    /// channel of each of them, in the order in which they were made. A
    /// listener whose receiver is gone is passed over.
    pub fn notify_listeners(&mut self, event: MinerEvent)
        ensures
            final(self).emitted() == old(self).emitted().push(event),
            final(self).tells(old(self), seq![event]),
            final(self).goes_on(old(self)),
            final(self).same_but_events(old(self)),
            final(self).store() == old(self).store(),
            final(self).spec_directory() == old(self).spec_directory(),
            final(self).number_of_files() == old(self).number_of_files(),
            final(self).files_scanned() == old(self).files_scanned(),
            final(self).remaining() == old(self).remaining(),
            final(self).is_mining() == old(self).is_mining(),
            final(self).is_finished() == old(self).is_finished(),
            final(self).wf() == old(self).wf(),
    {
        let mut i: usize = 0;
        while i < self.listeners.len()
            invariant
                i <= self.listeners.len(),
                self.same_but_events(old(self)),
                self.emitted == old(self).emitted,
                forall|j: int|
                    0 <= j < i ==> #[trigger] self.told(j) == old(self).told(j).push(event),
                forall|j: int| i <= j ==> #[trigger] self.told(j) == old(self).told(j),
            decreases self.listeners.len() - i,
        {
            let _ = send_event(&self.listeners[i], event);
            let ghost before = *self;
            self.told = Ghost(self.told@.insert(i as int, self.told(i as int).push(event)));
            proof {
                assert forall|j: int| self.told(j) == if j == i {
                    before.told(j).push(event)
                } else {
                    before.told(j)
                } by {}
            }
            i += 1;
        }
        let ghost sent = *self;
        self.emitted = Ghost(self.emitted@.push(event));
        proof {
            assert forall|j: int| 0 <= j < self.listeners() implies #[trigger] self.told(j)
                == old(self).told(j) + seq![event] by {
                assert(self.told(j) == sent.told(j));
                assert(old(self).told(j).push(event) =~= old(self).told(j) + seq![event]);
            }
            assert(self.emitted().take(old(self).emitted().len() as int) =~= old(self).emitted());
            assert(self.emitted().skip(old(self).emitted().len() as int) =~= seq![event]);
            assert forall|j: int|
                0 <= j < old(self).listeners() && old(self).heard(j) implies #[trigger] self.heard(
                j,
            ) by {
                lemma_ends_with_more(old(self).told(j), old(self).emitted(), seq![event]);
                assert(old(self).emitted() + seq![event] =~= self.emitted());
            }
        }
    }
}

/// Whether `all` ends with `tail`.
pub open spec fn ends_with(all: Seq<MinerEvent>, tail: Seq<MinerEvent>) -> bool {
    all.len() >= tail.len() && all.skip(all.len() - tail.len()) == tail
}

/// What ends with a tail still does when both go on with the same events.
pub proof fn lemma_ends_with_more(
    all: Seq<MinerEvent>,
    tail: Seq<MinerEvent>,
    more: Seq<MinerEvent>,
)
    requires
        ends_with(all, tail),
    ensures
        ends_with(all + more, tail + more),
{
    assert((all + more).skip((all + more).len() - (tail + more).len()) =~= all.skip(
        all.len() - tail.len(),
    ) + more);
}

impl Miner {
    /// A miner that tells nothing goes on as it is.
    pub proof fn lemma_goes_on_as_it_is(self, earlier: Miner)
        requires
            self.emitted() == earlier.emitted(),
            self.listeners() == earlier.listeners(),
            forall|i: int| self.told(i) == earlier.told(i),
        ensures
            self.goes_on(&earlier),
    {
        let n = earlier.emitted().len() as int;
        assert(self.emitted().take(n) =~= earlier.emitted());
        assert(self.emitted().skip(n) =~= Seq::<MinerEvent>::empty());
        assert forall|i: int| 0 <= i < self.listeners() implies #[trigger] self.told(i)
            == earlier.told(i) + self.emitted().skip(n) by {
            assert(earlier.told(i) + Seq::<MinerEvent>::empty() =~= earlier.told(i));
        }
    }

    /// Going on is going on: a miner that goes on after one that went on
    /// after `earlier` goes on after `earlier`.
    pub proof fn lemma_goes_on_further(self, middle: Miner, earlier: Miner)
        requires
            middle.goes_on(&earlier),
            self.goes_on(&middle),
        ensures
            self.goes_on(&earlier),
    {
        let first = earlier.emitted().len() as int;
        let second = middle.emitted().len() as int;
        assert(self.emitted().take(first) =~= self.emitted().take(second).take(first));
        assert(self.emitted().skip(first) =~= middle.emitted().skip(first) + self.emitted().skip(
            second,
        ));
        assert forall|i: int| 0 <= i < self.listeners() implies #[trigger] self.told(i)
            == earlier.told(i) + self.emitted().skip(first) by {
            assert(middle.told(i) == earlier.told(i) + middle.emitted().skip(first));
            assert(self.told(i) == middle.told(i) + self.emitted().skip(second));
            assert(earlier.told(i) + middle.emitted().skip(first) + self.emitted().skip(second)
                =~= earlier.told(i) + (middle.emitted().skip(first) + self.emitted().skip(
                second,
            )));
        }
        assert forall|i: int|
            0 <= i < earlier.listeners() && earlier.heard(i) implies #[trigger] self.heard(i) by {
            assert(middle.heard(i));
        }
    }
}

/// No song is lost, and none is gained, when an album at the head of the
/// work is done with.
proof fn lemma_songs_after_album(work: Seq<Work>)
    requires
        work.len() > 0,
        work[0] is Album,
    ensures
        songs_of(work.skip(1)) == songs_of(work),
{
    lemma_songs_and_albums_of_one(work[0]);
    lemma_songs_of_concat(seq![work[0]], work.skip(1));
    assert(seq![work[0]] + work.skip(1) =~= work);
}

/// One song is done with when the song at the head of the work is.
proof fn lemma_songs_after_song(work: Seq<Work>)
    requires
        work.len() > 0,
        work[0] is Song,
    ensures
        songs_of(work).len() == songs_of(work.skip(1)).len() + 1,
{
    lemma_songs_and_albums_of_one(work[0]);
    lemma_songs_of_concat(seq![work[0]], work.skip(1));
    assert(seq![work[0]] + work.skip(1) =~= work);
}

/// There is one way to succeed with nothing to show for it.
proof fn lemma_done(result: Result<(), StorageError>)
    ensures
        result is Ok ==> result == Ok::<(), StorageError>(()),
{
    if let Ok(unit) = result {
        assert(unit == ());
    }
}

/// The paths of the albums that `work` begins with.
pub open spec fn leading_albums(work: Seq<Work>) -> Seq<Seq<char>>
    decreases work.len(),
{
    if work.len() > 0 && work[0] is Album {
        seq![work[0]->Album_0] + leading_albums(work.skip(1))
    } else {
        Seq::empty()
    }
}

/// What holds of the saving of the albums at `paths`, one after the other:
/// the exchanges with the store are those of the saving of the first album,
/// then those of the second, and so on to the last.
pub open spec fn albums_saved(connected: bool, paths: Seq<Seq<char>>, issued: Seq<Exchange>) -> bool
    decreases paths.len(),
{
    if paths.len() == 0 {
        issued.len() == 0
    } else {
        exists|n: int|
            {
                &&& 0 <= n <= issued.len()
                &&& albums_saved(connected, paths.drop_last(), #[trigger] issued.take(n))
                &&& album_attempt(connected, paths.last(), issued.skip(n), Ok(()))
            }
    }
}

/// What holds of a saving of the albums at `paths` that fails with `error`:
/// some of the albums are saved, the saving of the next one fails, and
/// nothing is handed to the store for those after it.
pub open spec fn albums_failing(
    connected: bool,
    paths: Seq<Seq<char>>,
    issued: Seq<Exchange>,
    error: StorageError,
) -> bool {
    exists|k: int, n: int|
        {
            &&& 0 <= k < paths.len()
            &&& 0 <= n <= issued.len()
            &&& #[trigger] albums_saved(connected, paths.take(k), issued.take(n))
            &&& album_attempt(connected, paths[k], issued.skip(n), Err(error))
        }
}

/// What holds of a saving of the albums at `paths` that ends as `outcome`
/// tells.
pub open spec fn albums_step(
    connected: bool,
    paths: Seq<Seq<char>>,
    issued: Seq<Exchange>,
    outcome: Result<(), StorageError>,
) -> bool {
    match outcome {
        Ok(()) => albums_saved(connected, paths, issued),
        Err(error) => albums_failing(connected, paths, issued, error),
    }
}

/// What holds of the keeping of the song at `path`, whose file holds
/// `contents`: where the file was read and the decoder finds a tag in it, the
/// music file that tells what the decoder finds is saved. Where the file
/// could not be read, or holds no tag, nothing is handed to the store, and
/// the keeping succeeds.
pub open spec fn song_kept(
    connected: bool,
    path: Seq<char>,
    contents: Option<&[u8]>,
    issued: Seq<Exchange>,
    saved: Result<(), StorageError>,
) -> bool {
    if contents is Some && decodes(contents->0@) {
        exists|file: MusicFile|
            #[trigger] is_file_of(file, path, contents->0@) && song_attempt(
                connected,
                file,
                issued,
                saved,
            )
    } else {
        issued.len() == 0 && saved is Ok
    }
}

/// What holds of one step of a scan: the song at `path` is kept, and then the
/// albums at `paths` are saved. Where the keeping of the song fails, nothing
/// is handed to the store for the albums.
pub open spec fn song_step(
    connected: bool,
    path: Seq<char>,
    contents: Option<&[u8]>,
    paths: Seq<Seq<char>>,
    issued: Seq<Exchange>,
    outcome: Result<(), StorageError>,
) -> bool {
    ||| outcome is Err && song_kept(connected, path, contents, issued, outcome)
    ||| exists|n: int|
        {
            &&& 0 <= n <= issued.len()
            &&& #[trigger] song_kept(connected, path, contents, issued.take(n), Ok(()))
            &&& albums_step(connected, paths, issued.skip(n), outcome)
        }
}

/// Whether an operation of a scan succeeded.
pub open spec fn outcome_of(action: Result<MinerAction, StorageError>) -> Result<(), StorageError> {
    match action {
        Ok(_) => Ok(()),
        Err(error) => Err(error),
    }
}

impl Miner {
    /// Saves the albums that the work begins with, up to the next song or to
    /// the end of the work, where the listeners are told that the scan is
    /// over.
    fn advance(&mut self) -> (action: Result<MinerAction, StorageError>)
        requires
            old(self).coherent(),
            old(self).phase is Mining,
        ensures
            final(self).wf(),
            final(self).directory == old(self).directory,
            final(self).listeners == old(self).listeners,
            final(self).number_of_files == old(self).number_of_files,
            final(self).files_scanned == old(self).files_scanned,
            final(self).goes_on(old(self)),
            final(self).database.continues(&old(self).database),
            albums_step(
                old(self).database.is_connected(),
                leading_albums(old(self).remaining()),
                final(self).database.issued_since(&old(self).database),
                outcome_of(action),
            ),
            match action {
                Ok(action) => {
                    &&& final(self).remaining() == after_albums(old(self).remaining())
                    &&& match action {
                        MinerAction::Read(path) => {
                            &&& final(self).awaited() == Some(path@)
                            &&& final(self).emitted() == old(self).emitted()
                        },
                        MinerAction::Done => {
                            &&& final(self).is_finished()
                            &&& final(self).remaining().len() == 0
                            &&& final(self).emitted() == old(self).emitted().push(
                                MinerEvent::Finished,
                            )
                        },
                    }
                },
                Err(error) => {
                    &&& from_store(error)
                    &&& final(self).is_mining()
                    &&& final(self).emitted() == old(self).emitted()
                },
            },
    {
        let ghost start = self.database;
        let ghost connected = self.database.is_connected();
        let ghost all = leading_albums(self.remaining());
        let ghost mut saved: Seq<Seq<char>> = Seq::empty();
        proof {
            start.lemma_nothing_issued();
            self.lemma_goes_on_as_it_is(*old(self));
        }
        while self.next < self.tasks.len()
            invariant
                self.coherent(),
                self.told == old(self).told,
                self.goes_on(old(self)),
                self.phase is Mining,
                self.directory == old(self).directory,
                self.listeners == old(self).listeners,
                self.number_of_files == old(self).number_of_files,
                self.files_scanned == old(self).files_scanned,
                self.emitted == old(self).emitted,
                after_albums(self.remaining()) == after_albums(old(self).remaining()),
                start == old(self).database,
                connected == start.is_connected(),
                all == leading_albums(old(self).remaining()),
                self.database.continues(&start),
                all == saved + leading_albums(self.remaining()),
                albums_saved(connected, saved, self.database.issued_since(&start)),
            decreases self.tasks.len() - self.next,
        {
            let ghost before = self.remaining();
            let ghost middle = self.database;
            assert(before.skip(1) =~= works(self.tasks@).skip(self.next + 1));
            match &self.tasks[self.next] {
                Task::Song(path) => {
                    return Ok(MinerAction::Read(path.clone()));
                },
                Task::Album(path) => {
                    let done = self.database.save_album(path.as_str());
                    proof {
                        lemma_continues(start, middle, self.database);
                        let issued = self.database.issued_since(&start);
                        let n = middle.issued_since(&start).len() as int;
                        assert(issued.take(n) =~= middle.issued_since(&start));
                        assert(all.take(saved.len() as int) =~= saved);
                    }
                    match done {
                        Ok(()) => {
                            proof {
                                lemma_songs_after_album(before);
                                let issued = self.database.issued_since(&start);
                                let n = middle.issued_since(&start).len() as int;
                                let more = saved.push(path@);
                                assert(more.drop_last() =~= saved);
                                assert(album_attempt(
                                    connected,
                                    more.last(),
                                    issued.skip(n),
                                    Ok(()),
                                ));
                                assert(more + leading_albums(before.skip(1)) =~= saved
                                    + leading_albums(before));
                                saved = more;
                            }
                        },
                        Err(error) => {
                            return Err(error);
                        },
                    }
                    self.next = self.next + 1;
                },
            }
        }
        self.phase = Phase::Finished;
        let ghost middle = *self;
        proof {
            self.lemma_goes_on_as_it_is(*old(self));
        }
        self.notify_listeners(MinerEvent::Finished);
        proof {
            self.lemma_goes_on_further(middle, *old(self));
        }
        Ok(MinerAction::Done)
    }

    /// Counts recursively the number of music files in a directory. The
    /// count stops at the largest `u64`.
    pub fn count_files(&self, directory: &Directory) -> (count: u64)
        ensures
            count as nat == super::directory::saturated(directory.music_files().len()),
    {
        directory.count_files()
    }

    /// Plans the walk of a directory: gives the tasks of a scan of it, an
    /// album for each directory and a song for each music file, in the order
    /// in which a walk from the top meets them.
    pub fn plan(&self, directory: &Directory) -> (tasks: Vec<Task>)
        ensures
            works(tasks@) == directory.plan(),
    {
        directory.tasks()
    }

    /// Begins a scan of `tree`, the listing of the miner's directory. The
    /// music files are counted, the listeners are told `Mining`, and the
    /// albums that the walk meets before its first music file are saved.
    ///
    /// The result is what the scan needs next: the bytes of the first music
    /// file, to be handed to `proceed`, or nothing, where the tree holds no
    /// music file. In that case the listeners are told `Finished`.
    pub fn mine(&mut self, tree: &Directory) -> (action: Result<MinerAction, StorageError>)
        ensures
            final(self).wf(),
            final(self).scanning(),
            final(self).spec_directory() == old(self).spec_directory(),
            final(self).number_of_files() == tree.music_files().len(),
            final(self).files_scanned() == 0,
            final(self).tells(old(self), final(self).emitted()),
            forall|i: int| 0 <= i < final(self).listeners() ==> #[trigger] final(self).heard(i),
            final(self).store().continues(&old(self).store()),
            albums_step(
                old(self).store().is_connected(),
                leading_albums(tree.plan()),
                final(self).store().issued_since(&old(self).store()),
                outcome_of(action),
            ),
            match action {
                Ok(action) => {
                    &&& final(self).remaining() == after_albums(tree.plan())
                    &&& match action {
                        MinerAction::Read(path) => {
                            &&& final(self).awaited() == Some(path@)
                            &&& final(self).is_mining()
                            &&& !final(self).is_finished()
                        },
                        MinerAction::Done => {
                            &&& final(self).is_finished()
                            &&& !final(self).is_mining()
                        },
                    }
                },
                Err(error) => {
                    &&& from_store(error)
                    &&& final(self).is_mining()
                    &&& !final(self).is_finished()
                },
            },
    {
        let total = self.count_files(tree);
        let tasks = self.plan(tree);
        let queued = tasks.len();
        proof {
            lemma_songs_and_albums_bounded(tree.plan());
            lemma_plan_songs_are_music(tree.entries@, tree.entries@.len());
            assert(tree.plan().len() == queued);
            assert(works(tasks@).skip(0) =~= works(tasks@));
        }
        self.number_of_files = total;
        self.files_scanned = 0;
        self.tasks = tasks;
        self.next = 0;
        self.phase = Phase::Mining;
        self.emitted = Ghost(Seq::empty());
        let ghost begun = *self;
        self.notify_listeners(MinerEvent::Mining);
        let ghost told = *self;
        let action = self.advance();
        proof {
            if self.phase is Finished {
                assert(self.emitted@ =~= scan_events(0, total as nat, true));
            }
            self.lemma_goes_on_further(told, begun);
            assert(self.emitted().skip(0) =~= self.emitted());
            assert forall|i: int| 0 <= i < self.listeners() implies #[trigger] self.heard(i) by {
                assert(self.told(i) == old(self).told(i) + self.emitted());
                assert((old(self).told(i) + self.emitted()).skip(old(self).told(i).len() as int)
                    =~= self.emitted());
            }
        }
        action
    }

    /// Given a file, if it is music file, stores its information in database.
    /// `contents` are the bytes that the file holds, `None` where it could not
    /// be read. A file that is no music file, one that could not be read, and
    /// one in which the decoder finds no tag is passed over. The listeners
    /// are told nothing, and the scan at hand stays where it is.
    pub fn save_song(&mut self, path: &str, contents: Option<&[u8]>) -> (saved: Result<
        (),
        StorageError,
    >)
        ensures
            final(self).same_but_store(old(self)),
            final(self).emitted() == old(self).emitted(),
            forall|i: int| final(self).told(i) == old(self).told(i),
            final(self).listeners() == old(self).listeners(),
            final(self).wf() == old(self).wf(),
            final(self).scanning() == old(self).scanning(),
            final(self).spec_directory() == old(self).spec_directory(),
            final(self).number_of_files() == old(self).number_of_files(),
            final(self).files_scanned() == old(self).files_scanned(),
            final(self).remaining() == old(self).remaining(),
            final(self).is_mining() == old(self).is_mining(),
            final(self).is_finished() == old(self).is_finished(),
            final(self).store().continues(&old(self).store()),
            if is_music_file(path@) {
                song_kept(
                    old(self).store().is_connected(),
                    path@,
                    contents,
                    final(self).store().issued_since(&old(self).store()),
                    saved,
                )
            } else {
                saved is Ok && final(self).store().issued_since(&old(self).store()).len() == 0
            },
            saved matches Err(error) ==> error is NotAKey || from_store(error),
    {
        proof {
            self.database.lemma_nothing_issued();
        }
        if !has_music_extension(path) {
            return Ok(());
        }
        let saved = match contents {
            Some(bytes) => match MusicFile::from_path(path, bytes) {
                Ok(file) => {
                    let saved = self.database.save_song(&file);
                    assert(is_file_of(file, path@, bytes@));
                    saved
                },
                Err(_) => Ok(()),
            },
            None => Ok(()),
        };
        proof {
            lemma_done(saved);
        }
        saved
    }

    /// Goes on with the scan: given the bytes of the music file that the scan
    /// waits for, stores its information in database, tells the listeners how
    /// far the scan is, and saves the albums that the walk meets before its
    /// next music file. `None` stands for a file that could not be read. Such
    /// a file, and one whose bytes hold no tag, is passed over; it counts as
    /// scanned.
    ///
    /// The result is what the scan needs next: the bytes of the next music
    /// file, or nothing, where the scan is over and the listeners are told
    /// `Finished`. Where no scan is under way, nothing is done.
    pub fn proceed(&mut self, contents: Option<&[u8]>) -> (action: Result<
        MinerAction,
        StorageError,
    >)
        requires
            old(self).wf(),
        ensures
            final(self).wf(),
            old(self).scanning() ==> final(self).scanning(),
            final(self).spec_directory() == old(self).spec_directory(),
            final(self).number_of_files() == old(self).number_of_files(),
            final(self).goes_on(old(self)),
            final(self).store().continues(&old(self).store()),
            match old(self).awaited() {
                Some(path) => song_step(
                    old(self).store().is_connected(),
                    path,
                    contents,
                    leading_albums(old(self).remaining().skip(1)),
                    final(self).store().issued_since(&old(self).store()),
                    outcome_of(action),
                ),
                None => if old(self).is_mining() {
                    albums_step(
                        old(self).store().is_connected(),
                        leading_albums(old(self).remaining()),
                        final(self).store().issued_since(&old(self).store()),
                        outcome_of(action),
                    )
                } else {
                    final(self).store().issued_since(&old(self).store()).len() == 0
                },
            },
            !old(self).is_mining() ==> {
                &&& action matches Ok(MinerAction::Done)
                &&& final(self).is_finished() == old(self).is_finished()
                &&& !final(self).is_mining()
                &&& final(self).emitted() == old(self).emitted()
                &&& final(self).files_scanned() == old(self).files_scanned()
                &&& final(self).remaining() == old(self).remaining()
            },
            match action {
                Ok(action) => {
                    &&& final(self).files_scanned() == old(self).files_scanned() + (if old(
                        self,
                    ).awaited() is Some {
                        1nat
                    } else {
                        0nat
                    })
                    &&& old(self).is_mining() ==> final(self).remaining() == if old(
                        self,
                    ).awaited() is Some {
                        after_albums(old(self).remaining().skip(1))
                    } else {
                        after_albums(old(self).remaining())
                    }
                    &&& match action {
                        MinerAction::Read(path) => {
                            &&& final(self).awaited() == Some(path@)
                            &&& final(self).is_mining()
                            &&& !final(self).is_finished()
                        },
                        MinerAction::Done => !final(self).is_mining(),
                    }
                    &&& old(self).is_mining() ==> (action is Done <==> final(self).is_finished())
                },
                Err(error) => {
                    &&& error is NotAKey || from_store(error)
                    &&& old(self).is_mining()
                    &&& final(self).is_mining()
                    &&& !final(self).is_finished()
                    &&& old(self).files_scanned() <= final(self).files_scanned() <= old(
                        self,
                    ).files_scanned() + 1
                },
            },
    {
        let ghost start = self.database;
        let ghost connected = self.database.is_connected();
        proof {
            start.lemma_nothing_issued();
            self.lemma_goes_on_as_it_is(*old(self));
        }
        match self.phase {
            Phase::Mining => {},
            _ => {
                return Ok(MinerAction::Done);
            },
        }
        let queued = self.tasks.len();
        assert(self.next < queued);
        let ghost before = self.remaining();
        let ghost told = self.emitted@;
        assert(before.skip(1) =~= works(self.tasks@).skip(self.next + 1));
        assert(before[0] == works(self.tasks@)[self.next as int]);
        let awaited = match &self.tasks[self.next] {
            Task::Album(_) => None,
            Task::Song(path) => Some(path.clone()),
        };
        match awaited {
            None => {},
            Some(path) => {
                let kept = self.save_song(path.as_str(), contents);
                match kept {
                    Ok(()) => {},
                    Err(error) => {
                        proof {
                            self.lemma_goes_on_as_it_is(*old(self));
                        }
                        return Err(error);
                    },
                }
                proof {
                    lemma_done(kept);
                    lemma_songs_after_song(before);
                }
                self.files_scanned = self.files_scanned + 1;
                self.next = self.next + 1;
                let ghost counted = *self;
                proof {
                    self.lemma_goes_on_as_it_is(*old(self));
                }
                self.notify_listeners(
                    MinerEvent::Percentage(self.files_scanned, self.number_of_files),
                );
                proof {
                    self.lemma_goes_on_further(counted, *old(self));
                    let scanned = self.files_scanned as nat;
                    let total = self.number_of_files as nat;
                    if told == scan_events((scanned - 1) as nat, total, false) {
                        assert(percentages(scanned, total) =~= percentages(
                            (scanned - 1) as nat,
                            total,
                        ).push(MinerEvent::Percentage(scanned as u64, total as u64)));
                    }
                }
            },
        }
        let ghost progress = self.emitted@;
        let ghost middle = self.database;
        let ghost halfway = *self;
        let action = self.advance();
        proof {
            self.lemma_goes_on_further(halfway, *old(self));
            if self.phase is Finished && progress == scan_events(
                self.files_scanned as nat,
                self.number_of_files as nat,
                false,
            ) {
                assert(self.emitted@ =~= scan_events(
                    self.files_scanned as nat,
                    self.number_of_files as nat,
                    true,
                ));
            }
            lemma_continues(start, middle, self.database);
            let issued = self.database.issued_since(&start);
            let n = middle.issued_since(&start).len() as int;
            assert(issued.take(n) =~= middle.issued_since(&start));
            assert(issued.skip(n) =~= self.database.issued_since(&middle));
            if before[0] is Song {
                assert(song_kept(connected, before[0]->Song_0, contents, issued.take(n), Ok(())));
            } else {
                assert(n == 0);
                assert(issued.skip(0) =~= issued);
            }
        }
        action
    }
}

/// Whether `events` are those of one scan, in their order: `Mining` first and
/// never again, then nothing but `Percentage`, each of at least one and at
/// most all files of one same total and of more files than the one before
/// it, and `Finished`, if it is there at all, last.
pub open spec fn in_order(events: Seq<MinerEvent>) -> bool {
    &&& events.len() > 0
    &&& events[0] == MinerEvent::Mining
    &&& forall|i: int| 0 < i < events.len() ==> #[trigger] events[i] != MinerEvent::Mining
    &&& forall|i: int| 0 <= i < events.len() ==> #[trigger] events[i] != MinerEvent::Ready
    &&& forall|i: int| 0 <= i < events.len() - 1 ==> #[trigger] events[i] != MinerEvent::Finished
    &&& forall|i: int|
        0 <= i < events.len() ==> (#[trigger] events[i] matches MinerEvent::Percentage(
            scanned,
            total,
        ) ==> 0 < scanned <= total)
    &&& forall|i: int, j: int|
        0 <= i < j < events.len() ==> (#[trigger] events[i] matches MinerEvent::Percentage(
            earlier,
            total,
        ) ==> (#[trigger] events[j] matches MinerEvent::Percentage(later, of) ==> earlier < later
            && total == of))
}

/// The events of a scan are in order. Those of a scan that is over end with
/// `Finished`, and where there was a music file at all, the event before it
/// tells that all of them are scanned.
pub proof fn lemma_scan_events_in_order(scanned: nat, total: nat, finished: bool)
    requires
        scanned <= total <= u64::MAX,
        finished ==> scanned == total,
    ensures
        in_order(scan_events(scanned, total, finished)),
        scan_events(scanned, total, finished).len() == 1 + scanned + if finished {
            1nat
        } else {
            0nat
        },
        finished ==> scan_events(scanned, total, finished).last() == MinerEvent::Finished,
        finished && total > 0 ==> scan_events(scanned, total, finished)[scanned as int]
            == MinerEvent::Percentage(total as u64, total as u64),
{
    let events = scan_events(scanned, total, finished);
    assert(forall|i: int|
        1 <= i <= scanned ==> #[trigger] events[i] == MinerEvent::Percentage(
            i as u64,
            total as u64,
        ));
}

/// Albums that the store knows already are not inserted again: where the
/// store answers every request of a saving of albums with a row, it is handed
/// one lookup for each album, and nothing else.
pub proof fn lemma_known_albums_are_kept(paths: Seq<Seq<char>>, issued: Seq<Exchange>)
    requires
        albums_saved(true, paths, issued),
        forall|i: int| 0 <= i < issued.len() ==> answers_with_row(#[trigger] issued[i].answer),
    ensures
        issued.len() == paths.len(),
        forall|i: int|
            0 <= i < paths.len() ==> (#[trigger] issued[i]).request == album_lookup_request(
                paths[i],
            ),
    decreases paths.len(),
{
    if paths.len() > 0 {
        let n = choose|n: int|
            {
                &&& 0 <= n <= issued.len()
                &&& albums_saved(true, paths.drop_last(), #[trigger] issued.take(n))
                &&& album_attempt(true, paths.last(), issued.skip(n), Ok(()))
            };
        let earlier = issued.take(n);
        assert(issued.skip(n)[0] == issued[n]);
        lemma_known_albums_are_kept(paths.drop_last(), earlier);
        assert forall|i: int| 0 <= i < paths.len() implies (#[trigger] issued[i]).request
            == album_lookup_request(paths[i]) by {
            if i < n {
                assert(issued[i] == earlier[i]);
            }
        }
    }
}

/// A step of a scan over what the store knows already inserts nothing: where
/// the store answers every request of a step that succeeds with a row, it is
/// handed at most one lookup for the song and one lookup for each album, and
/// nothing else.
pub proof fn lemma_known_step_is_kept(
    path: Seq<char>,
    contents: Option<&[u8]>,
    paths: Seq<Seq<char>>,
    issued: Seq<Exchange>,
)
    requires
        song_step(true, path, contents, paths, issued, Ok(())),
        forall|i: int| 0 <= i < issued.len() ==> answers_with_row(#[trigger] issued[i].answer),
    ensures
        paths.len() <= issued.len() <= paths.len() + 1,
        forall|i: int|
            0 <= i < paths.len() ==> (#[trigger] issued[issued.len() - paths.len() + i]).request
                == album_lookup_request(paths[i]),
{
    let n = choose|n: int|
        {
            &&& 0 <= n <= issued.len()
            &&& #[trigger] song_kept(true, path, contents, issued.take(n), Ok(()))
            &&& albums_step(true, paths, issued.skip(n), Ok(()))
        };
    let song = issued.take(n);
    let albums = issued.skip(n);
    if song.len() > 0 {
        let file = choose|file: MusicFile|
            #[trigger] is_file_of(file, path, contents->0@) && song_attempt(
                true,
                file,
                song,
                Ok(()),
            );
        lemma_known_song_is_kept(file, song, Ok(()));
    }
    assert(forall|i: int|
        0 <= i < albums.len() ==> answers_with_row(#[trigger] albums[i].answer));
    lemma_known_albums_are_kept(paths, albums);
    assert forall|i: int| 0 <= i < paths.len() implies (#[trigger] issued[issued.len()
        - paths.len() + i]).request == album_lookup_request(paths[i]) by {
        assert(issued[n + i] == albums[i]);
    }
}

/// The song of a file in which the decoder finds a tag is handed to the
/// store: the first request of its step asks for a song with the title that
/// the decoder finds, or with the title `Unknown` where it finds none.
pub proof fn lemma_decoded_song_is_looked_up(
    path: Seq<char>,
    contents: &[u8],
    paths: Seq<Seq<char>>,
    issued: Seq<Exchange>,
    outcome: Result<(), StorageError>,
)
    requires
        song_step(true, path, Some(contents), paths, issued, outcome),
        decodes(contents@),
    ensures
        issued.len() >= 1,
        issued[0].request == key_lookup_request(
            column_of(Table::Rolas, Column::Title),
            text_or(decoded_title(contents@), unknown()),
        ),
{
    if outcome is Err && song_kept(true, path, Some(contents), issued, outcome) {
        let file = choose|file: MusicFile|
            #[trigger] is_file_of(file, path, contents@) && song_attempt(
                true,
                file,
                issued,
                outcome,
            );
        assert(issued[0].request == song_lookup_request(file));
    } else {
        let n = choose|n: int|
            {
                &&& 0 <= n <= issued.len()
                &&& #[trigger] song_kept(true, path, Some(contents), issued.take(n), Ok(()))
                &&& albums_step(true, paths, issued.skip(n), outcome)
            };
        let song = issued.take(n);
        let file = choose|file: MusicFile|
            #[trigger] is_file_of(file, path, contents@) && song_attempt(
                true,
                file,
                song,
                Ok(()),
            );
        assert(song[0].request == song_lookup_request(file));
        assert(song[0] == issued[0]);
    }
}

/// A file that could not be read, or in which the decoder finds no tag, is
/// passed over: whatever its step hands to the store is for the albums that
/// follow it, and the step fails only where the saving of an album does.
pub proof fn lemma_undecoded_song_is_passed_over(
    connected: bool,
    path: Seq<char>,
    contents: Option<&[u8]>,
    paths: Seq<Seq<char>>,
    issued: Seq<Exchange>,
    outcome: Result<(), StorageError>,
)
    requires
        song_step(connected, path, contents, paths, issued, outcome),
        contents is None || !decodes(contents->0@),
    ensures
        albums_step(connected, paths, issued, outcome),
{
    let n = choose|n: int|
        {
            &&& 0 <= n <= issued.len()
            &&& #[trigger] song_kept(connected, path, contents, issued.take(n), Ok(()))
            &&& albums_step(connected, paths, issued.skip(n), outcome)
        };
    assert(n == 0);
    assert(issued.skip(n) =~= issued);
}

/// The songs of a piece of work are those of what is left of it once the
/// albums that it begins with are saved.
pub proof fn lemma_songs_after_albums(work: Seq<Work>)
    ensures
        songs_of(after_albums(work)) == songs_of(work),
    decreases work.len(),
{
    if work.len() > 0 && work[0] is Album {
        lemma_songs_after_album(work);
        lemma_songs_after_albums(work.skip(1));
    }
}

/// Where a piece of work begins with a song, that song is the first of its
/// songs, and the others are the songs of the rest.
pub proof fn lemma_first_song(work: Seq<Work>)
    requires
        work.len() > 0,
        work[0] is Song,
    ensures
        songs_of(work) == seq![work[0]->Song_0] + songs_of(work.skip(1)),
{
    lemma_songs_and_albums_of_one(work[0]);
    lemma_songs_of_concat(seq![work[0]], work.skip(1));
    assert(seq![work[0]] + work.skip(1) =~= work);
}

impl Miner {
    /// What the listeners of a miner were told, from the first scan on, are
    /// the events of the scan at hand, in order: `Mining` once, then one
    /// `Percentage` for each music file that is scanned, of never more than
    /// all files and each of more files than the one before it, and
    /// `Finished` once, last, where the scan is over. A scan that is over has
    /// scanned all its files: where it had any, its last `Percentage` tells
    /// of all of them.
    pub proof fn lemma_events_in_order(self)
        requires
            self.wf(),
            self.scanning(),
            self.is_mining() || self.is_finished(),
        ensures
            self.emitted() == scan_events(
                self.files_scanned(),
                self.number_of_files(),
                self.is_finished(),
            ),
            in_order(self.emitted()),
            self.files_scanned() <= self.number_of_files(),
            self.is_finished() ==> {
                &&& self.files_scanned() == self.number_of_files()
                &&& self.emitted().last() == MinerEvent::Finished
                &&& self.number_of_files() > 0 ==> self.emitted()[self.number_of_files() as int]
                    == MinerEvent::Percentage(
                    self.number_of_files() as u64,
                    self.number_of_files() as u64,
                )
            },
    {
        lemma_scan_events_in_order(
            self.files_scanned as nat,
            self.number_of_files as nat,
            self.phase is Finished,
        );
    }

    /// A listener that was told of the whole scan at hand was told its events
    /// in order: what it was told ends with `Mining` once, then one
    /// `Percentage` for each music file that is scanned, each of more files
    /// than the one before it and none of more than all, and `Finished` once,
    /// last, where the scan is over. Every listener that was there when the
    /// scan began is such a listener.
    pub proof fn lemma_listener_hears_in_order(self, listener: int)
        requires
            self.wf(),
            self.scanning(),
            self.is_mining() || self.is_finished(),
            self.heard(listener),
        ensures
            self.told(listener).len() >= self.emitted().len(),
            self.told(listener).skip(self.told(listener).len() - self.emitted().len())
                == scan_events(self.files_scanned(), self.number_of_files(), self.is_finished()),
            in_order(
                self.told(listener).skip(self.told(listener).len() - self.emitted().len()),
            ),
    {
        self.lemma_events_in_order();
    }

    /// The music files that a scan has before it are those for which it will
    /// ask, in this order: the one that it waits for is the first of them.
    pub proof fn lemma_awaited_is_next(self)
        requires
            self.wf(),
            self.awaited() is Some,
        ensures
            songs_of(self.remaining()).len() > 0,
            songs_of(self.remaining())[0] == self.awaited()->0,
            self.files_scanned() < self.number_of_files(),
    {
        lemma_first_song(self.remaining());
    }
}

} // verus!
