use vstd::prelude::*;
use vstd::string::*;
use super::directory::albums_of;
use super::directory::songs_of;
use super::directory::works;
use super::directory::Directory;
use super::directory::Task;
use super::directory::Work;
use super::miner::get_default_music_folder_path;
use super::miner::is_music_folder;
use super::miner::HomeNotFound;

verus! {

/// A file manager collects the music files and the albums of a directory.
#[derive(Clone, Debug)]
pub struct FileManager {
    directory: String,
    music_files: Vec<String>,
    albums: Vec<String>,
}

impl FileManager {
    /// The directory that the manager stands for.
    pub closed spec fn spec_directory(&self) -> Seq<char> {
        self.directory@
    }

    /// The paths of the music files that were found, in the order in which
    /// they were found.
    pub closed spec fn spec_songs(&self) -> Seq<Seq<char>> {
        self.music_files.deep_view()
    }

    /// The paths of the albums that were found, in the order in which they
    /// were found.
    pub closed spec fn spec_albums(&self) -> Seq<Seq<char>> {
        self.albums.deep_view()
    }

    /// Creates a file manager for the default music folder. It fails where
    /// the environment tells of no home directory, and only there.
    pub fn new() -> (manager: Result<FileManager, HomeNotFound>)
        ensures
            manager matches Ok(manager) ==> {
                &&& is_music_folder(manager.spec_directory())
                &&& manager.spec_songs().len() == 0
                &&& manager.spec_albums().len() == 0
            },
    {
        match get_default_music_folder_path() {
            Ok(folder) => Ok(FileManager::from_dir(folder.as_str())),
            Err(error) => Err(error),
        }
    }

    /// Creates a file manager for `directory`.
    pub fn from_dir(directory: &str) -> (manager: FileManager)
        ensures
            manager.spec_directory() == directory@,
            manager.spec_songs().len() == 0,
            manager.spec_albums().len() == 0,
    {
        FileManager {
            directory: String::from_str(directory),
            music_files: Vec::new(),
            albums: Vec::new(),
        }
    }

    /// The paths of the music files that were found.
    pub fn songs(&self) -> (songs: &Vec<String>)
        ensures
            songs.deep_view() == self.spec_songs(),
    {
        &self.music_files
    }

    /// The paths of the albums that were found.
    pub fn albums(&self) -> (albums: &Vec<String>)
        ensures
            albums.deep_view() == self.spec_albums(),
    {
        &self.albums
    }

    /// The directory that the manager stands for.
    pub fn directory(&self) -> (directory: &String)
        ensures
            directory@ == self.spec_directory(),
    {
        &self.directory
    }

    /// Collects the music files and the albums of `tree`, the listing of the
    /// manager's directory, after those that were found before.
    pub fn search_songs(&mut self, tree: &Directory)
        ensures
            final(self).spec_directory() == old(self).spec_directory(),
            final(self).spec_songs() == old(self).spec_songs() + tree.music_files(),
            final(self).spec_albums() == old(self).spec_albums() + tree.albums(),
    {
        self.search_songs_from_dir(tree)
    }

    /// Collects the music files and the albums below `directory`, in the
    /// order of the walk, after those that were found before.
    pub fn search_songs_from_dir(&mut self, directory: &Directory)
        ensures
            final(self).spec_directory() == old(self).spec_directory(),
            final(self).spec_songs() == old(self).spec_songs() + directory.music_files(),
            final(self).spec_albums() == old(self).spec_albums() + directory.albums(),
    {
        let tasks = directory.tasks();
        let ghost plan = works(tasks@);
        let mut i: usize = 0;
        while i < tasks.len()
            invariant
                i <= tasks.len(),
                plan == works(tasks@),
                self.directory == old(self).directory,
                self.spec_songs() == old(self).spec_songs() + songs_of(plan.take(i as int)),
                self.spec_albums() == old(self).spec_albums() + albums_of(plan.take(i as int)),
            decreases tasks.len() - i,
        {
            proof {
                assert(plan.take(i + 1).drop_last() =~= plan.take(i as int));
            }
            let ghost albums = self.spec_albums();
            match &tasks[i] {
                Task::Song(path) => {
                    self.save_file(path.as_str());
                    assert(self.spec_songs() =~= old(self).spec_songs() + songs_of(
                        plan.take(i + 1),
                    ));
                },
                Task::Album(path) => {
                    self.albums.push(path.clone());
                    assert(self.spec_albums() =~= albums.push(path@));
                    assert(self.spec_albums() =~= old(self).spec_albums() + albums_of(
                        plan.take(i + 1),
                    ));
                },
            }
            i += 1;
        }
        assert(plan.take(tasks.len() as int) =~= plan);
    }

    /// Keeps the path of a music file.
    fn save_file(&mut self, path: &str)
        ensures
            final(self).directory == old(self).directory,
            final(self).albums == old(self).albums,
            final(self).spec_songs() == old(self).spec_songs().push(path@),
    {
        self.music_files.push(String::from_str(path));
    }
}

} // verus!
