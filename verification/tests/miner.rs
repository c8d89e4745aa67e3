use id3::TagLike;
use music_player_rs::music_manager::directory::Directory;
use music_player_rs::music_manager::directory::Entry;
use music_player_rs::music_manager::directory::Task;
use music_player_rs::music_manager::file_manager::FileManager;
use music_player_rs::music_manager::miner::get_default_music_folder_path;
use music_player_rs::music_manager::miner::music_folder_in;
use music_player_rs::music_manager::miner::HomeNotFound;
use music_player_rs::music_manager::miner::Miner;
use music_player_rs::music_manager::miner::MinerAction;
use music_player_rs::music_manager::miner::MinerEvent;
use music_player_rs::music_manager::music_database::MusicDatabase;
use music_player_rs::music_manager::store::StorageError;
use music_player_rs::music_manager::query_manager::select;
use music_player_rs::music_manager::query_manager::Column;
use music_player_rs::music_manager::query_manager::Conditional;
use music_player_rs::music_manager::query_manager::Table;
use music_player_rs::music_manager::query_manager::TableColumn;

const CATALOG: &str = "
    CREATE TABLE performers (id_performer INTEGER PRIMARY KEY, id_type INTEGER, name TEXT);
    CREATE TABLE albums (id_album INTEGER PRIMARY KEY, path TEXT, name TEXT, year INTEGER);
    CREATE TABLE rolas (id_rola INTEGER PRIMARY KEY, id_performer INTEGER, id_album INTEGER,
        path TEXT, title TEXT, track INTEGER, year INTEGER, genre TEXT);
";

fn connected() -> MusicDatabase {
    let mut database = MusicDatabase::new();
    database.with_database(":memory:");
    database.connect(CATALOG).unwrap();
    database
}

fn song_bytes(title: &str, artist: &str) -> Vec<u8> {
    let mut tag = id3::Tag::new();
    tag.set_title(title);
    tag.set_artist(artist);
    let mut bytes = Vec::new();
    tag.write_to(&mut bytes, id3::Version::Id3v24).unwrap();
    bytes
}

fn file(path: &str) -> Entry {
    Entry::File(path.to_string())
}

fn folder(path: &str, entries: Vec<Entry>) -> Directory {
    Directory { path: path.to_string(), entries }
}

fn scenario() -> Directory {
    folder(
        "root",
        vec![Entry::Directory(folder(
            "root/AlbumA",
            vec![file("root/AlbumA/song1.mp3"), file("root/AlbumA/notes.txt")],
        ))],
    )
}

fn wide() -> Directory {
    folder(
        "root",
        vec![
            file("root/a.mp3"),
            Entry::Directory(folder(
                "root/B",
                vec![
                    file("root/B/b1.mp3"),
                    Entry::Directory(folder("root/B/C", vec![file("root/B/C/c.mp3")])),
                    file("root/B/cover.jpg"),
                    file("root/B/b2.mp3"),
                ],
            )),
            Entry::Directory(folder("root/D", Vec::new())),
            file("root/readme"),
            file("root/z.mp3"),
        ],
    )
}

fn run(miner: &mut Miner, tree: &Directory, files: &[(&str, Vec<u8>)]) -> Vec<String> {
    let mut asked = Vec::new();
    let mut action = miner.mine(tree).unwrap();
    loop {
        match action {
            MinerAction::Read(path) => {
                let contents = files.iter().find(|(name, _)| *name == path).map(|(_, bytes)| &bytes[..]);
                asked.push(path);
                action = miner.proceed(contents).unwrap();
            }
            MinerAction::Done => return asked,
        }
    }
}

fn rows_in(database: &mut MusicDatabase, table: Table) -> usize {
    database.query(&select(&[TableColumn::new(table, Column::Id)], &[])).unwrap().len()
}

fn rows_with(database: &mut MusicDatabase, column: TableColumn, value: &str) -> usize {
    database
        .query(&select(
            &[TableColumn::new(column.table, Column::Id)],
            &[Conditional::EqVal(column, value.to_string())],
        ))
        .unwrap()
        .len()
}

#[test]
fn a_scan_tells_mining_percentages_and_finished() {
    let mut miner = Miner::from_dir("root", connected());
    let listener = miner.get_listener();
    run(&mut miner, &wide(), &[]);
    let events: Vec<MinerEvent> = listener.try_iter().collect();
    assert_eq!(
        events,
        vec![
            MinerEvent::Mining,
            MinerEvent::Percentage(1, 5),
            MinerEvent::Percentage(2, 5),
            MinerEvent::Percentage(3, 5),
            MinerEvent::Percentage(4, 5),
            MinerEvent::Percentage(5, 5),
            MinerEvent::Finished,
        ]
    );
}

#[test]
fn every_listener_is_told_every_event() {
    let mut miner = Miner::from_dir("root", connected());
    let first = miner.get_listener();
    let second = miner.get_listener();
    run(&mut miner, &scenario(), &[]);
    let expected = vec![MinerEvent::Mining, MinerEvent::Percentage(1, 1), MinerEvent::Finished];
    assert_eq!(first.try_iter().collect::<Vec<_>>(), expected);
    assert_eq!(second.try_iter().collect::<Vec<_>>(), expected);
}

#[test]
fn the_last_percentage_tells_of_all_files() {
    let mut miner = Miner::from_dir("root", connected());
    let listener = miner.get_listener();
    run(&mut miner, &wide(), &[]);
    let events: Vec<MinerEvent> = listener.try_iter().collect();
    let last = events.iter().rev().find(|event| matches!(event, MinerEvent::Percentage(_, _)));
    match last {
        Some(MinerEvent::Percentage(scanned, total)) => {
            assert_eq!(*scanned as f64 / *total as f64, 1.0);
        }
        _ => panic!("a scan of music files tells percentages"),
    }
}

#[test]
fn an_empty_tree_is_mined_at_once() {
    let mut miner = Miner::from_dir("root", connected());
    let listener = miner.get_listener();
    let action = miner.mine(&folder("root", Vec::new())).unwrap();
    assert!(matches!(action, MinerAction::Done));
    assert_eq!(
        listener.try_iter().collect::<Vec<_>>(),
        vec![MinerEvent::Mining, MinerEvent::Finished]
    );
}

#[test]
fn a_tree_without_music_saves_its_albums() {
    let tree = folder(
        "root",
        vec![
            Entry::Directory(folder("root/A", vec![file("root/A/notes.txt")])),
            Entry::Directory(folder("root/B", Vec::new())),
        ],
    );
    let mut miner = Miner::from_dir("root", connected());
    let listener = miner.get_listener();
    assert!(matches!(miner.mine(&tree), Ok(MinerAction::Done)));
    assert_eq!(
        listener.try_iter().collect::<Vec<_>>(),
        vec![MinerEvent::Mining, MinerEvent::Finished]
    );
    assert_eq!(rows_in(miner.database_mut(), Table::Albums), 2);
    assert_eq!(rows_in(miner.database_mut(), Table::Rolas), 0);
}

#[test]
fn the_music_files_are_asked_for_in_the_order_of_the_walk() {
    let mut miner = Miner::from_dir("root", connected());
    let asked = run(&mut miner, &wide(), &[]);
    assert_eq!(
        asked,
        vec!["root/a.mp3", "root/B/b1.mp3", "root/B/C/c.mp3", "root/B/b2.mp3", "root/z.mp3"]
    );
}

#[test]
fn the_end_to_end_scenario() {
    let mut miner = Miner::from_dir("root", connected());
    let listener = miner.get_listener();
    let files = [("root/AlbumA/song1.mp3", song_bytes("S1", "X"))];
    let asked = run(&mut miner, &scenario(), &files);
    assert_eq!(asked, vec!["root/AlbumA/song1.mp3"]);
    let database = miner.database_mut();
    assert_eq!(rows_with(database, TableColumn::new(Table::Albums, Column::Path), "root/AlbumA"), 1);
    assert_eq!(rows_with(database, TableColumn::new(Table::Rolas, Column::Title), "S1"), 1);
    assert_eq!(rows_with(database, TableColumn::new(Table::Performers, Column::Name), "X"), 1);
    assert_eq!(rows_in(database, Table::Rolas), 1);
    let songs = database.songs().unwrap();
    assert_eq!(songs.len(), 1);
    assert_eq!(songs[0].title, "S1");
    assert_eq!(songs[0].performer, "X");
    assert_eq!(
        listener.try_iter().collect::<Vec<_>>(),
        vec![MinerEvent::Mining, MinerEvent::Percentage(1, 1), MinerEvent::Finished]
    );
}

#[test]
fn a_second_scan_adds_nothing() {
    let mut miner = Miner::from_dir("root", connected());
    let files = [
        ("root/a.mp3", song_bytes("A", "X")),
        ("root/B/b1.mp3", song_bytes("B1", "Y")),
        ("root/B/C/c.mp3", song_bytes("C", "X")),
        ("root/B/b2.mp3", song_bytes("B2", "Y")),
        ("root/z.mp3", song_bytes("Z", "Z")),
    ];
    run(&mut miner, &wide(), &files);
    let albums = rows_in(miner.database_mut(), Table::Albums);
    let performers = rows_in(miner.database_mut(), Table::Performers);
    let songs = rows_in(miner.database_mut(), Table::Rolas);
    assert_eq!(songs, 5);
    assert_eq!(performers, 3);
    let listener = miner.get_listener();
    run(&mut miner, &wide(), &files);
    assert_eq!(rows_in(miner.database_mut(), Table::Albums), albums);
    assert_eq!(rows_in(miner.database_mut(), Table::Performers), performers);
    assert_eq!(rows_in(miner.database_mut(), Table::Rolas), songs);
    assert_eq!(rows_with(miner.database_mut(), TableColumn::new(Table::Albums, Column::Path), "root/B"), 1);
    assert_eq!(rows_with(miner.database_mut(), TableColumn::new(Table::Rolas, Column::Title), "C"), 1);
    let events: Vec<MinerEvent> = listener.try_iter().collect();
    assert_eq!(events.len(), 7);
    assert_eq!(events[1], MinerEvent::Percentage(1, 5));
    assert_eq!(events[5], MinerEvent::Percentage(5, 5));
}

#[test]
fn a_file_that_cannot_be_read_is_passed_over() {
    let mut miner = Miner::from_dir("root", connected());
    let listener = miner.get_listener();
    let files = [
        ("root/a.mp3", b"no tag in here".to_vec()),
        ("root/z.mp3", song_bytes("Z", "X")),
    ];
    run(&mut miner, &wide(), &files);
    assert_eq!(rows_in(miner.database_mut(), Table::Rolas), 1);
    assert_eq!(listener.try_iter().count(), 7);
}

#[test]
fn a_listener_that_is_gone_does_not_stop_the_scan() {
    let mut miner = Miner::from_dir("root", connected());
    let gone = miner.get_listener();
    let listener = miner.get_listener();
    drop(gone);
    let files = [("root/AlbumA/song1.mp3", song_bytes("S1", "X"))];
    run(&mut miner, &scenario(), &files);
    assert_eq!(rows_in(miner.database_mut(), Table::Rolas), 1);
    assert_eq!(listener.try_iter().count(), 3);
}

#[test]
fn a_scan_without_listeners_saves_all_the_same() {
    let mut miner = Miner::from_dir("root", connected());
    let files = [("root/AlbumA/song1.mp3", song_bytes("S1", "X"))];
    run(&mut miner, &scenario(), &files);
    assert_eq!(rows_in(miner.database_mut(), Table::Rolas), 1);
    assert_eq!(rows_in(miner.database_mut(), Table::Albums), 2);
}

#[test]
fn a_scan_without_connection_fails_at_the_first_album() {
    let mut miner = Miner::from_dir("root", MusicDatabase::new());
    let listener = miner.get_listener();
    assert!(matches!(miner.mine(&scenario()), Err(StorageError::NotConnected)));
    assert_eq!(listener.try_iter().collect::<Vec<_>>(), vec![MinerEvent::Mining]);
}

#[test]
fn proceed_without_a_scan_does_nothing() {
    let mut miner = Miner::from_dir("root", connected());
    let listener = miner.get_listener();
    assert!(matches!(miner.proceed(None), Ok(MinerAction::Done)));
    assert!(matches!(miner.proceed(Some(&song_bytes("S", "X"))), Ok(MinerAction::Done)));
    assert_eq!(listener.try_iter().count(), 0);
    assert_eq!(rows_in(miner.database_mut(), Table::Rolas), 0);
    run(&mut miner, &scenario(), &[]);
    assert!(matches!(miner.proceed(None), Ok(MinerAction::Done)));
    assert_eq!(listener.try_iter().count(), 3);
}

#[test]
fn notify_listeners_hands_the_event_on() {
    let mut miner = Miner::from_dir("root", connected());
    let listener = miner.get_listener();
    miner.notify_listeners(MinerEvent::Ready);
    miner.notify_listeners(MinerEvent::Percentage(1, 4));
    assert_eq!(
        listener.try_iter().collect::<Vec<_>>(),
        vec![MinerEvent::Ready, MinerEvent::Percentage(1, 4)]
    );
}

#[test]
fn count_files_counts_music_files_at_any_depth() {
    let miner = Miner::from_dir("root", MusicDatabase::new());
    assert_eq!(miner.count_files(&wide()), 5);
    assert_eq!(miner.count_files(&scenario()), 1);
    assert_eq!(miner.count_files(&folder("root", Vec::new())), 0);
    assert_eq!(wide().count_files(), 5);
    assert_eq!(miner.directory(), "root");
}

#[test]
fn plan_gives_the_tasks_of_the_walk() {
    let miner = Miner::from_dir("root", MusicDatabase::new());
    let tasks = miner.plan(&wide());
    let told: Vec<String> = tasks
        .iter()
        .map(|task| match task {
            Task::Album(path) => format!("album {}", path),
            Task::Song(path) => format!("song {}", path),
        })
        .collect();
    assert_eq!(
        told,
        vec![
            "song root/a.mp3",
            "album root/B",
            "song root/B/b1.mp3",
            "album root/B/C",
            "song root/B/C/c.mp3",
            "song root/B/b2.mp3",
            "album root/D",
            "song root/z.mp3",
        ]
    );
}

#[test]
fn the_file_manager_collects_songs_and_albums() {
    let mut manager = FileManager::from_dir("root");
    assert_eq!(manager.directory(), "root");
    assert!(manager.songs().is_empty());
    manager.search_songs(&wide());
    assert_eq!(
        manager.songs(),
        &vec!["root/a.mp3", "root/B/b1.mp3", "root/B/C/c.mp3", "root/B/b2.mp3", "root/z.mp3"]
    );
    assert_eq!(manager.albums(), &vec!["root/B", "root/B/C", "root/D"]);
    manager.search_songs_from_dir(&scenario());
    assert_eq!(manager.songs().len(), 6);
    assert_eq!(manager.albums().len(), 4);
    assert_eq!(manager.songs()[5], "root/AlbumA/song1.mp3");
}

#[test]
fn the_music_folder_is_in_the_home_directory() {
    assert_eq!(music_folder_in(Some("/home/user".to_string())), Ok("/home/user/Music".to_string()));
    assert_eq!(music_folder_in(Some("/home/user/".to_string())), Ok("/home/user/Music".to_string()));
    assert_eq!(music_folder_in(None), Err(HomeNotFound));
}

#[test]
fn the_default_folder_is_called_music() {
    if let Ok(folder) = get_default_music_folder_path() {
        assert!(folder == "Music" || folder.ends_with("/Music"));
    }
    if let Ok(miner) = Miner::new(MusicDatabase::new()) {
        assert!(miner.directory() == "Music" || miner.directory().ends_with("/Music"));
        assert_eq!(Ok(miner.directory().clone()), get_default_music_folder_path());
    }
    if let Ok(manager) = FileManager::new() {
        assert!(manager.directory() == "Music" || manager.directory().ends_with("/Music"));
        assert!(manager.songs().is_empty());
        assert!(manager.albums().is_empty());
    }
}

#[test]
fn save_song_stores_a_music_file_and_tells_nothing() {
    let mut miner = Miner::from_dir("root", connected());
    let listener = miner.get_listener();
    let bytes = song_bytes("S1", "X");
    miner.save_song("root/AlbumA/song1.mp3", Some(&bytes)).unwrap();
    let database = miner.database_mut();
    let title = TableColumn::new(Table::Rolas, Column::Title);
    let path = TableColumn::new(Table::Rolas, Column::Path);
    let name = TableColumn::new(Table::Performers, Column::Name);
    assert_eq!(rows_with(database, title, "S1"), 1);
    assert_eq!(rows_with(database, path, "root/AlbumA/song1.mp3"), 1);
    assert_eq!(rows_with(database, name, "X"), 1);
    miner.save_song("root/AlbumA/song1.mp3", Some(&bytes)).unwrap();
    assert_eq!(rows_in(miner.database_mut(), Table::Rolas), 1);
    assert_eq!(listener.try_iter().count(), 0);
}

#[test]
fn save_song_passes_over_what_is_no_tagged_music_file() {
    let mut miner = Miner::from_dir("root", connected());
    let bytes = song_bytes("S1", "X");
    miner.save_song("root/AlbumA/notes.txt", Some(&bytes)).unwrap();
    miner.save_song("root/AlbumA/song.MP3", Some(&bytes)).unwrap();
    miner.save_song("root/AlbumA/song1.mp3", None).unwrap();
    miner.save_song("root/AlbumA/song2.mp3", Some(b"no tag")).unwrap();
    assert_eq!(rows_in(miner.database_mut(), Table::Rolas), 0);
    assert_eq!(rows_in(miner.database_mut(), Table::Performers), 0);
    let mut unconnected = Miner::from_dir("root", MusicDatabase::new());
    assert!(matches!(
        unconnected.save_song("a.mp3", Some(&bytes)),
        Err(StorageError::NotConnected)
    ));
    assert!(unconnected.save_song("a.txt", Some(&bytes)).is_ok());
}

#[test]
fn save_song_leaves_a_scan_where_it_is() {
    let mut miner = Miner::from_dir("root", connected());
    let listener = miner.get_listener();
    let action = miner.mine(&scenario()).unwrap();
    assert!(matches!(action, MinerAction::Read(_)));
    miner.save_song("elsewhere/other.mp3", Some(&song_bytes("Other", "Y"))).unwrap();
    assert_eq!(listener.try_iter().collect::<Vec<_>>(), vec![MinerEvent::Mining]);
    let action = miner.proceed(Some(&song_bytes("S1", "X"))).unwrap();
    assert!(matches!(action, MinerAction::Done));
    assert_eq!(
        listener.try_iter().collect::<Vec<_>>(),
        vec![MinerEvent::Percentage(1, 1), MinerEvent::Finished]
    );
    assert_eq!(rows_in(miner.database_mut(), Table::Rolas), 2);
}

#[test]
fn a_late_listener_is_told_what_follows() {
    let mut miner = Miner::from_dir("root", connected());
    let early = miner.get_listener();
    miner.mine(&wide()).unwrap();
    miner.proceed(None).unwrap();
    let late = miner.get_listener();
    let mut action = miner.proceed(None).unwrap();
    while let MinerAction::Read(_) = action {
        action = miner.proceed(None).unwrap();
    }
    assert_eq!(early.try_iter().count(), 7);
    assert_eq!(
        late.try_iter().collect::<Vec<_>>(),
        vec![
            MinerEvent::Percentage(2, 5),
            MinerEvent::Percentage(3, 5),
            MinerEvent::Percentage(4, 5),
            MinerEvent::Percentage(5, 5),
            MinerEvent::Finished,
        ]
    );
}
