use music_player_rs::music_manager::music_database::MusicDatabase;
use music_player_rs::music_manager::store::StorageError;
use music_player_rs::music_manager::music_file::MusicFile;
use music_player_rs::music_manager::query_manager::Value;
use music_player_rs::music_manager::search_manager::target_of_word;
use music_player_rs::music_manager::search_manager::SearchManager;
use music_player_rs::music_manager::search_manager::SearchRule;
use music_player_rs::music_manager::search_manager::SearchTarget;

const TABLES: &str = "
    CREATE TABLE performers (id_performer INTEGER PRIMARY KEY, id_type INTEGER, name TEXT);
    CREATE TABLE albums (id_album INTEGER PRIMARY KEY, path TEXT, name TEXT, year INTEGER);
    CREATE TABLE rolas (id_rola INTEGER PRIMARY KEY, id_performer INTEGER, id_album INTEGER,
        path TEXT, title TEXT, track INTEGER, year INTEGER, genre TEXT);
";

fn song(title: &str, artist: &str, album: &str, genre: &str) -> MusicFile {
    MusicFile::new(
        format!("root/{}/{}.mp3", album, title),
        Some(artist.to_string()),
        Some(title.to_string()),
        Some(album.to_string()),
        None,
        Some(genre.to_string()),
        None,
    )
}

fn library() -> MusicDatabase {
    let mut database = MusicDatabase::new();
    database.with_database(":memory:");
    database.connect(TABLES).unwrap();
    database.save_song(&song("Paranoid Android", "Radiohead", "OK Computer", "Rock")).unwrap();
    database.save_song(&song("Creep", "Radiohead", "Pablo Honey", "Grunge")).unwrap();
    database.save_song(&song("Android Dreams", "Vangelis", "Blade", "Electronic")).unwrap();
    database
}

fn pattern_of_statement(rule: &SearchRule) -> String {
    match &rule.statement().unwrap().parameters[0] {
        Value::Text(pattern) => pattern.clone(),
        _ => panic!("a search binds text"),
    }
}

#[test]
fn words_choose_targets() {
    assert_eq!(target_of_word("T:"), Some(SearchTarget::Title));
    assert_eq!(target_of_word("P:"), Some(SearchTarget::Performer));
    assert_eq!(target_of_word("A:"), Some(SearchTarget::Album));
    assert_eq!(target_of_word("G:"), Some(SearchTarget::Genre));
    assert_eq!(target_of_word("t:"), None);
    assert_eq!(target_of_word("T"), None);
    assert_eq!(target_of_word("T:x"), None);
    assert_eq!(target_of_word(""), None);
}

#[test]
fn parse_joins_the_other_words_with_one_space() {
    let rule = SearchRule::parse("  T:   Paranoid \t Android ");
    assert_eq!(rule.target, Some(SearchTarget::Title));
    assert_eq!(rule.value, "Paranoid Android");
}

#[test]
fn parse_lets_the_last_target_win() {
    let rule = SearchRule::parse("T: Ok P: Computer G:");
    assert_eq!(rule.target, Some(SearchTarget::Genre));
    assert_eq!(rule.value, "Ok Computer");
    let rule = SearchRule::parse("Radio P: head");
    assert_eq!(rule.target, Some(SearchTarget::Performer));
    assert_eq!(rule.value, "Radio head");
}

#[test]
fn parse_without_a_target_searches_nothing() {
    let rule = SearchRule::parse("Paranoid Android");
    assert_eq!(rule.target, None);
    assert_eq!(rule.value, "Paranoid Android");
    assert!(rule.statement().is_none());
    let rule = SearchRule::parse("");
    assert_eq!(rule.target, None);
    assert_eq!(rule.value, "");
    assert!(rule.statement().is_none());
}

#[test]
fn a_title_search_looks_at_titles() {
    let rule = SearchRule::parse("T: Paranoid");
    let statement = rule.statement().unwrap();
    assert_eq!(statement.sql, "SELECT rolas.title FROM rolas WHERE rolas.title LIKE ?");
    assert_eq!(statement.parameters.len(), 1);
    assert_eq!(pattern_of_statement(&rule), "%Paranoid%");
}

#[test]
fn a_performer_search_joins_the_performers() {
    let rule = SearchRule::parse("P: Radio head");
    assert_eq!(
        rule.statement().unwrap().sql,
        "SELECT rolas.title FROM rolas, performers \
         WHERE rolas.id_performer = performers.id_performer AND performers.name LIKE ?"
    );
    assert_eq!(pattern_of_statement(&rule), "%Radio head%");
}

#[test]
fn an_album_search_joins_the_albums() {
    let rule = SearchRule::parse("A: Computer");
    assert_eq!(
        rule.statement().unwrap().sql,
        "SELECT rolas.title FROM rolas, albums \
         WHERE rolas.id_album = albums.id_album AND albums.name LIKE ?"
    );
}

#[test]
fn a_genre_search_looks_at_genres() {
    let rule = SearchRule::parse("G:");
    assert_eq!(
        rule.statement().unwrap().sql,
        "SELECT rolas.title FROM rolas WHERE rolas.genre LIKE ?"
    );
    assert_eq!(pattern_of_statement(&rule), "%%");
}

#[test]
fn search_by_title_finds_only_what_matches() {
    let mut manager = SearchManager::new(library());
    manager.set_rules("T: Paranoid").unwrap();
    assert!(manager.is_visible("Paranoid Android"));
    assert!(!manager.is_visible("Creep"));
    assert!(!manager.is_visible("Android Dreams"));
    assert!(!manager.is_visible("Paranoid"));
}

#[test]
fn an_empty_query_finds_nothing() {
    let mut manager = SearchManager::new(library());
    manager.set_rules("").unwrap();
    assert!(!manager.is_visible("Paranoid Android"));
    assert!(!manager.is_visible("Creep"));
    assert!(!manager.is_visible(""));
}

#[test]
fn a_query_without_target_finds_nothing_whatever_came_before() {
    let mut manager = SearchManager::new(library());
    manager.set_rules("T: Creep").unwrap();
    assert!(manager.is_visible("Creep"));
    manager.set_rules("").unwrap();
    assert!(!manager.is_visible("Creep"));
    manager.set_rules("T: Android").unwrap();
    manager.set_rules("Paranoid").unwrap();
    assert!(!manager.is_visible("Paranoid Android"));
    assert!(!manager.is_visible("Android Dreams"));
    let mut fresh = SearchManager::new(library());
    fresh.set_rules("  ").unwrap();
    assert!(!fresh.is_visible("Creep"));
}

#[test]
fn search_by_performer_album_and_genre() {
    let mut manager = SearchManager::new(library());
    manager.set_rules("P: Radiohead").unwrap();
    assert!(manager.is_visible("Paranoid Android"));
    assert!(manager.is_visible("Creep"));
    assert!(!manager.is_visible("Android Dreams"));
    manager.set_rules("A: Pablo").unwrap();
    assert!(manager.is_visible("Creep"));
    assert!(!manager.is_visible("Paranoid Android"));
    manager.set_rules("G: tron").unwrap();
    assert!(manager.is_visible("Android Dreams"));
    assert!(!manager.is_visible("Creep"));
    manager.set_rules("T: Android").unwrap();
    assert!(manager.is_visible("Paranoid Android"));
    assert!(manager.is_visible("Android Dreams"));
    manager.set_rules("T: Android Dreams").unwrap();
    assert!(!manager.is_visible("Paranoid Android"));
    assert!(manager.is_visible("Android Dreams"));
}

#[test]
fn a_search_value_is_no_sql() {
    let mut manager = SearchManager::new(library());
    manager.set_rules("T: ' OR '1'='1").unwrap();
    assert!(!manager.is_visible("Creep"));
    manager.set_rules("T: Creep").unwrap();
    assert!(manager.is_visible("Creep"));
}

#[test]
fn a_search_without_connection_fails_and_keeps_the_results() {
    let mut manager = SearchManager::new(MusicDatabase::new());
    assert!(matches!(manager.set_rules("T: Creep"), Err(StorageError::NotConnected)));
    assert!(manager.set_rules("Creep").is_ok());
    assert!(!manager.is_visible("Creep"));
}
