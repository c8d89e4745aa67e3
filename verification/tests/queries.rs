use music_player_rs::music_manager::catalog::album_insert;
use music_player_rs::music_manager::catalog::first_key;
use music_player_rs::music_manager::catalog::first_texts;
use music_player_rs::music_manager::catalog::inserted_key;
use music_player_rs::music_manager::catalog::key_insert;
use music_player_rs::music_manager::catalog::key_lookup;
use music_player_rs::music_manager::catalog::listed;
use music_player_rs::music_manager::catalog::song_insert;
use music_player_rs::music_manager::catalog::songs_listing;
use music_player_rs::music_manager::catalog::text_at;
use music_player_rs::music_manager::catalog::SongInfo;
use music_player_rs::music_manager::catalog::SongRow;
use music_player_rs::music_manager::store::StorageError;
use music_player_rs::music_manager::catalog::DEFAULT_YEAR;
use music_player_rs::music_manager::music_file::MusicFile;
use music_player_rs::music_manager::music_file::Timestamp;
use music_player_rs::music_manager::query_manager::insert;
use music_player_rs::music_manager::query_manager::last_insert_id;
use music_player_rs::music_manager::query_manager::select;
use music_player_rs::music_manager::query_manager::Column;
use music_player_rs::music_manager::query_manager::Conditional;
use music_player_rs::music_manager::query_manager::Table;
use music_player_rs::music_manager::query_manager::TableColumn;
use music_player_rs::music_manager::query_manager::Value;

fn text_of_value(value: &Value) -> Option<String> {
    match value {
        Value::Text(text) => Some(text.clone()),
        _ => None,
    }
}

fn integer_of_value(value: &Value) -> Option<i64> {
    match value {
        Value::Integer(number) => Some(*number),
        _ => None,
    }
}

#[test]
fn tables_and_columns_have_their_names() {
    assert_eq!(Table::Rolas.name(), "rolas");
    assert_eq!(Table::Performers.name(), "performers");
    assert_eq!(Table::Albums.name(), "albums");
    assert_eq!(Table::Rolas.singular(), "rola");
    assert_eq!(Column::Id.name(Table::Rolas), "id_rola");
    assert_eq!(Column::Id.name(Table::Performers), "id_performer");
    assert_eq!(Column::Id.name(Table::Albums), "id_album");
    assert_eq!(Column::Performer.name(Table::Rolas), "id_performer");
    assert_eq!(Column::Album.name(Table::Rolas), "id_album");
    assert_eq!(Column::Type.name(Table::Performers), "id_type");
    assert_eq!(Column::Genre.name(Table::Rolas), "genre");
    assert_eq!(TableColumn::new(Table::Albums, Column::Path).qualified(), "albums.path");
}

#[test]
fn columns_are_found_by_name() {
    assert_eq!(
        TableColumn::from_str("performer", "name"),
        Some(TableColumn::new(Table::Performers, Column::Name))
    );
    assert_eq!(
        TableColumn::from_str("performer", "id_performer"),
        Some(TableColumn::new(Table::Performers, Column::Id))
    );
    assert_eq!(
        TableColumn::from_str("rola", "id_performer"),
        Some(TableColumn::new(Table::Rolas, Column::Performer))
    );
    assert_eq!(
        TableColumn::from_str("album", "year"),
        Some(TableColumn::new(Table::Albums, Column::Year))
    );
    assert_eq!(TableColumn::from_str("performers", "name"), None);
    assert_eq!(TableColumn::from_str("performer", "title"), None);
    assert_eq!(TableColumn::from_str("rola", "name"), None);
    assert_eq!(TableColumn::from_str("album", "name; DROP TABLE albums"), None);
    assert_eq!(TableColumn::from_str("", ""), None);
}

#[test]
fn tables_hold_their_columns() {
    assert!(Table::Rolas.holds(Column::Title));
    assert!(!Table::Rolas.holds(Column::Name));
    assert!(Table::Performers.holds(Column::Type));
    assert!(!Table::Performers.holds(Column::Path));
    assert!(Table::Albums.holds(Column::Year));
    assert!(!Table::Albums.holds(Column::Genre));
    assert!(Table::Albums.is(Table::Albums));
    assert!(!Table::Albums.is(Table::Rolas));
}

#[test]
fn select_without_conditions_has_no_where() {
    let statement = select(&[TableColumn::new(Table::Albums, Column::Id)], &[]);
    assert_eq!(statement.sql, "SELECT albums.id_album FROM albums");
    assert!(statement.parameters.is_empty());
}

#[test]
fn select_lists_the_tables_in_catalog_order() {
    let statement = select(
        &[
            TableColumn::new(Table::Albums, Column::Name),
            TableColumn::new(Table::Rolas, Column::Title),
        ],
        &[
            Conditional::Eq(
                TableColumn::new(Table::Rolas, Column::Performer),
                TableColumn::new(Table::Performers, Column::Id),
            ),
            Conditional::EqVal(TableColumn::new(Table::Albums, Column::Year), "1997".to_string()),
            Conditional::Like(TableColumn::new(Table::Rolas, Column::Genre), "%rock%".to_string()),
        ],
    );
    assert_eq!(
        statement.sql,
        "SELECT albums.name, rolas.title FROM rolas, performers, albums \
         WHERE rolas.id_performer = performers.id_performer AND albums.year = ? \
         AND rolas.genre LIKE ?"
    );
    assert_eq!(statement.parameters.len(), 2);
    assert_eq!(text_of_value(&statement.parameters[0]), Some("1997".to_string()));
    assert_eq!(text_of_value(&statement.parameters[1]), Some("%rock%".to_string()));
}

#[test]
fn values_never_reach_the_text() {
    let statement = key_lookup(
        TableColumn::new(Table::Performers, Column::Name),
        "x'; DROP TABLE performers; --",
    );
    assert_eq!(
        statement.sql,
        "SELECT performers.id_performer FROM performers WHERE performers.name = ?"
    );
    assert_eq!(
        text_of_value(&statement.parameters[0]),
        Some("x'; DROP TABLE performers; --".to_string())
    );
}

#[test]
fn insert_has_one_placeholder_for_each_column() {
    let statement = insert(
        Table::Performers,
        &[Column::Type, Column::Name],
        vec![Value::Integer(2), Value::Text("X".to_string())],
    );
    assert_eq!(statement.sql, "INSERT INTO performers (id_type, name) VALUES (?, ?)");
    assert_eq!(integer_of_value(&statement.parameters[0]), Some(2));
    assert_eq!(text_of_value(&statement.parameters[1]), Some("X".to_string()));
    let empty = insert(Table::Albums, &[], Vec::new());
    assert_eq!(empty.sql, "INSERT INTO albums () VALUES ()");
}

#[test]
fn key_insert_binds_the_value() {
    let statement = key_insert(TableColumn::new(Table::Albums, Column::Name), "OK Computer");
    assert_eq!(statement.sql, "INSERT INTO albums (name) VALUES (?)");
    assert_eq!(text_of_value(&statement.parameters[0]), Some("OK Computer".to_string()));
}

#[test]
fn album_insert_names_the_album_by_its_directory() {
    let statement = album_insert("root/AlbumA");
    assert_eq!(statement.sql, "INSERT INTO albums (path, name, year) VALUES (?, ?, ?)");
    assert_eq!(text_of_value(&statement.parameters[0]), Some("root/AlbumA".to_string()));
    assert_eq!(text_of_value(&statement.parameters[1]), Some("AlbumA".to_string()));
    assert_eq!(integer_of_value(&statement.parameters[2]), Some(2018));
    assert_eq!(DEFAULT_YEAR, 2018);
}

#[test]
fn song_insert_binds_the_row() {
    let row = SongRow {
        id_performer: 3,
        id_album: 5,
        path: "root/a.mp3".to_string(),
        title: "Creep".to_string(),
        track: 2,
        year: 1993,
        genre: "Rock".to_string(),
    };
    let statement = song_insert(&row);
    assert_eq!(
        statement.sql,
        "INSERT INTO rolas (id_performer, id_album, path, title, track, year, genre) \
         VALUES (?, ?, ?, ?, ?, ?, ?)"
    );
    assert_eq!(integer_of_value(&statement.parameters[0]), Some(3));
    assert_eq!(integer_of_value(&statement.parameters[1]), Some(5));
    assert_eq!(text_of_value(&statement.parameters[2]), Some("root/a.mp3".to_string()));
    assert_eq!(text_of_value(&statement.parameters[3]), Some("Creep".to_string()));
    assert_eq!(integer_of_value(&statement.parameters[4]), Some(2));
    assert_eq!(integer_of_value(&statement.parameters[5]), Some(1993));
    assert_eq!(text_of_value(&statement.parameters[6]), Some("Rock".to_string()));
}

#[test]
fn listing_joins_song_performer_and_album() {
    let statement = songs_listing();
    assert_eq!(
        statement.sql,
        "SELECT rolas.title, rolas.genre, performers.name, albums.name \
         FROM rolas, performers, albums \
         WHERE rolas.id_performer = performers.id_performer \
         AND rolas.id_album = albums.id_album ORDER BY rolas.title ASC"
    );
    assert!(statement.parameters.is_empty());
    assert_eq!(last_insert_id().sql, "SELECT last_insert_rowid()");
}

#[test]
fn song_row_keeps_what_the_tag_gives() {
    let date = Timestamp { year: 1997, month: Some(5), day: None, hour: None, minute: None, second: None };
    let song = MusicFile::new(
        "root/a.mp3".to_string(),
        Some("Radiohead".to_string()),
        Some("Airbag".to_string()),
        Some("OK Computer".to_string()),
        Some(date),
        Some("Rock".to_string()),
        Some(1),
    );
    let row = SongRow::new(&song, 7, 9);
    assert_eq!(row.id_performer, 7);
    assert_eq!(row.id_album, 9);
    assert_eq!(row.path, "root/a.mp3");
    assert_eq!(row.title, "Airbag");
    assert_eq!(row.track, 1);
    assert_eq!(row.year, 1997);
    assert_eq!(row.genre, "Rock");
}

#[test]
fn song_row_fills_in_what_the_tag_lacks() {
    let song = MusicFile::new("root/a.mp3".to_string(), None, None, None, None, None, None);
    let row = SongRow::new(&song, 1, 2);
    assert_eq!(row.title, "Unknown");
    assert_eq!(row.track, 0);
    assert_eq!(row.year, 2018);
    assert_eq!(row.genre, "Unknown");
    assert_eq!(row.path, "root/a.mp3");
}

#[test]
fn first_key_reads_the_first_row() {
    assert!(matches!(first_key(&Vec::new()), Ok(None)));
    let rows = vec![vec![Value::Integer(4), Value::Null], vec![Value::Integer(9)]];
    assert!(matches!(first_key(&rows), Ok(Some(4))));
    assert!(matches!(first_key(&vec![vec![Value::Text("4".to_string())]]), Err(StorageError::NotAKey)));
    assert!(matches!(first_key(&vec![vec![Value::Null]]), Err(StorageError::NotAKey)));
    assert!(matches!(first_key(&vec![Vec::new()]), Err(StorageError::NotAKey)));
}

#[test]
fn inserted_key_needs_a_row_with_a_key() {
    assert!(matches!(inserted_key(&Vec::new()), Err(StorageError::NotAKey)));
    assert!(matches!(inserted_key(&vec![vec![Value::Integer(12)]]), Ok(12)));
    assert!(matches!(inserted_key(&vec![vec![Value::Null]]), Err(StorageError::NotAKey)));
}

#[test]
fn first_texts_pass_over_rows_without_text() {
    let rows = vec![
        vec![Value::Text("Creep".to_string())],
        vec![Value::Integer(1)],
        Vec::new(),
        vec![Value::Null],
        vec![Value::Text("Airbag".to_string()), Value::Text("x".to_string())],
    ];
    assert_eq!(first_texts(&rows), vec!["Creep".to_string(), "Airbag".to_string()]);
    assert_eq!(text_at(&rows[4], 1), Some("x".to_string()));
    assert_eq!(text_at(&rows[4], 2), None);
    assert_eq!(text_at(&rows[1], 0), None);
}

#[test]
fn a_listed_row_is_title_genre_performer_album() {
    let row = vec![
        Value::Text("Airbag".to_string()),
        Value::Text("Rock".to_string()),
        Value::Text("Radiohead".to_string()),
        Value::Text("OK Computer".to_string()),
    ];
    let info = SongInfo::of_row(&row).unwrap();
    assert_eq!(info.title, "Airbag");
    assert_eq!(info.genre, "Rock");
    assert_eq!(info.performer, "Radiohead");
    assert_eq!(info.album, "OK Computer");
    assert!(SongInfo::of_row(&row[..3].to_vec()).is_none());
    let songs = listed(&vec![row, vec![Value::Null], Vec::new()]);
    assert_eq!(songs.len(), 1);
    assert_eq!(songs[0].title, "Airbag");
}
