use vstd::prelude::*;
use vstd::string::*;
use super::music_file::MusicFile;
use super::query_manager::conditions;
use super::query_manager::data;
use super::query_manager::insert;
use super::query_manager::insert_request;
use super::query_manager::select;
use super::query_manager::select_request;
use super::query_manager::Column;
use super::query_manager::Condition;
use super::query_manager::Conditional;
use super::query_manager::Datum;
use super::query_manager::Query;
use super::query_manager::Request;
use super::query_manager::Table;
use super::query_manager::TableColumn;
use super::query_manager::Value;
use super::store::StorageError;
use super::text::file_name;
use super::text::file_name_of;
use super::text::text_of;
use super::text::text_or;
use super::text::text_or_default;

verus! {

/// The year that an album is filed under, and a song whose tag gives none.
pub const DEFAULT_YEAR: i32 = 2018;

/// The text that stands for a performer, an album, a title or a genre that a
/// song's tag does not give.
pub open spec fn unknown() -> Seq<char> {
    "Unknown"@
}

/// A song as the catalog holds it.
#[derive(Clone, Debug)]
pub struct SongRow {
    pub id_performer: i64,
    pub id_album: i64,
    pub path: String,
    pub title: String,
    pub track: u32,
    pub year: i32,
    pub genre: String,
}

/// What the catalog tells of a song to one who lists it.
#[derive(Clone, Debug)]
pub struct SongInfo {
    pub title: String,
    pub performer: String,
    pub album: String,
    pub genre: String,
}

/// What a `SongInfo` stands for.
pub struct Listed {
    pub title: Seq<char>,
    pub performer: Seq<char>,
    pub album: Seq<char>,
    pub genre: Seq<char>,
}

impl View for SongInfo {
    type V = Listed;

    open spec fn view(&self) -> Listed {
        Listed {
            title: self.title@,
            performer: self.performer@,
            album: self.album@,
            genre: self.genre@,
        }
    }
}

/// What rows stand for, value by value.
pub open spec fn table(rows: Seq<Vec<Value>>) -> Seq<Seq<Datum>> {
    rows.map_values(|row: Vec<Value>| data(row@))
}

/// What song informations stand for, item by item.
pub open spec fn informations(songs: Seq<SongInfo>) -> Seq<Listed> {
    songs.map_values(|info: SongInfo| info@)
}

/// The column `column` of `table`.
pub open spec fn column_of(table: Table, column: Column) -> TableColumn {
    TableColumn { table, column }
}

/// The key column of `table`.
pub open spec fn key_of(table: Table) -> TableColumn {
    TableColumn { table, column: Column::Id }
}

/// The request for the keys of the rows that hold `value` in `column`.
pub open spec fn key_lookup_request(column: TableColumn, value: Seq<char>) -> Request {
    select_request(seq![key_of(column.table)], seq![Condition::EqVal(column, value)])
}

/// The insertion of a row that holds `value` in `column`.
pub open spec fn key_insert_request(column: TableColumn, value: Seq<char>) -> Request {
    insert_request(column.table, seq![column.column], seq![Datum::Text(value)])
}

/// The request for the key of the album at `path`.
pub open spec fn album_lookup_request(path: Seq<char>) -> Request {
    key_lookup_request(column_of(Table::Albums, Column::Path), path)
}

/// The insertion of the album at `path`: its name is the last component of
/// the path, its year the default year.
pub open spec fn album_insert_request(path: Seq<char>) -> Request {
    insert_request(
        Table::Albums,
        seq![Column::Path, Column::Name, Column::Year],
        seq![Datum::Text(path), Datum::Text(file_name(path)), Datum::Integer(DEFAULT_YEAR as int)],
    )
}

/// The title under which a song is filed: its own, or `Unknown`.
pub open spec fn title_of(song: MusicFile) -> Seq<char> {
    text_or(song.spec_title(), unknown())
}

/// The name of the performer under which a song is filed: its artist, or
/// `Unknown`.
pub open spec fn performer_of(song: MusicFile) -> Seq<char> {
    text_or(song.spec_artist(), unknown())
}

/// The name of the album under which a song is filed: its own, or `Unknown`.
pub open spec fn album_of(song: MusicFile) -> Seq<char> {
    text_or(song.spec_album(), unknown())
}

/// The request for the key of a song with the title of `song`.
pub open spec fn song_lookup_request(song: MusicFile) -> Request {
    key_lookup_request(column_of(Table::Rolas, Column::Title), title_of(song))
}

/// The columns that a song is inserted with, in the order of `SongRow`.
pub open spec fn song_columns() -> Seq<Column> {
    seq![
        Column::Performer,
        Column::Album,
        Column::Path,
        Column::Title,
        Column::Track,
        Column::Year,
        Column::Genre,
    ]
}

/// The values of a song's row, in the order of `song_columns`.
pub open spec fn song_values(row: SongRow) -> Seq<Datum> {
    seq![
        Datum::Integer(row.id_performer as int),
        Datum::Integer(row.id_album as int),
        Datum::Text(row.path@),
        Datum::Text(row.title@),
        Datum::Integer(row.track as int),
        Datum::Integer(row.year as int),
        Datum::Text(row.genre@),
    ]
}

/// The insertion of `row`.
pub open spec fn song_insert_request(row: SongRow) -> Request {
    insert_request(Table::Rolas, song_columns(), song_values(row))
}

/// Whether `row` is the row of `song`, for the performer and the album with
/// the given keys. What the song's tag does not give is filled in: a title or
/// a genre that is not there is `Unknown`, a track 0, a year the default
/// year.
pub open spec fn is_row_of(
    row: SongRow,
    song: MusicFile,
    id_performer: i64,
    id_album: i64,
) -> bool {
    &&& row.id_performer == id_performer
    &&& row.id_album == id_album
    &&& row.path@ == song.spec_path()
    &&& row.title@ == title_of(song)
    &&& row.track == match song.spec_track() {
        Some(track) => track,
        None => 0,
    }
    &&& row.year == match song.spec_date_recorded() {
        Some(date) => date.year,
        None => DEFAULT_YEAR,
    }
    &&& row.genre@ == text_or(song.spec_genre(), unknown())
}

/// The columns that a listing of the songs gives: title, genre, performer
/// and album.
pub open spec fn listing_columns() -> Seq<TableColumn> {
    seq![
        column_of(Table::Rolas, Column::Title),
        column_of(Table::Rolas, Column::Genre),
        column_of(Table::Performers, Column::Name),
        column_of(Table::Albums, Column::Name),
    ]
}

/// The conditions that join a song to its performer and its album.
pub open spec fn listing_conditions() -> Seq<Condition> {
    seq![
        Condition::Eq(column_of(Table::Rolas, Column::Performer), key_of(Table::Performers)),
        Condition::Eq(column_of(Table::Rolas, Column::Album), key_of(Table::Albums)),
    ]
}

/// The request for all songs with their performer and album, by title.
pub open spec fn songs_listing_request() -> Request {
    Request {
        sql: select_request(listing_columns(), listing_conditions()).sql
            + " ORDER BY rolas.title ASC"@,
        parameters: Seq::empty(),
    }
}

/// The key that the first row holds in its first column: none where there is
/// no row, an error where the row holds no integer there.
pub open spec fn spec_first_key(rows: Seq<Seq<Datum>>) -> Result<Option<i64>, StorageError> {
    if rows.len() == 0 {
        Ok(None)
    } else if rows[0].len() > 0 && rows[0][0] is Integer {
        Ok(Some(rows[0][0]->Integer_0 as i64))
    } else {
        Err(StorageError::NotAKey)
    }
}

/// The key that an insertion made, as the rows of `last_insert_id` tell it:
/// their first key. Rows that tell of no key are an error.
pub open spec fn spec_inserted_key(rows: Seq<Seq<Datum>>) -> Result<i64, StorageError> {
    match spec_first_key(rows) {
        Ok(Some(key)) => Ok(key),
        _ => Err(StorageError::NotAKey),
    }
}

/// The text that a row holds in `column`, if it holds text there.
pub open spec fn spec_text_at(row: Seq<Datum>, column: int) -> Option<Seq<char>> {
    if 0 <= column < row.len() && row[column] is Text {
        Some(row[column]->Text_0)
    } else {
        None
    }
}

/// The texts that the rows hold in their first column, in the rows' order;
/// a row that holds no text there gives none.
pub open spec fn spec_first_texts(rows: Seq<Seq<Datum>>) -> Seq<Seq<char>>
    decreases rows.len(),
{
    if rows.len() == 0 {
        Seq::empty()
    } else {
        let earlier = spec_first_texts(rows.drop_last());
        match spec_text_at(rows.last(), 0) {
            Some(text) => earlier.push(text),
            None => earlier,
        }
    }
}

/// What a row of a listing tells, if the row holds its four texts: title,
/// genre, performer and album.
pub open spec fn spec_listed_row(row: Seq<Datum>) -> Option<Listed> {
    if spec_text_at(row, 0) is Some && spec_text_at(row, 1) is Some && spec_text_at(row, 2)
        is Some && spec_text_at(row, 3) is Some {
        Some(
            Listed {
                title: spec_text_at(row, 0)->0,
                genre: spec_text_at(row, 1)->0,
                performer: spec_text_at(row, 2)->0,
                album: spec_text_at(row, 3)->0,
            },
        )
    } else {
        None
    }
}

/// What a listing tells of its songs, row by row; a row that does not hold
/// its four texts gives none.
pub open spec fn spec_listed(rows: Seq<Seq<Datum>>) -> Seq<Listed>
    decreases rows.len(),
{
    if rows.len() == 0 {
        Seq::empty()
    } else {
        let earlier = spec_listed(rows.drop_last());
        match spec_listed_row(rows.last()) {
            Some(info) => earlier.push(info),
            None => earlier,
        }
    }
}

/// The statement that looks for the rows that hold `value` in `column`, and
/// gives their keys.
pub fn key_lookup(column: TableColumn, value: &str) -> (statement: Query)
    ensures
        statement@ == key_lookup_request(column, value@),
{
    let mut columns: Vec<TableColumn> = Vec::new();
    columns.push(TableColumn::new(column.table, Column::Id));
    let mut conditionals: Vec<Conditional> = Vec::new();
    conditionals.push(Conditional::EqVal(column, String::from_str(value)));
    let statement = select(columns.as_slice(), conditionals.as_slice());
    proof {
        assert(conditions(conditionals@) =~= seq![Condition::EqVal(column, value@)]);
    }
    statement
}

/// The statement that inserts a row that holds `value` in `column`.
pub fn key_insert(column: TableColumn, value: &str) -> (statement: Query)
    ensures
        statement@ == key_insert_request(column, value@),
{
    let mut columns: Vec<Column> = Vec::new();
    columns.push(column.column);
    let mut values: Vec<Value> = Vec::new();
    values.push(Value::Text(String::from_str(value)));
    assert(data(values@) =~= seq![Datum::Text(value@)]);
    insert(column.table, columns.as_slice(), values)
}

/// The statement that inserts the album at `path`.
pub fn album_insert(path: &str) -> (statement: Query)
    ensures
        statement@ == album_insert_request(path@),
{
    let mut columns: Vec<Column> = Vec::new();
    columns.push(Column::Path);
    columns.push(Column::Name);
    columns.push(Column::Year);
    let mut values: Vec<Value> = Vec::new();
    values.push(Value::Text(String::from_str(path)));
    values.push(Value::Text(file_name_of(path)));
    values.push(Value::Integer(DEFAULT_YEAR as i64));
    assert(data(values@) =~= seq![
        Datum::Text(path@),
        Datum::Text(file_name(path@)),
        Datum::Integer(DEFAULT_YEAR as int),
    ]);
    assert(columns@ =~= seq![Column::Path, Column::Name, Column::Year]);
    insert(Table::Albums, columns.as_slice(), values)
}

/// The statement that inserts `row`.
pub fn song_insert(row: &SongRow) -> (statement: Query)
    ensures
        statement@ == song_insert_request(*row),
{
    let mut columns: Vec<Column> = Vec::new();
    columns.push(Column::Performer);
    columns.push(Column::Album);
    columns.push(Column::Path);
    columns.push(Column::Title);
    columns.push(Column::Track);
    columns.push(Column::Year);
    columns.push(Column::Genre);
    let mut values: Vec<Value> = Vec::new();
    values.push(Value::Integer(row.id_performer));
    values.push(Value::Integer(row.id_album));
    values.push(Value::Text(row.path.clone()));
    values.push(Value::Text(row.title.clone()));
    values.push(Value::Integer(row.track as i64));
    values.push(Value::Integer(row.year as i64));
    values.push(Value::Text(row.genre.clone()));
    assert(data(values@) =~= song_values(*row));
    assert(columns@ =~= song_columns());
    insert(Table::Rolas, columns.as_slice(), values)
}

/// The statement that lists all songs with their performer and album, by
/// title.
pub fn songs_listing() -> (statement: Query)
    ensures
        statement@ == songs_listing_request(),
{
    let mut columns: Vec<TableColumn> = Vec::new();
    columns.push(TableColumn::new(Table::Rolas, Column::Title));
    columns.push(TableColumn::new(Table::Rolas, Column::Genre));
    columns.push(TableColumn::new(Table::Performers, Column::Name));
    columns.push(TableColumn::new(Table::Albums, Column::Name));
    let mut conditionals: Vec<Conditional> = Vec::new();
    conditionals.push(
        Conditional::Eq(
            TableColumn::new(Table::Rolas, Column::Performer),
            TableColumn::new(Table::Performers, Column::Id),
        ),
    );
    conditionals.push(
        Conditional::Eq(
            TableColumn::new(Table::Rolas, Column::Album),
            TableColumn::new(Table::Albums, Column::Id),
        ),
    );
    let listing = select(columns.as_slice(), conditionals.as_slice());
    proof {
        assert(columns@ =~= listing_columns());
        assert(conditions(conditionals@) =~= listing_conditions());
    }
    let mut sql = listing.sql;
    sql.append(" ORDER BY rolas.title ASC");
    let statement = Query { sql, parameters: Vec::new() };
    assert(data(statement.parameters@) =~= Seq::<Datum>::empty());
    statement
}

/// The key that the first row holds in its first column.
pub fn first_key(rows: &Vec<Vec<Value>>) -> (key: Result<Option<i64>, StorageError>)
    ensures
        key == spec_first_key(table(rows@)),
{
    if rows.len() == 0 {
        return Ok(None);
    }
    if rows[0].len() > 0 {
        match &rows[0][0] {
            Value::Integer(key) => {
                return Ok(Some(*key));
            },
            _ => {},
        }
    }
    Err(StorageError::NotAKey)
}

/// The key that an insertion made, as the rows of `last_insert_id` tell it.
pub fn inserted_key(rows: &Vec<Vec<Value>>) -> (key: Result<i64, StorageError>)
    ensures
        key == spec_inserted_key(table(rows@)),
{
    match first_key(rows) {
        Ok(Some(key)) => Ok(key),
        _ => Err(StorageError::NotAKey),
    }
}

/// The text that `row` holds in `column`, if it holds text there.
pub fn text_at(row: &Vec<Value>, column: usize) -> (text: Option<String>)
    ensures
        text_of(text) == spec_text_at(data(row@), column as int),
{
    if column < row.len() {
        match &row[column] {
            Value::Text(text) => Some(text.clone()),
            _ => None,
        }
    } else {
        None
    }
}

/// The texts that the rows hold in their first column.
pub fn first_texts(rows: &Vec<Vec<Value>>) -> (texts: Vec<String>)
    ensures
        texts.deep_view() == spec_first_texts(table(rows@)),
{
    let ghost all = table(rows@);
    let mut texts: Vec<String> = Vec::new();
    let mut i: usize = 0;
    while i < rows.len()
        invariant
            i <= rows.len(),
            all == table(rows@),
            texts.deep_view() == spec_first_texts(all.take(i as int)),
        decreases rows.len() - i,
    {
        assert(all.take(i + 1).drop_last() =~= all.take(i as int));
        match text_at(&rows[i], 0) {
            Some(text) => {
                texts.push(text);
            },
            None => {},
        }
        i += 1;
    }
    assert(all.take(rows.len() as int) =~= all);
    texts
}

/// Reads the rows of a listing.
pub fn listed(rows: &Vec<Vec<Value>>) -> (songs: Vec<SongInfo>)
    ensures
        informations(songs@) == spec_listed(table(rows@)),
{
    let ghost all = table(rows@);
    let mut songs: Vec<SongInfo> = Vec::new();
    let mut i: usize = 0;
    while i < rows.len()
        invariant
            i <= rows.len(),
            all == table(rows@),
            informations(songs@) == spec_listed(all.take(i as int)),
        decreases rows.len() - i,
    {
        assert(all.take(i + 1).drop_last() =~= all.take(i as int));
        match SongInfo::of_row(&rows[i]) {
            Some(info) => {
                songs.push(info);
            },
            None => {},
        }
        i += 1;
    }
    assert(all.take(rows.len() as int) =~= all);
    songs
}

impl SongRow {
    /// The row of `song`, for the performer and the album with the given
    /// keys.
    pub fn new(song: &MusicFile, id_performer: i64, id_album: i64) -> (row: SongRow)
        ensures
            is_row_of(row, *song, id_performer, id_album),
    {
        let track = match song.track() {
            Some(track) => *track,
            None => 0,
        };
        let year = match song.date_recorded() {
            Some(date) => date.year,
            None => DEFAULT_YEAR,
        };
        SongRow {
            id_performer,
            id_album,
            path: song.path(),
            title: text_or_default(song.title(), "Unknown"),
            track,
            year,
            genre: text_or_default(song.genre(), "Unknown"),
        }
    }
}

impl SongInfo {
    /// Reads a row of a listing: title, genre, performer and album.
    pub fn of_row(row: &Vec<Value>) -> (info: Option<SongInfo>)
        ensures
            match info {
                Some(info) => spec_listed_row(data(row@)) == Some(info@),
                None => spec_listed_row(data(row@)) is None,
            },
    {
        let title = text_at(row, 0);
        let genre = text_at(row, 1);
        let performer = text_at(row, 2);
        let album = text_at(row, 3);
        match (title, genre, performer, album) {
            (Some(title), Some(genre), Some(performer), Some(album)) => Some(
                SongInfo { title, performer, album, genre },
            ),
            _ => None,
        }
    }
}

} // verus!
