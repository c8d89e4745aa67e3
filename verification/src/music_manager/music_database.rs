use vstd::prelude::*;
use vstd::string::*;
use super::catalog::album_insert;
use super::catalog::album_insert_request;
use super::catalog::album_lookup_request;
use super::catalog::album_of;
use super::catalog::column_of;
use super::catalog::first_key;
use super::catalog::first_texts;
use super::catalog::informations;
use super::catalog::inserted_key;
use super::catalog::is_row_of;
use super::catalog::key_insert;
use super::catalog::key_insert_request;
use super::catalog::key_lookup;
use super::catalog::key_lookup_request;
use super::catalog::listed;
use super::catalog::performer_of;
use super::catalog::song_insert;
use super::catalog::song_insert_request;
use super::catalog::song_lookup_request;
use super::catalog::songs_listing;
use super::catalog::songs_listing_request;
use super::catalog::spec_first_key;
use super::catalog::spec_first_texts;
use super::catalog::spec_inserted_key;
use super::catalog::spec_listed;
use super::catalog::table;
use super::catalog::SongInfo;
use super::catalog::SongRow;
use super::music_file::MusicFile;
use super::query_manager::last_insert_id;
use super::query_manager::last_insert_id_request;
use super::query_manager::Column;
use super::query_manager::Datum;
use super::query_manager::Query;
use super::query_manager::Request;
use super::query_manager::Table;
use super::query_manager::TableColumn;
use super::query_manager::Value;
use super::store::fault_of;
use super::store::open_store;
use super::store::path_exists;
use super::store::rectangular;
use super::store::rows_of;
use super::store::run;
use super::store::run_script;
use super::store::StorageError;
use super::text::text_of;
use super::text::text_or;
use super::text::text_or_default;

verus! {

/// How the store answered a request.
pub enum Answer {
    /// The statement ran to its end.
    Done,
    /// The statement gave these rows.
    Rows(Seq<Seq<Datum>>),
    /// The store refused the statement, or failed on it.
    Refused,
}

/// A request that was handed to the store, and the answer of the store.
pub struct Exchange {
    pub request: Request,
    pub answer: Answer,
}

/// A music database stores the connection to the SQLite database and its name.
///
/// What the catalog holds is known to SQLite alone. So the contracts of the
/// operations speak of the journal of the database instead: of each request
/// that was handed to the store, and of the answer that came back. They say
/// which requests an operation makes, in which order, and what it returns for
/// each answer that the store may give.
pub struct MusicDatabase {
    connection: Option<sqlite::Connection>,
    username: Option<String>,
    password: Option<String>,
    host: Option<String>,
    database: Option<String>,
    journal: Ghost<Seq<Exchange>>,
}

impl MusicDatabase {
    /// Whether the database holds a connection.
    pub closed spec fn is_connected(&self) -> bool {
        self.connection is Some
    }

    /// The name of the user of a networked store, if one is set.
    pub closed spec fn spec_username(&self) -> Option<Seq<char>> {
        text_of(self.username)
    }

    /// The password of the user of a networked store, if one is set.
    pub closed spec fn spec_password(&self) -> Option<Seq<char>> {
        text_of(self.password)
    }

    /// The host of a networked store, if one is set.
    pub closed spec fn spec_host(&self) -> Option<Seq<char>> {
        text_of(self.host)
    }

    /// The name of the database, if one is set.
    pub closed spec fn spec_database(&self) -> Option<Seq<char>> {
        text_of(self.database)
    }

    /// The requests that were handed to the store since the database was
    /// made, each with the answer of the store, in their order.
    pub closed spec fn journal(&self) -> Seq<Exchange> {
        self.journal@
    }

    /// Whether this database is `earlier` after some exchanges with the store:
    /// it is configured and connected as `earlier` is, and its journal begins
    /// with that of `earlier`.
    pub open spec fn continues(&self, earlier: &MusicDatabase) -> bool {
        &&& self.same_settings(earlier)
        &&& self.is_connected() == earlier.is_connected()
        &&& self.extends(earlier)
    }

    /// Whether the journal of this database begins with that of `earlier`.
    pub open spec fn extends(&self, earlier: &MusicDatabase) -> bool {
        &&& earlier.journal().len() <= self.journal().len()
        &&& self.journal().take(earlier.journal().len() as int) == earlier.journal()
    }

    /// The exchanges of this database with the store that `earlier` has not
    /// seen.
    pub open spec fn issued_since(&self, earlier: &MusicDatabase) -> Seq<Exchange> {
        self.journal().skip(earlier.journal().len() as int)
    }

    /// Whether `other` is configured as this database is.
    pub open spec fn same_settings(&self, other: &MusicDatabase) -> bool {
        &&& self.spec_username() == other.spec_username()
        &&& self.spec_password() == other.spec_password()
        &&& self.spec_host() == other.spec_host()
        &&& self.spec_database() == other.spec_database()
    }

    /// The file of the embedded store: the configured database, or
    /// `./music_player_rs.db`.
    pub open spec fn spec_database_path(&self) -> Seq<char> {
        text_or(self.spec_database(), "./music_player_rs.db"@)
    }

    /// The address of the networked store that the settings describe. Each
    /// setting that is not there has a default: user and password
    /// `postgres`, host `0.0.0.0`, database `music_player_rs`.
    pub open spec fn spec_connection_url(&self) -> Seq<char> {
        "postgresql://"@ + text_or(self.spec_username(), "postgres"@) + ":"@ + text_or(
            self.spec_password(),
            "postgres"@,
        ) + "@"@ + text_or(self.spec_host(), "0.0.0.0"@) + "/"@ + text_or(
            self.spec_database(),
            "music_player_rs"@,
        )
    }

    /// Creates a new instance of a music database.
    pub fn new() -> (database: MusicDatabase)
        ensures
            !database.is_connected(),
            database.spec_username() is None,
            database.spec_password() is None,
            database.spec_host() is None,
            database.spec_database() is None,
            database.journal().len() == 0,
    {
        MusicDatabase {
            connection: None,
            username: None,
            password: None,
            host: None,
            database: None,
            journal: Ghost(Seq::empty()),
        }
    }

    /// Sets the name of the user of a networked store.
    pub fn with_username(&mut self, username: &str) -> (database: &mut MusicDatabase)
        ensures
            *final(self) == *final(database),
            database.spec_username() == Some(username@),
            database.spec_password() == old(self).spec_password(),
            database.spec_host() == old(self).spec_host(),
            database.spec_database() == old(self).spec_database(),
            database.is_connected() == old(self).is_connected(),
            database.journal() == old(self).journal(),
    {
        self.username = Some(String::from_str(username));
        self
    }

    /// Sets the password of the user of a networked store.
    pub fn with_password(&mut self, password: &str) -> (database: &mut MusicDatabase)
        ensures
            *final(self) == *final(database),
            database.spec_password() == Some(password@),
            database.spec_username() == old(self).spec_username(),
            database.spec_host() == old(self).spec_host(),
            database.spec_database() == old(self).spec_database(),
            database.is_connected() == old(self).is_connected(),
            database.journal() == old(self).journal(),
    {
        self.password = Some(String::from_str(password));
        self
    }

    /// Sets the host of a networked store.
    pub fn with_host(&mut self, host: &str) -> (database: &mut MusicDatabase)
        ensures
            *final(self) == *final(database),
            database.spec_host() == Some(host@),
            database.spec_username() == old(self).spec_username(),
            database.spec_password() == old(self).spec_password(),
            database.spec_database() == old(self).spec_database(),
            database.is_connected() == old(self).is_connected(),
            database.journal() == old(self).journal(),
    {
        self.host = Some(String::from_str(host));
        self
    }

    /// Given a database name, creates a new instance of a music database, with the corresponding
    /// SQLite database name.
    pub fn with_database(&mut self, database: &str) -> (configured: &mut MusicDatabase)
        ensures
            *final(self) == *final(configured),
            configured.spec_database() == Some(database@),
            configured.spec_username() == old(self).spec_username(),
            configured.spec_password() == old(self).spec_password(),
            configured.spec_host() == old(self).spec_host(),
            configured.is_connected() == old(self).is_connected(),
            configured.journal() == old(self).journal(),
    {
        self.database = Some(String::from_str(database));
        self
    }

    /// The file of the embedded store.
    pub fn database_path(&self) -> (path: String)
        ensures
            path@ == self.spec_database_path(),
    {
        text_or_default(&self.database, "./music_player_rs.db")
    }

    /// The address of the networked store that the settings describe.
    pub fn connection_url(&self) -> (url: String)
        ensures
            url@ == self.spec_connection_url(),
    {
        let mut url = String::from_str("postgresql://");
        url.append(text_or_default(&self.username, "postgres").as_str());
        url.append(":");
        url.append(text_or_default(&self.password, "postgres").as_str());
        url.append("@");
        url.append(text_or_default(&self.host, "0.0.0.0").as_str());
        url.append("/");
        url.append(text_or_default(&self.database, "music_player_rs").as_str());
        url
    }

    /// Tells whether the database holds a connection.
    pub fn is_active(&self) -> (active: bool)
        ensures
            active == self.is_connected(),
    {
        self.connection.is_some()
    }
}

/// Whether `error` is one that the store itself brings about: there is no
/// connection, or the store failed on a statement.
pub open spec fn from_store(error: StorageError) -> bool {
    error is NotConnected || error is StatementFailed
}

/// What holds of an operation on a database that is not connected: nothing
/// is handed to the store, and the operation fails for want of a connection.
pub open spec fn unconnected<T>(issued: Seq<Exchange>, result: Result<T, StorageError>) -> bool {
    issued.len() == 0 && result matches Err(StorageError::NotConnected)
}

/// A script as a request: its text, which binds nothing.
pub open spec fn script_request(script: Seq<char>) -> Request {
    Request { sql: script, parameters: Seq::empty() }
}

/// What holds of the running of the script of a new database: the script is
/// handed to the store, and the database is connected if and only if the
/// store runs it to its end.
pub open spec fn execution_of_script(
    script: Seq<char>,
    exchange: Exchange,
    connected: Result<(), StorageError>,
) -> bool {
    &&& exchange.request == script_request(script)
    &&& exchange.answer == if connected is Ok {
        Answer::Done
    } else {
        Answer::Refused
    }
}

/// What holds of the execution of `request`: it is handed to the store, and
/// the execution succeeds if and only if the store runs it to its end.
pub open spec fn execution(
    request: Request,
    issued: Seq<Exchange>,
    done: Result<(), StorageError>,
) -> bool {
    &&& issued.len() == 1
    &&& issued[0].request == request
    &&& match done {
        Ok(()) => issued[0].answer == Answer::Done,
        Err(error) => error is StatementFailed && issued[0].answer == Answer::Refused,
    }
}

/// What holds of the query `request`: it is handed to the store, and the
/// query gives the rows that the store answers with, or fails where the
/// store does.
pub open spec fn inquiry(
    request: Request,
    issued: Seq<Exchange>,
    rows: Result<Vec<Vec<Value>>, StorageError>,
) -> bool {
    &&& issued.len() == 1
    &&& issued[0].request == request
    &&& match rows {
        Ok(rows) => issued[0].answer == Answer::Rows(table(rows@)),
        Err(error) => error is StatementFailed && issued[0].answer == Answer::Refused,
    }
}

/// What holds of a lookup by `request`: it is handed to the store, and
/// something is found if and only if the store answers with a row.
pub open spec fn lookup(
    request: Request,
    issued: Seq<Exchange>,
    found: Result<bool, StorageError>,
) -> bool {
    &&& issued.len() == 1
    &&& issued[0].request == request
    &&& match issued[0].answer {
        Answer::Rows(rows) => found == Ok::<bool, StorageError>(rows.len() > 0),
        _ => found matches Err(StorageError::StatementFailed(_)),
    }
}

/// What holds of a listing by `request`: it is handed to the store, and the
/// listing gives what the rows of the answer tell.
pub open spec fn listing(
    request: Request,
    issued: Seq<Exchange>,
    songs: Result<Vec<SongInfo>, StorageError>,
) -> bool {
    &&& issued.len() == 1
    &&& issued[0].request == request
    &&& match issued[0].answer {
        Answer::Rows(rows) => songs matches Ok(songs) && informations(songs@) == spec_listed(rows),
        _ => songs matches Err(StorageError::StatementFailed(_)),
    }
}

/// What holds of a search by `request`: it is handed to the store, and the
/// search gives the texts of the first column of the answer.
pub open spec fn search(
    request: Request,
    issued: Seq<Exchange>,
    titles: Result<Vec<String>, StorageError>,
) -> bool {
    &&& issued.len() == 1
    &&& issued[0].request == request
    &&& match issued[0].answer {
        Answer::Rows(rows) => titles matches Ok(titles) && titles.deep_view() == spec_first_texts(
            rows,
        ),
        _ => titles matches Err(StorageError::StatementFailed(_)),
    }
}

/// What holds of the saving of the album at `path`: the store is asked for
/// an album with this path, and where it answers with none, and only there,
/// the album is inserted.
pub open spec fn album_saving(
    path: Seq<char>,
    issued: Seq<Exchange>,
    saved: Result<(), StorageError>,
) -> bool {
    &&& issued.len() >= 1
    &&& issued[0].request == album_lookup_request(path)
    &&& match issued[0].answer {
        Answer::Rows(rows) => if rows.len() > 0 {
            issued.len() == 1 && saved is Ok
        } else {
            execution(album_insert_request(path), issued.skip(1), saved)
        },
        _ => issued.len() == 1 && saved matches Err(StorageError::StatementFailed(_)),
    }
}

/// What holds of an attempt to save the album at `path`, on a database that
/// is connected or not.
pub open spec fn album_attempt(
    connected: bool,
    path: Seq<char>,
    issued: Seq<Exchange>,
    saved: Result<(), StorageError>,
) -> bool {
    if connected {
        album_saving(path, issued, saved)
    } else {
        unconnected(issued, saved)
    }
}

/// What holds of the insertion of a row that holds `value` in `column`: the
/// row is inserted, and where the store did so, it is asked for the key of
/// the row that it inserted last, which is the key of the new row.
pub open spec fn insertion(
    column: TableColumn,
    value: Seq<char>,
    issued: Seq<Exchange>,
    key: Result<i64, StorageError>,
) -> bool {
    &&& issued.len() >= 1
    &&& issued[0].request == key_insert_request(column, value)
    &&& match issued[0].answer {
        Answer::Done => {
            &&& issued.len() == 2
            &&& issued[1].request == last_insert_id_request()
            &&& match issued[1].answer {
                Answer::Rows(rows) => key == spec_inserted_key(rows),
                _ => key matches Err(StorageError::StatementFailed(_)),
            }
        },
        _ => issued.len() == 1 && key matches Err(StorageError::StatementFailed(_)),
    }
}

/// What holds of the resolution of `value` in `column`: the store is asked
/// for the key of a row that holds the value. Where it answers with one, that
/// key is the result and nothing else is handed to the store. Where it
/// answers with no row, and only there, a row is inserted, whose key is the
/// result.
pub open spec fn resolution(
    column: TableColumn,
    value: Seq<char>,
    issued: Seq<Exchange>,
    key: Result<i64, StorageError>,
) -> bool {
    &&& issued.len() >= 1
    &&& issued[0].request == key_lookup_request(column, value)
    &&& match issued[0].answer {
        Answer::Rows(rows) => match spec_first_key(rows) {
            Ok(Some(found)) => issued.len() == 1 && key == Ok::<i64, StorageError>(found),
            Ok(None) => insertion(column, value, issued.skip(1), key),
            Err(_) => issued.len() == 1 && key matches Err(StorageError::NotAKey),
        },
        _ => issued.len() == 1 && key matches Err(StorageError::StatementFailed(_)),
    }
}

/// The column by which a performer is resolved: its name.
pub open spec fn performer_name() -> TableColumn {
    column_of(Table::Performers, Column::Name)
}

/// The column by which the album of a song is resolved: its name.
pub open spec fn album_name() -> TableColumn {
    column_of(Table::Albums, Column::Name)
}

/// What holds of the making of the row of `song`, where the first `first`
/// exchanges are those of its performer: the performer is resolved, then the
/// album, and the row holds their keys. Where a resolution fails, the making
/// of the row fails with it, and nothing more is handed to the store.
pub open spec fn song_valuing_at(
    song: MusicFile,
    issued: Seq<Exchange>,
    row: Result<SongRow, StorageError>,
    first: int,
) -> bool {
    &&& 0 <= first <= issued.len()
    &&& match row {
        Ok(row) => {
            &&& resolution(
                performer_name(),
                performer_of(song),
                issued.take(first),
                Ok(row.id_performer),
            )
            &&& resolution(album_name(), album_of(song), issued.skip(first), Ok(row.id_album))
            &&& is_row_of(row, song, row.id_performer, row.id_album)
        },
        Err(error) => {
            ||| first == issued.len() && resolution(
                performer_name(),
                performer_of(song),
                issued,
                Err(error),
            )
            ||| exists|performer: i64|
                {
                    &&& #[trigger] resolution(
                        performer_name(),
                        performer_of(song),
                        issued.take(first),
                        Ok(performer),
                    )
                    &&& resolution(album_name(), album_of(song), issued.skip(first), Err(error))
                }
        },
    }
}

/// What holds of the making of the row of `song`: its exchanges are those of
/// the resolution of its performer, followed by those of the resolution of
/// its album.
pub open spec fn song_valuing(
    song: MusicFile,
    issued: Seq<Exchange>,
    row: Result<SongRow, StorageError>,
) -> bool {
    exists|first: int| song_valuing_at(song, issued, row, first)
}

/// What holds of the insertion of `song`, where `row` is what the making of
/// its row gave, in the first `valued` exchanges: the row is inserted after
/// its performer and its album are resolved, and holds their keys.
pub open spec fn song_inserting_with(
    song: MusicFile,
    issued: Seq<Exchange>,
    saved: Result<(), StorageError>,
    row: Result<SongRow, StorageError>,
    valued: int,
) -> bool {
    &&& 0 <= valued <= issued.len()
    &&& song_valuing(song, issued.take(valued), row)
    &&& match row {
        Ok(row) => execution(song_insert_request(row), issued.skip(valued), saved),
        Err(error) => valued == issued.len() && saved == Err::<(), StorageError>(error),
    }
}

/// What holds of the insertion of `song`: its row is made, and where that
/// succeeds, the row is inserted.
pub open spec fn song_inserting(
    song: MusicFile,
    issued: Seq<Exchange>,
    saved: Result<(), StorageError>,
) -> bool {
    exists|row: Result<SongRow, StorageError>, valued: int|
        song_inserting_with(song, issued, saved, row, valued)
}

/// What holds of the saving of `song`: the store is asked for a song with
/// its title, and where it answers with none, and only there, the song is
/// inserted.
pub open spec fn song_saving(
    song: MusicFile,
    issued: Seq<Exchange>,
    saved: Result<(), StorageError>,
) -> bool {
    &&& issued.len() >= 1
    &&& issued[0].request == song_lookup_request(song)
    &&& match issued[0].answer {
        Answer::Rows(rows) => if rows.len() > 0 {
            issued.len() == 1 && saved is Ok
        } else {
            song_inserting(song, issued.skip(1), saved)
        },
        _ => issued.len() == 1 && saved matches Err(StorageError::StatementFailed(_)),
    }
}

/// What holds of an attempt to save `song`, on a database that is connected
/// or not.
pub open spec fn song_attempt(
    connected: bool,
    song: MusicFile,
    issued: Seq<Exchange>,
    saved: Result<(), StorageError>,
) -> bool {
    if connected {
        song_saving(song, issued, saved)
    } else {
        unconnected(issued, saved)
    }
}

/// Whether the store answered with at least one row.
pub open spec fn answers_with_row(answer: Answer) -> bool {
    answer matches Answer::Rows(rows) && rows.len() > 0
}

/// An album that the store knows already is not inserted again: where the
/// store answers the lookup with a row, the saving succeeds, and nothing but
/// the lookup is handed to the store.
pub proof fn lemma_known_album_is_kept(
    path: Seq<char>,
    issued: Seq<Exchange>,
    saved: Result<(), StorageError>,
)
    requires
        album_saving(path, issued, saved),
        answers_with_row(issued[0].answer),
    ensures
        issued.len() == 1,
        saved is Ok,
{
}

/// A song that the store knows already is not inserted again: where the
/// store answers the lookup of its title with a row, the saving succeeds, and
/// nothing but the lookup is handed to the store.
pub proof fn lemma_known_song_is_kept(
    song: MusicFile,
    issued: Seq<Exchange>,
    saved: Result<(), StorageError>,
)
    requires
        song_saving(song, issued, saved),
        answers_with_row(issued[0].answer),
    ensures
        issued.len() == 1,
        saved is Ok,
{
}

/// A value that the store knows already is resolved to the key that the
/// store answers with, and nothing is inserted.
pub proof fn lemma_known_value_is_resolved(
    column: TableColumn,
    value: Seq<char>,
    issued: Seq<Exchange>,
    key: Result<i64, StorageError>,
    found: i64,
)
    requires
        resolution(column, value, issued, key),
        issued[0].answer matches Answer::Rows(rows) && spec_first_key(rows) == Ok::<
            Option<i64>,
            StorageError,
        >(Some(found)),
    ensures
        issued.len() == 1,
        key == Ok::<i64, StorageError>(found),
{
}

/// A resolution inserts at most one row, and only after the store has
/// answered the lookup with no row.
pub proof fn lemma_resolution_inserts_once(
    column: TableColumn,
    value: Seq<char>,
    issued: Seq<Exchange>,
    key: Result<i64, StorageError>,
)
    requires
        resolution(column, value, issued, key),
    ensures
        1 <= issued.len() <= 3,
        issued[0].request == key_lookup_request(column, value),
        issued.len() > 1 ==> {
            &&& issued[0].answer matches Answer::Rows(rows) && spec_first_key(rows) == Ok::<
                Option<i64>,
                StorageError,
            >(None)
            &&& issued[1].request == key_insert_request(column, value)
        },
        issued.len() > 2 ==> issued[2].request == last_insert_id_request(),
{
    if issued.len() > 1 {
        assert(issued.skip(1)[0] == issued[1]);
    }
}

/// A song is inserted after its performer and its album are resolved: where
/// the store does not know the song and the saving succeeds, the last thing
/// that is handed to the store is the insertion of the row of the song, and
/// at least the lookup of the song and two resolutions come before it.
pub proof fn lemma_song_is_inserted_last(
    song: MusicFile,
    issued: Seq<Exchange>,
    saved: Result<(), StorageError>,
)
    requires
        song_saving(song, issued, saved),
        saved is Ok,
        issued[0].answer matches Answer::Rows(rows) && rows.len() == 0,
    ensures
        issued.len() >= 4,
        issued.last().answer == Answer::Done,
        exists|row: SongRow|
            {
                &&& #[trigger] is_row_of(row, song, row.id_performer, row.id_album)
                &&& issued.last().request == song_insert_request(row)
            },
{
    let rest = issued.skip(1);
    let (made, valued) = choose|made: Result<SongRow, StorageError>, valued: int|
        song_inserting_with(song, rest, saved, made, valued);
    let first = choose|first: int| song_valuing_at(song, rest.take(valued), made, first);
    assert(rest.take(valued).len() >= first + 1 >= 2);
    assert(rest.skip(valued)[0] == issued.last());
    assert(is_row_of(made->Ok_0, song, made->Ok_0.id_performer, made->Ok_0.id_album));
}

/// Exchanges follow one another: what a database has issued since `earlier` is
/// what `middle` had issued since `earlier`, followed by what it has issued
/// since `middle`.
pub proof fn lemma_continues(earlier: MusicDatabase, middle: MusicDatabase, last: MusicDatabase)
    requires
        middle.extends(&earlier),
        last.extends(&middle),
    ensures
        last.extends(&earlier),
        last.issued_since(&earlier) == middle.issued_since(&earlier) + last.issued_since(&middle),
        middle.continues(&earlier) && last.continues(&middle) ==> last.continues(&earlier),
{
    let first = earlier.journal().len() as int;
    let second = middle.journal().len() as int;
    assert(last.journal().take(first) =~= last.journal().take(second).take(first));
}

impl MusicDatabase {
    /// Tries to connect to the SQLite database at `database_path`. Where
    /// nothing is found there, the database is created and `schema`, a script
    /// of SQL statements, is run on it. Nothing else is handed to the store.
    ///
    /// The database is connected afterwards if and only if this succeeded.
    pub fn connect(&mut self, schema: &str) -> (connected: Result<(), StorageError>)
        ensures
            final(self).same_settings(old(self)),
            final(self).extends(old(self)),
            connected is Ok <==> final(self).is_connected(),
            connected matches Err(error) ==> error is ConnectionFailed,
            final(self).issued_since(old(self)).len() <= 1,
            final(self).issued_since(old(self)).len() == 1 ==> execution_of_script(
                schema@,
                final(self).issued_since(old(self))[0],
                connected,
            ),
    {
        proof {
            self.lemma_nothing_issued();
        }
        let path = self.database_path();
        let existed = path_exists(path.as_str());
        match open_store(path.as_str()) {
            Ok(connection) => self.bootstrap(existed, connection, schema),
            Err(error) => {
                self.connection = None;
                Err(StorageError::ConnectionFailed(fault_of(error)))
            },
        }
    }

    /// Takes up `connection`, the store as it was opened. Where the store
    /// existed before it was opened, nothing is handed to it, and the
    /// database is connected. Where it did not, `schema`, the script that
    /// makes the tables of the catalog, is run on it, once, and the database
    /// is connected if and only if the store runs the script to its end.
    pub fn bootstrap(
        &mut self,
        existed: bool,
        connection: sqlite::Connection,
        schema: &str,
    ) -> (connected: Result<(), StorageError>)
        ensures
            final(self).same_settings(old(self)),
            final(self).extends(old(self)),
            connected is Ok <==> final(self).is_connected(),
            connected matches Err(error) ==> error is ConnectionFailed,
            existed ==> connected is Ok && final(self).issued_since(old(self)).len() == 0,
            !existed ==> final(self).issued_since(old(self)).len() == 1 && execution_of_script(
                schema@,
                final(self).issued_since(old(self))[0],
                connected,
            ),
    {
        proof {
            self.lemma_nothing_issued();
        }
        if !existed {
            let done = run_script(&connection, schema);
            let ghost answer = if done is Ok {
                Answer::Done
            } else {
                Answer::Refused
            };
            self.record(Ghost(Exchange { request: script_request(schema@), answer }));
            match done {
                Ok(()) => {},
                Err(error) => {
                    self.connection = None;
                    return Err(StorageError::ConnectionFailed(fault_of(error)));
                },
            }
        }
        self.connection = Some(connection);
        Ok(())
    }

    /// Returns the active connection, if exists.
    pub fn connection(&self) -> (connection: Result<&sqlite::Connection, StorageError>)
        ensures
            connection is Ok <==> self.is_connected(),
            connection matches Err(error) ==> error is NotConnected,
    {
        match &self.connection {
            Some(connection) => Ok(connection),
            None => Err(StorageError::NotConnected),
        }
    }

    /// Executes an SQL statement.
    ///
    /// The names of the statement's columns are read as UTF-8, in which
    /// SQLite hands them out: the operation rests on this.
    pub fn execute(&mut self, statement: &Query) -> (done: Result<(), StorageError>)
        ensures
            final(self).continues(old(self)),
            if old(self).is_connected() {
                execution(statement@, final(self).issued_since(old(self)), done)
            } else {
                unconnected(final(self).issued_since(old(self)), done)
            },
    {
        let done = match &self.connection {
            Some(connection) => run(connection, statement),
            None => {
                assert(self.journal().take(self.journal().len() as int) =~= self.journal());
                return Err(StorageError::NotConnected);
            },
        };
        let ghost answer = if done is Ok {
            Answer::Done
        } else {
            Answer::Refused
        };
        self.record(Ghost(Exchange { request: statement@, answer }));
        done
    }

    /// Executes an SQL statement, and returns the resulting rows. Of each row
    /// it gives as many values as the statement has columns: an integer where
    /// the column holds one, nothing where it holds `NULL`, and otherwise
    /// what the column holds as text.
    ///
    /// The names of the statement's columns are read as UTF-8, in which
    /// SQLite hands them out: the operation rests on this.
    pub fn query(&mut self, statement: &Query) -> (rows: Result<Vec<Vec<Value>>, StorageError>)
        ensures
            final(self).continues(old(self)),
            rows matches Ok(found) ==> rectangular(found@),
            if old(self).is_connected() {
                inquiry(statement@, final(self).issued_since(old(self)), rows)
            } else {
                unconnected(final(self).issued_since(old(self)), rows)
            },
    {
        let rows = match &self.connection {
            Some(connection) => rows_of(connection, statement),
            None => {
                assert(self.journal().take(self.journal().len() as int) =~= self.journal());
                return Err(StorageError::NotConnected);
            },
        };
        let ghost answer = if rows is Ok {
            Answer::Rows(table(rows->Ok_0@))
        } else {
            Answer::Refused
        };
        self.record(Ghost(Exchange { request: statement@, answer }));
        rows
    }

    /// Writes an exchange into the journal.
    fn record(&mut self, Ghost(exchange): Ghost<Exchange>)
        ensures
            final(self).continues(old(self)),
            final(self).issued_since(old(self)) == seq![exchange],
            final(self).journal() == old(self).journal().push(exchange),
    {
        let ghost before = self.journal@;
        self.journal = Ghost(self.journal@.push(exchange));
        assert(self.journal@.take(before.len() as int) =~= before);
    }
}

impl MusicDatabase {
    /// What holds of a database that has handed nothing to the store.
    pub proof fn lemma_nothing_issued(self)
        ensures
            self.continues(&self),
            self.issued_since(&self).len() == 0,
    {
        assert(self.journal().take(self.journal().len() as int) =~= self.journal());
    }

    /// Returns all the songs in database, by title: of each its title,
    /// performer, album and genre.
    pub fn songs(&mut self) -> (songs: Result<Vec<SongInfo>, StorageError>)
        ensures
            final(self).continues(old(self)),
            if old(self).is_connected() {
                listing(songs_listing_request(), final(self).issued_since(old(self)), songs)
            } else {
                unconnected(final(self).issued_since(old(self)), songs)
            },
    {
        match self.query(&songs_listing()) {
            Ok(rows) => Ok(listed(&rows)),
            Err(error) => Err(error),
        }
    }

    /// Checks if the given album exists in database: whether the catalog
    /// holds an album with exactly this path.
    pub fn album_in_database(&mut self, album: &str) -> (found: Result<bool, StorageError>)
        ensures
            final(self).continues(old(self)),
            if old(self).is_connected() {
                lookup(album_lookup_request(album@), final(self).issued_since(old(self)), found)
            } else {
                unconnected(final(self).issued_since(old(self)), found)
            },
    {
        match self.query(&key_lookup(TableColumn::new(Table::Albums, Column::Path), album)) {
            Ok(rows) => Ok(rows.len() > 0),
            Err(error) => Err(error),
        }
    }

    /// Checks if the given song exists in database: whether the catalog holds
    /// a song with the title of this song, or with the title `Unknown` where
    /// this song has none.
    pub fn song_in_database(&mut self, song: &MusicFile) -> (found: Result<bool, StorageError>)
        ensures
            final(self).continues(old(self)),
            if old(self).is_connected() {
                lookup(song_lookup_request(*song), final(self).issued_since(old(self)), found)
            } else {
                unconnected(final(self).issued_since(old(self)), found)
            },
    {
        let title = text_or_default(song.title(), "Unknown");
        match self.query(
            &key_lookup(TableColumn::new(Table::Rolas, Column::Title), title.as_str()),
        ) {
            Ok(rows) => Ok(rows.len() > 0),
            Err(error) => Err(error),
        }
    }

    /// Given an album path, creates a new album entry in the database, unless
    /// the catalog holds an album with this path already.
    pub fn save_album(&mut self, album: &str) -> (saved: Result<(), StorageError>)
        ensures
            final(self).continues(old(self)),
            album_attempt(
                old(self).is_connected(),
                album@,
                final(self).issued_since(old(self)),
                saved,
            ),
    {
        let ghost start = *self;
        let found = match self.album_in_database(album) {
            Ok(found) => found,
            Err(error) => {
                return Err(error);
            },
        };
        if found {
            return Ok(());
        }
        let ghost middle = *self;
        let saved = self.execute(&album_insert(album));
        proof {
            lemma_continues(start, middle, *self);
        }
        saved
    }

    /// Given the table, column and value, creates the corresponding new entry in the database,
    /// and returns its key.
    ///
    /// `table` names a row of the table (`rola`, `performer`, `album`).
    /// Where the catalog has no such table, or the table no such column,
    /// nothing is handed to the store.
    pub fn insert_and_get_id(&mut self, table: &str, column: &str, column_value: &str) -> (key:
        Result<i64, StorageError>)
        ensures
            final(self).continues(old(self)),
            match TableColumn::spec_from_str(table@, column@) {
                None => final(self).issued_since(old(self)).len() == 0 && key matches Err(
                    StorageError::UnknownColumn,
                ),
                Some(column) => if old(self).is_connected() {
                    insertion(column, column_value@, final(self).issued_since(old(self)), key)
                } else {
                    unconnected(final(self).issued_since(old(self)), key)
                },
            },
    {
        proof {
            self.lemma_nothing_issued();
        }
        let column = match TableColumn::from_str(table, column) {
            Some(column) => column,
            None => {
                return Err(StorageError::UnknownColumn);
            },
        };
        if !self.is_active() {
            return Err(StorageError::NotConnected);
        }
        self.insert_key(column, column_value)
    }

    /// Inserts a row that holds `value` in `column`, and asks for its key.
    fn insert_key(&mut self, column: TableColumn, value: &str) -> (key: Result<i64, StorageError>)
        requires
            old(self).is_connected(),
        ensures
            final(self).continues(old(self)),
            insertion(column, value@, final(self).issued_since(old(self)), key),
    {
        let ghost start = *self;
        match self.execute(&key_insert(column, value)) {
            Ok(()) => {},
            Err(error) => {
                return Err(error);
            },
        }
        let ghost middle = *self;
        let rows = self.query(&last_insert_id());
        proof {
            lemma_continues(start, middle, *self);
        }
        match rows {
            Ok(rows) => inserted_key(&rows),
            Err(error) => Err(error),
        }
    }

    /// Given the table, column and value, returns the corresponding row id.
    /// If the value does not exists in database, it is inserted.
    ///
    /// `table` names a row of the table (`rola`, `performer`, `album`).
    /// Where the catalog has no such table, or the table no such column,
    /// nothing is handed to the store.
    pub fn foreign_key(&mut self, table: &str, column: &str, column_value: &str) -> (key: Result<
        i64,
        StorageError,
    >)
        ensures
            final(self).continues(old(self)),
            match TableColumn::spec_from_str(table@, column@) {
                None => final(self).issued_since(old(self)).len() == 0 && key matches Err(
                    StorageError::UnknownColumn,
                ),
                Some(column) => if old(self).is_connected() {
                    resolution(column, column_value@, final(self).issued_since(old(self)), key)
                } else {
                    unconnected(final(self).issued_since(old(self)), key)
                },
            },
    {
        proof {
            self.lemma_nothing_issued();
        }
        let column = match TableColumn::from_str(table, column) {
            Some(column) => column,
            None => {
                return Err(StorageError::UnknownColumn);
            },
        };
        if !self.is_active() {
            return Err(StorageError::NotConnected);
        }
        self.resolve(column, column_value)
    }

    /// The key of the row that holds `value` in `column`: that of the first
    /// such row that the catalog holds, or that of a new one.
    fn resolve(&mut self, column: TableColumn, value: &str) -> (key: Result<i64, StorageError>)
        requires
            old(self).is_connected(),
        ensures
            final(self).continues(old(self)),
            resolution(column, value@, final(self).issued_since(old(self)), key),
    {
        let ghost start = *self;
        let rows = match self.query(&key_lookup(column, value)) {
            Ok(rows) => rows,
            Err(error) => {
                return Err(error);
            },
        };
        match first_key(&rows) {
            Ok(Some(key)) => Ok(key),
            Ok(None) => {
                let ghost middle = *self;
                let key = self.insert_key(column, value);
                proof {
                    lemma_continues(start, middle, *self);
                }
                key
            },
            Err(error) => Err(error),
        }
    }

    /// Given a music file, returns the row to be inserted in the database:
    /// the song with the keys of its performer and its album, each looked up
    /// by name and created where the catalog does not hold it. A performer or
    /// an album that the tag does not give is called `Unknown`.
    pub fn song_as_values(&mut self, song: &MusicFile) -> (row: Result<SongRow, StorageError>)
        ensures
            final(self).continues(old(self)),
            if old(self).is_connected() {
                song_valuing(*song, final(self).issued_since(old(self)), row)
            } else {
                unconnected(final(self).issued_since(old(self)), row)
            },
    {
        proof {
            self.lemma_nothing_issued();
        }
        if !self.is_active() {
            return Err(StorageError::NotConnected);
        }
        let ghost start = *self;
        let performer = text_or_default(song.artist(), "Unknown");
        let id_performer = match self.resolve(
            TableColumn::new(Table::Performers, Column::Name),
            performer.as_str(),
        ) {
            Ok(key) => key,
            Err(error) => {
                proof {
                    let issued = self.issued_since(&start);
                    assert(song_valuing_at(*song, issued, Err(error), issued.len() as int));
                }
                return Err(error);
            },
        };
        let ghost middle = *self;
        let album = text_or_default(song.album(), "Unknown");
        let resolved = self.resolve(
            TableColumn::new(Table::Albums, Column::Name),
            album.as_str(),
        );
        proof {
            lemma_continues(start, middle, *self);
        }
        match resolved {
            Ok(id_album) => {
                let row = SongRow::new(song, id_performer, id_album);
                proof {
                    let issued = self.issued_since(&start);
                    let first = middle.issued_since(&start).len() as int;
                    assert(song_valuing_at(*song, issued, Ok(row), first));
                }
                Ok(row)
            },
            Err(error) => {
                proof {
                    let issued = self.issued_since(&start);
                    let first = middle.issued_since(&start).len() as int;
                    assert(resolution(
                        performer_name(),
                        performer_of(*song),
                        issued.take(first),
                        Ok(id_performer),
                    ));
                    assert(song_valuing_at(*song, issued, Err(error), first));
                }
                Err(error)
            },
        }
    }

    /// Given a music file, creates a new "rolas" entry in the database, storing it performer
    /// and album, unless the catalog holds a song with this title already.
    pub fn save_song(&mut self, song: &MusicFile) -> (saved: Result<(), StorageError>)
        ensures
            final(self).continues(old(self)),
            song_attempt(
                old(self).is_connected(),
                *song,
                final(self).issued_since(old(self)),
                saved,
            ),
    {
        let ghost start = *self;
        let found = match self.song_in_database(song) {
            Ok(found) => found,
            Err(error) => {
                return Err(error);
            },
        };
        if found {
            return Ok(());
        }
        let ghost middle = *self;
        let row = self.song_as_values(song);
        let ghost valued = *self;
        let ghost made = row;
        proof {
            lemma_continues(start, middle, valued);
        }
        match row {
            Ok(row) => {
                let saved = self.execute(&song_insert(&row));
                proof {
                    lemma_continues(middle, valued, *self);
                    lemma_continues(start, middle, *self);
                    let issued = self.issued_since(&middle);
                    let count = valued.issued_since(&middle).len() as int;
                    assert(issued.take(count) =~= valued.issued_since(&middle));
                    assert(song_inserting_with(*song, issued, saved, made, count));
                    assert(self.issued_since(&start).skip(1) =~= issued);
                }
                saved
            },
            Err(error) => {
                proof {
                    let issued = self.issued_since(&middle);
                    assert(issued.take(issued.len() as int) =~= issued);
                    assert(song_inserting_with(
                        *song,
                        issued,
                        Err::<(), StorageError>(error),
                        made,
                        issued.len() as int,
                    ));
                    assert(self.issued_since(&start).skip(1) =~= issued);
                }
                Err(error)
            },
        }
    }

    /// Given an SQL statement, returns the resulting rows of the query as a strings vector:
    /// the texts of their first column.
    ///
    /// The names of the statement's columns are read as UTF-8, in which
    /// SQLite hands them out: the operation rests on this.
    pub fn search_songs(&mut self, statement: &Query) -> (titles: Result<Vec<String>, StorageError>)
        ensures
            final(self).continues(old(self)),
            if old(self).is_connected() {
                search(statement@, final(self).issued_since(old(self)), titles)
            } else {
                unconnected(final(self).issued_since(old(self)), titles)
            },
    {
        match self.query(statement) {
            Ok(rows) => Ok(first_texts(&rows)),
            Err(error) => Err(error),
        }
    }
}

} // verus!
