use vstd::prelude::*;
use vstd::string::*;
use id3::TagLike;
use super::text::text_of;

verus! {

/// The moment at which a song was recorded, as precise as its tag tells.
#[derive(Clone, Copy, Debug, PartialEq, Eq)]
pub struct Timestamp {
    pub year: i32,
    pub month: Option<u8>,
    pub day: Option<u8>,
    pub hour: Option<u8>,
    pub minute: Option<u8>,
    pub second: Option<u8>,
}

/// Why a file gave no music file: the reason that the tag decoder states.
#[derive(Clone, Debug)]
pub struct MetadataError {
    pub description: String,
}

/// A music file has the music file path and the important information about a song, such as
/// artist, title, album, etc.
#[derive(Clone, Debug)]
pub struct MusicFile {
    path: String,
    artist: Option<String>,
    title: Option<String>,
    album: Option<String>,
    date_recorded: Option<Timestamp>,
    genre: Option<String>,
    track: Option<u32>,
}

/// What the tag of a file tells of its song.
#[derive(Clone, Debug)]
pub struct Metadata {
    pub artist: Option<String>,
    pub title: Option<String>,
    pub album: Option<String>,
    pub date_recorded: Option<Timestamp>,
    pub genre: Option<String>,
    pub track: Option<u32>,
}

/// Whether `id3::Tag::read_from2` finds a tag in a file that holds
/// `contents`.
pub uninterp spec fn decodes(contents: Seq<u8>) -> bool;

/// What `id3::TagLike::artist` gives of the tag of a file that holds
/// `contents`.
pub uninterp spec fn decoded_artist(contents: Seq<u8>) -> Option<Seq<char>>;

/// What `id3::TagLike::title` gives of the tag of a file that holds
/// `contents`.
pub uninterp spec fn decoded_title(contents: Seq<u8>) -> Option<Seq<char>>;

/// What `id3::TagLike::album` gives of the tag of a file that holds
/// `contents`.
pub uninterp spec fn decoded_album(contents: Seq<u8>) -> Option<Seq<char>>;

/// What `id3::TagLike::date_recorded` gives of the tag of a file that holds
/// `contents`.
pub uninterp spec fn decoded_date(contents: Seq<u8>) -> Option<Timestamp>;

/// What `id3::TagLike::genre` gives of the tag of a file that holds
/// `contents`.
pub uninterp spec fn decoded_genre(contents: Seq<u8>) -> Option<Seq<char>>;

/// What `id3::TagLike::track` gives of the tag of a file that holds
/// `contents`.
pub uninterp spec fn decoded_track(contents: Seq<u8>) -> Option<u32>;

/// Whether `file` is the music file at `path` that holds `contents`: it has
/// this path, and of its song it tells what the decoder finds in the
/// contents.
pub open spec fn is_file_of(file: MusicFile, path: Seq<char>, contents: Seq<u8>) -> bool {
    &&& file.spec_path() == path
    &&& file.spec_artist() == decoded_artist(contents)
    &&& file.spec_title() == decoded_title(contents)
    &&& file.spec_album() == decoded_album(contents)
    &&& file.spec_date_recorded() == decoded_date(contents)
    &&& file.spec_genre() == decoded_genre(contents)
    &&& file.spec_track() == decoded_track(contents)
}

/// `id3::Tag::read_from2` on the bytes of a file, and the `id3::TagLike`
/// methods `artist`, `title`, `album`, `date_recorded`, `genre` and `track`
/// on the tag that it gives. The decoder reads nothing but the bytes, so
/// what it finds is named after them: whether there is a tag, and what each
/// method gives of it. Where there is no tag, the description of the
/// decoder's error is handed on.
#[verifier::external_body]
fn decode_tag(contents: &[u8]) -> (decoded: Result<Metadata, String>)
    ensures
        decoded is Ok <==> decodes(contents@),
        decoded matches Ok(found) ==> text_of(found.artist) == decoded_artist(contents@),
        decoded matches Ok(found) ==> text_of(found.title) == decoded_title(contents@),
        decoded matches Ok(found) ==> text_of(found.album) == decoded_album(contents@),
        decoded matches Ok(found) ==> found.date_recorded == decoded_date(contents@),
        decoded matches Ok(found) ==> text_of(found.genre) == decoded_genre(contents@),
        decoded matches Ok(found) ==> found.track == decoded_track(contents@),
{
    let tag = id3::Tag::read_from2(std::io::Cursor::new(contents)).map_err(|e| e.description)?;
    Ok(Metadata {
        artist: tag.artist().map(str::to_string),
        title: tag.title().map(str::to_string),
        album: tag.album().map(str::to_string),
        date_recorded: tag.date_recorded().map(
            |d| Timestamp::new(d.year, d.month, d.day, d.hour, d.minute, d.second),
        ),
        genre: tag.genre().map(str::to_string),
        track: tag.track(),
    })
}

impl Timestamp {
    /// A timestamp of the given fields.
    pub fn new(
        year: i32,
        month: Option<u8>,
        day: Option<u8>,
        hour: Option<u8>,
        minute: Option<u8>,
        second: Option<u8>,
    ) -> (timestamp: Timestamp)
        ensures
            timestamp == (Timestamp { year, month, day, hour, minute, second }),
    {
        Timestamp { year, month, day, hour, minute, second }
    }
}

impl MusicFile {
    /// The music file's path.
    pub closed spec fn spec_path(&self) -> Seq<char> {
        self.path@
    }

    /// The music file's artist, if the tag gives one.
    pub closed spec fn spec_artist(&self) -> Option<Seq<char>> {
        text_of(self.artist)
    }

    /// The music file's title, if the tag gives one.
    pub closed spec fn spec_title(&self) -> Option<Seq<char>> {
        text_of(self.title)
    }

    /// The music file's album, if the tag gives one.
    pub closed spec fn spec_album(&self) -> Option<Seq<char>> {
        text_of(self.album)
    }

    /// The music file's date of recording, if the tag gives one.
    pub closed spec fn spec_date_recorded(&self) -> Option<Timestamp> {
        self.date_recorded
    }

    /// The music file's genre, if the tag gives one.
    pub closed spec fn spec_genre(&self) -> Option<Seq<char>> {
        text_of(self.genre)
    }

    /// The music file's track number, if the tag gives one.
    pub closed spec fn spec_track(&self) -> Option<u32> {
        self.track
    }

    /// Creates a music file from what a tag decoder found in the file at
    /// `path`.
    pub fn new(
        path: String,
        artist: Option<String>,
        title: Option<String>,
        album: Option<String>,
        date_recorded: Option<Timestamp>,
        genre: Option<String>,
        track: Option<u32>,
    ) -> (file: MusicFile)
        ensures
            file.spec_path() == path@,
            file.spec_artist() == text_of(artist),
            file.spec_title() == text_of(title),
            file.spec_album() == text_of(album),
            file.spec_date_recorded() == date_recorded,
            file.spec_genre() == text_of(genre),
            file.spec_track() == track,
    {
        MusicFile { path, artist, title, album, date_recorded, genre, track }
    }

    /// Creates a new instance of a music file given the path of the file and
    /// the bytes that the file holds. It fails where the bytes hold no ID3 tag
    /// that the decoder finds, and only there; else the music file tells what
    /// the decoder finds in the tag.
    pub fn from_path(path: &str, contents: &[u8]) -> (file: Result<MusicFile, MetadataError>)
        ensures
            file is Ok <==> decodes(contents@),
            file matches Ok(found) ==> is_file_of(found, path@, contents@),
    {
        match decode_tag(contents) {
            Ok(found) => Ok(
                MusicFile::new(
                    String::from_str(path),
                    found.artist,
                    found.title,
                    found.album,
                    found.date_recorded,
                    found.genre,
                    found.track,
                ),
            ),
            Err(description) => Err(MetadataError { description }),
        }
    }

    /// Returns the music file's path.
    pub fn path(&self) -> (path: String)
        ensures
            path@ == self.spec_path(),
    {
        self.path.clone()
    }

    /// Returns the music file's artist.
    pub fn artist(&self) -> (artist: &Option<String>)
        ensures
            text_of(*artist) == self.spec_artist(),
    {
        &self.artist
    }

    /// Returns the music file's title.
    pub fn title(&self) -> (title: &Option<String>)
        ensures
            text_of(*title) == self.spec_title(),
    {
        &self.title
    }

    /// Returns the music file's album.
    pub fn album(&self) -> (album: &Option<String>)
        ensures
            text_of(*album) == self.spec_album(),
    {
        &self.album
    }

    /// Returns the music file's date_recorded.
    pub fn date_recorded(&self) -> (date: &Option<Timestamp>)
        ensures
            *date == self.spec_date_recorded(),
    {
        &self.date_recorded
    }

    /// Returns the music file's genre.
    pub fn genre(&self) -> (genre: &Option<String>)
        ensures
            text_of(*genre) == self.spec_genre(),
    {
        &self.genre
    }

    /// Returns the music file's track.
    pub fn track(&self) -> (track: &Option<u32>)
        ensures
            *track == self.spec_track(),
    {
        &self.track
    }
}

} // verus!
