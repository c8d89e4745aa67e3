use id3::TagLike;
use music_player_rs::music_manager::music_file::MusicFile;
use music_player_rs::music_manager::music_file::Timestamp;

fn tagged(build: &dyn Fn(&mut id3::Tag)) -> Vec<u8> {
    let mut tag = id3::Tag::new();
    build(&mut tag);
    let mut bytes = Vec::new();
    tag.write_to(&mut bytes, id3::Version::Id3v24).unwrap();
    bytes.extend_from_slice(&[0xFF, 0xFB, 0x90, 0x00, 0, 0, 0, 0]);
    bytes
}

#[test]
fn from_path_reads_the_fields_of_the_tag() {
    let bytes = tagged(&|tag| {
        tag.set_artist("Radiohead");
        tag.set_title("Paranoid Android");
        tag.set_album("OK Computer");
        tag.set_genre("Rock");
        tag.set_track(2);
        tag.set_date_recorded(id3::Timestamp {
            year: 1997,
            month: Some(5),
            day: Some(26),
            hour: None,
            minute: None,
            second: None,
        });
    });
    let file = MusicFile::from_path("root/OK Computer/02.mp3", &bytes).unwrap();
    assert_eq!(file.path(), "root/OK Computer/02.mp3");
    assert_eq!(file.artist(), &Some("Radiohead".to_string()));
    assert_eq!(file.title(), &Some("Paranoid Android".to_string()));
    assert_eq!(file.album(), &Some("OK Computer".to_string()));
    assert_eq!(file.genre(), &Some("Rock".to_string()));
    assert_eq!(file.track(), &Some(2));
    assert_eq!(
        file.date_recorded(),
        &Some(Timestamp {
            year: 1997,
            month: Some(5),
            day: Some(26),
            hour: None,
            minute: None,
            second: None
        })
    );
}

#[test]
fn from_path_leaves_out_what_the_tag_lacks() {
    let bytes = tagged(&|tag| {
        tag.set_title("Creep");
    });
    let file = MusicFile::from_path("a.mp3", &bytes).unwrap();
    assert_eq!(file.title(), &Some("Creep".to_string()));
    assert_eq!(file.artist(), &None);
    assert_eq!(file.album(), &None);
    assert_eq!(file.genre(), &None);
    assert_eq!(file.track(), &None);
    assert_eq!(file.date_recorded(), &None);
}

#[test]
fn from_path_keeps_fields_apart() {
    let bytes = tagged(&|tag| {
        tag.set_artist("A");
        tag.set_album("B");
        tag.set_genre("C");
    });
    let file = MusicFile::from_path("a.mp3", &bytes).unwrap();
    assert_eq!(file.artist(), &Some("A".to_string()));
    assert_eq!(file.album(), &Some("B".to_string()));
    assert_eq!(file.genre(), &Some("C".to_string()));
    assert_eq!(file.title(), &None);
}

#[test]
fn from_path_fails_without_a_tag() {
    assert!(MusicFile::from_path("a.mp3", b"not a tag at all").is_err());
    assert!(MusicFile::from_path("a.mp3", &[]).is_err());
    let error = MusicFile::from_path("a.mp3", &[0u8; 64]).unwrap_err();
    assert!(!error.description.is_empty());
}

#[test]
fn new_keeps_what_it_is_given() {
    let file = MusicFile::new(
        "p".to_string(),
        Some("a".to_string()),
        None,
        Some("c".to_string()),
        None,
        Some("g".to_string()),
        Some(7),
    );
    assert_eq!(file.path(), "p");
    assert_eq!(file.artist(), &Some("a".to_string()));
    assert_eq!(file.title(), &None);
    assert_eq!(file.album(), &Some("c".to_string()));
    assert_eq!(file.date_recorded(), &None);
    assert_eq!(file.genre(), &Some("g".to_string()));
    assert_eq!(file.track(), &Some(7));
}
