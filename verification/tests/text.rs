use music_player_rs::music_manager::text::child_path;
use music_player_rs::music_manager::text::file_name_of;
use music_player_rs::music_manager::text::has_music_extension;
use music_player_rs::music_manager::text::is_whitespace_char;
use music_player_rs::music_manager::text::join_with;
use music_player_rs::music_manager::text::same_text;
use music_player_rs::music_manager::text::split_whitespace;
use music_player_rs::music_manager::text::text_or_default;

#[test]
fn whitespace_is_what_std_calls_whitespace() {
    let mut code = 0u32;
    while code <= 0x3100 {
        if let Some(c) = char::from_u32(code) {
            assert_eq!(is_whitespace_char(c), c.is_whitespace(), "U+{:04X}", code);
        }
        code += 1;
    }
    assert!(!is_whitespace_char('\u{FEFF}'));
    assert!(!is_whitespace_char('\u{10FFFF}'));
}

#[test]
fn split_whitespace_gives_the_words() {
    let words = split_whitespace("  T:   Paranoid\tAndroid \u{3000}\n");
    assert_eq!(words, vec!["T:".to_string(), "Paranoid".to_string(), "Android".to_string()]);
}

#[test]
fn split_whitespace_agrees_with_std() {
    for text in ["", " ", "a", " a", "a ", "a  b", "ñandú  über\u{2003}x", "\ta\nb\rc\u{85}d"] {
        let expected: Vec<String> = text.split_whitespace().map(str::to_string).collect();
        assert_eq!(split_whitespace(text), expected, "{:?}", text);
    }
}

#[test]
fn split_whitespace_of_blank_text_is_empty() {
    assert!(split_whitespace("").is_empty());
    assert!(split_whitespace(" \t \n").is_empty());
}

#[test]
fn music_files_end_in_mp3() {
    assert!(has_music_extension("song.mp3"));
    assert!(has_music_extension("root/AlbumA/song1.mp3"));
    assert!(has_music_extension("a.b.mp3"));
    assert!(has_music_extension("..mp3"));
    assert!(has_music_extension("ñ.mp3"));
}

#[test]
fn other_files_are_no_music_files() {
    assert!(!has_music_extension("notes.txt"));
    assert!(!has_music_extension("song.MP3"));
    assert!(!has_music_extension("song.Mp3"));
    assert!(!has_music_extension("song.mp3 "));
    assert!(!has_music_extension("song.mp4"));
    assert!(!has_music_extension("songmp3"));
    assert!(!has_music_extension(".mp3"));
    assert!(!has_music_extension("root/.mp3"));
    assert!(!has_music_extension("mp3"));
    assert!(!has_music_extension(""));
    assert!(!has_music_extension("song.mp3/cover"));
}

#[test]
fn file_name_is_the_last_component() {
    assert_eq!(file_name_of("root/AlbumA"), "AlbumA");
    assert_eq!(file_name_of("/home/user/Music/OK Computer"), "OK Computer");
    assert_eq!(file_name_of("AlbumA"), "AlbumA");
    assert_eq!(file_name_of("root/"), "root");
    assert_eq!(file_name_of("root/AlbumA/"), "AlbumA");
    assert_eq!(file_name_of("root/AlbumA//"), "AlbumA");
    assert_eq!(file_name_of("/"), "");
    assert_eq!(file_name_of("//"), "");
    assert_eq!(file_name_of(""), "");
    assert_eq!(file_name_of("a/ñ"), "ñ");
}

#[test]
fn child_path_puts_one_separator() {
    assert_eq!(child_path("/home/user", "Music"), "/home/user/Music");
    assert_eq!(child_path("/home/user/", "Music"), "/home/user/Music");
    assert_eq!(child_path("/", "Music"), "/Music");
    assert_eq!(child_path("", "Music"), "Music");
}

#[test]
fn join_with_puts_the_separator_between() {
    let parts = vec!["a".to_string(), "b".to_string(), "c".to_string()];
    assert_eq!(join_with(&parts, ", "), "a, b, c");
    assert_eq!(join_with(&parts[..1].to_vec(), ", "), "a");
    assert_eq!(join_with(&Vec::new(), ", "), "");
}

#[test]
fn same_text_compares_characters() {
    assert!(same_text("T:", "T:"));
    assert!(!same_text("T:", "t:"));
    assert!(!same_text("T:", "T"));
    assert!(same_text("", ""));
}

#[test]
fn text_or_default_fills_in() {
    assert_eq!(text_or_default(&Some("Creep".to_string()), "Unknown"), "Creep");
    assert_eq!(text_or_default(&Some(String::new()), "Unknown"), "");
    assert_eq!(text_or_default(&None, "Unknown"), "Unknown");
}
