use transcoder::paths::FileAction;
use transcoder::paths::converted_file_path;
use transcoder::paths::decide_file_action;
use transcoder::paths::get_target_directory;
use transcoder::paths::relative_path_of;

#[test]
fn flac_files_classify_as_convert() {
    assert_eq!(decide_file_action(&String::from("/music/a.flac")), FileAction::Convert);
    assert_eq!(decide_file_action(&String::from(".flac")), FileAction::Convert);
}

#[test]
fn other_files_classify_as_copy() {
    assert_eq!(decide_file_action(&String::from("/music/b.txt")), FileAction::Copy);
    assert_eq!(decide_file_action(&String::from("/music/a.FLAC")), FileAction::Copy);
    assert_eq!(decide_file_action(&String::from("flac")), FileAction::Copy);
    assert_eq!(decide_file_action(&String::from("")), FileAction::Copy);
    assert_eq!(decide_file_action(&String::from("a.flac.bak")), FileAction::Copy);
}

#[test]
fn target_directory_is_parent_of_destination() {
    let dir = get_target_directory(String::from("/dest"), &String::from("/sub/f.txt"));
    assert_eq!(dir, String::from("/dest/sub"));
}

#[test]
fn target_directory_without_separator_is_empty() {
    let dir = get_target_directory(String::from("dest"), &String::from("f.txt"));
    assert_eq!(dir, String::from(""));
}

#[test]
fn converted_path_rewrites_extension_to_mp3() {
    let out = converted_file_path(&String::from("/out"), &String::from("/a.flac"));
    assert_eq!(out, String::from("/out/a.mp3"));
    let out = converted_file_path(&String::from("/out"), &String::from("/x/track.flac"));
    assert_eq!(out, String::from("/out/x/track.mp3"));
}

#[test]
fn converted_path_appends_extension_when_none() {
    let out = converted_file_path(&String::from("/out"), &String::from("/noext"));
    assert_eq!(out, String::from("/out/noext.mp3"));
}

#[test]
fn converted_path_keeps_hidden_file_names() {
    let out = converted_file_path(&String::from("/out"), &String::from("/.config"));
    assert_eq!(out, String::from("/out/.config.mp3"));
}

#[test]
fn relative_path_strips_the_root_prefix() {
    let rel = relative_path_of(&String::from("/root/a/b.flac"), 5);
    assert_eq!(rel, String::from("/a/b.flac"));
}

#[test]
fn relative_path_of_whole_string_is_empty() {
    let rel = relative_path_of(&String::from("/root"), 5);
    assert_eq!(rel, String::from(""));
}
