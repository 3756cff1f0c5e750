use dirustic::dirustic_error::Error;
use dirustic::types::playlist_parser::{
    is_playlist, playlist_command_args, playlist_items, spawn_error, stdout_lines, CommandOutput,
    YOUTUBE_DL_COMMAND,
};

fn ok_output(stdout: &[u8]) -> CommandOutput {
    CommandOutput { success: true, stdout: stdout.to_vec(), stderr: Vec::new() }
}

#[test]
fn playlist_links() {
    assert!(is_playlist("https://www.youtube.com/playlist?list=PLx0sYbCqOb8TBPRdmBHs5Iftvv9TPboYG"));
    assert!(is_playlist("https://www.youtube.com/watch?v=abc&list=PL1"));
    assert!(!is_playlist("https://www.youtube.com/watch?v=dQw4w9WgXcQ"));
    assert!(!is_playlist(""));
    assert!(!is_playlist("list"));
    assert!(is_playlist("list="));
}

#[test]
fn lister_arguments() {
    assert_eq!(YOUTUBE_DL_COMMAND, "yt-dlp");
    assert_eq!(
        playlist_command_args("https://x/list=1"),
        vec!["-s", "--flat-playlist", "--print", "url", "https://x/list=1"]
    );
}

#[test]
fn one_entry_per_printed_line() {
    let r = playlist_items(ok_output(b"https://a\nhttps://b\n"));
    assert_eq!(r, Ok(vec!["https://a".to_string(), "https://b".to_string()]));
}

#[test]
fn text_after_the_last_line_break_is_dropped() {
    assert_eq!(playlist_items(ok_output(b"a\nb")), Ok(vec!["a".to_string()]));
    assert_eq!(stdout_lines("a\nb"), vec!["a".to_string()]);
}

#[test]
fn empty_output_gives_no_entries() {
    assert_eq!(playlist_items(ok_output(b"")), Ok(Vec::new()));
    assert_eq!(playlist_items(ok_output(b"\n")), Ok(vec![String::new()]));
}

#[test]
fn multibyte_lines_are_decoded() {
    let r = playlist_items(ok_output("é\n日本\n".as_bytes()));
    assert_eq!(r, Ok(vec!["é".to_string(), "日本".to_string()]));
}

#[test]
fn failed_lister_reports_its_error_output() {
    let out = CommandOutput { success: false, stdout: b"x\n".to_vec(), stderr: b"ERROR: no such playlist".to_vec() };
    assert_eq!(playlist_items(out), Err(Error::YtDlpError { e: "ERROR: no such playlist".to_string() }));
}

#[test]
fn failed_lister_with_malformed_error_output() {
    let out = CommandOutput { success: false, stdout: Vec::new(), stderr: vec![b'a', 0xff, b'b'] };
    assert_eq!(playlist_items(out), Err(Error::YtDlpError { e: "a\u{FFFD}b".to_string() }));
}

#[test]
fn output_that_is_not_utf8() {
    let bytes = vec![b'a', 0xff, b'\n'];
    let message = String::from_utf8(bytes.clone()).unwrap_err().to_string();
    assert_eq!(playlist_items(ok_output(&bytes)), Err(Error::StandardError { e: message }));
}

#[test]
fn lister_that_cannot_start() {
    assert_eq!(spawn_error(true, "missing".to_string()), Error::YtDlpNotFound);
    assert_eq!(spawn_error(false, "denied".to_string()), Error::UnknownError { e: "denied".to_string() });
}

#[test]
fn entries_rejoined_give_the_output() {
    let text = "https://a\n\nhttps://c\n";
    let items = stdout_lines(text);
    let mut rejoined = items.join("\n");
    rejoined.push('\n');
    assert_eq!(rejoined, text);
    assert!(items.iter().all(|i| !i.contains('\n')));
}

#[test]
fn error_constructors() {
    assert_eq!(Error::standard("boom".to_string()), Error::StandardError { e: "boom".to_string() });
    assert_eq!(Error::serenity("http".to_string()), Error::SerenityError { e: "http".to_string() });
}
