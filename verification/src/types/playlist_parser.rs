//! Recognising playlist links and reading the list of track links that
//! the `yt-dlp` tool prints for a playlist.

use vstd::prelude::*;
use vstd::utf8::{decode_utf8, valid_utf8};
use crate::dirustic_error::Error;
use crate::text::{
    contains_infix, contains_str, join_with, lemma_split_join, lemma_split_nonempty, split_chars,
    split_on,
};

verus! {

/// The program that lists the entries of a playlist.
pub const YOUTUBE_DL_COMMAND: &'static str = "yt-dlp";

/// Its arguments before the playlist link, separated by spaces.
pub const YOUTUBE_DL_PLAYLIST_ARGS: &'static str = "-s --flat-playlist --print url";

/// The text that `String::from_utf8_lossy` makes of bytes, with U+FFFD in
/// place of every malformed sequence.
pub uninterp spec fn utf8_lossy(bytes: Seq<u8>) -> Seq<char>;

/// The message that the error of `String::from_utf8` displays for bytes
/// that are not UTF-8.
pub uninterp spec fn utf8_error_text(bytes: Seq<u8>) -> Seq<char>;

/// Calls `String::from_utf8` and, on failure, the `Display` of its error.
/// Claimed: the result is `Ok` exactly for valid UTF-8, and then holds the
/// decoded characters; the error message is the named text for the bytes.
#[verifier::external_body]
fn string_from_utf8(bytes: Vec<u8>) -> (r: Result<String, String>)
    ensures
        r is Ok <==> valid_utf8(bytes@),
        r matches Ok(s) ==> s@ == decode_utf8(bytes@),
        r matches Err(m) ==> m@ == utf8_error_text(bytes@),
{
    match String::from_utf8(bytes) {
        Ok(s) => Ok(s),
        Err(e) => Err(e.to_string()),
    }
}

/// Calls `String::from_utf8_lossy`. Claimed: the result is the named lossy
/// text of the bytes, and for valid UTF-8 it is the decoded characters.
#[verifier::external_body]
fn string_from_utf8_lossy(bytes: &Vec<u8>) -> (r: String)
    ensures
        r@ == utf8_lossy(bytes@),
        valid_utf8(bytes@) ==> r@ == decode_utf8(bytes@),
{
    String::from_utf8_lossy(bytes.as_slice()).into_owned()
}

/// Whether a link names a playlist.
pub fn is_playlist(url: &str) -> (r: bool)
    ensures
        r == contains_infix(url@, "list="@),
{
    contains_str(url, "list=")
}

/// The arguments that make the lister print the link of each entry of the
/// playlist at `url`.
pub fn playlist_command_args(url: &str) -> (args: Vec<String>)
    ensures
        args.deep_view() == split_on(YOUTUBE_DL_PLAYLIST_ARGS@, ' ').push(url@),
{
    let mut args = split_chars(YOUTUBE_DL_PLAYLIST_ARGS, ' ');
    let ghost before = args.deep_view();
    args.push(String::from_str(url));
    assert(args.deep_view() =~= before.push(url@));
    args
}

/// What the lister reported when it ended.
pub struct CommandOutput {
    /// Whether it exited successfully.
    pub success: bool,
    pub stdout: Vec<u8>,
    pub stderr: Vec<u8>,
}

/// The lines of the lister's output, each without its line break; the text
/// after the last line break is dropped.
pub fn stdout_lines(text: &str) -> (items: Vec<String>)
    ensures
        items.deep_view() == split_on(text@, '\n').drop_last(),
{
    let mut items = split_chars(text, '\n');
    proof {
        lemma_split_nonempty(text@, '\n');
    }
    let ghost before = items.deep_view();
    items.pop();
    assert(items.deep_view() =~= before.drop_last());
    items
}

/// The error for a lister that could not be started: a dedicated error
/// when it is not installed, else the message of the failure.
pub fn spawn_error(not_found: bool, message: String) -> (r: Error)
    ensures
        not_found ==> r matches Error::YtDlpNotFound,
        !not_found ==> (r matches Error::UnknownError { e } && e@ == message@),
{
    if not_found {
        Error::YtDlpNotFound
    } else {
        Error::UnknownError { e: message }
    }
}

/// The entries of a playlist from what the lister reported: its error
/// output when it failed, an error when its output is not UTF-8, else one
/// entry per printed line.
pub fn playlist_items(output: CommandOutput) -> (r: Result<Vec<String>, Error>)
    ensures
        !output.success ==> (r matches Err(Error::YtDlpError { e }) && e@ == utf8_lossy(
            output.stderr@,
        )),
        output.success && !valid_utf8(output.stdout@) ==> (r matches Err(
            Error::StandardError { e },
        ) && e@ == utf8_error_text(output.stdout@)),
        output.success && valid_utf8(output.stdout@) ==> (r matches Ok(items) && items.deep_view()
            == split_on(decode_utf8(output.stdout@), '\n').drop_last()),
{
    if !output.success {
        return Err(Error::YtDlpError { e: string_from_utf8_lossy(&output.stderr) });
    }
    match string_from_utf8(output.stdout) {
        Ok(text) => Ok(stdout_lines(text.as_str())),
        Err(message) => Err(Error::standard(message)),
    }
}


/// When the lister's output ends with a line break, its entries written
/// back each followed by a line break give the output again, and no entry
/// holds a line break.
pub proof fn lemma_lines_roundtrip(text: Seq<char>)
    requires
        text.len() > 0,
        text.last() == '\n',
    ensures
        join_with(split_on(text, '\n').drop_last(), '\n').push('\n') == text,
        forall|k: int|
            0 <= k < split_on(text, '\n').drop_last().len() ==> !(#[trigger] split_on(
                text,
                '\n',
            ).drop_last()[k]).contains('\n'),
{
    let init = text.drop_last();
    lemma_split_join(init, '\n');
    assert(split_on(text, '\n').drop_last() =~= split_on(init, '\n'));
    assert(init.push('\n') =~= text);
}

} // verus!
