//! Helpers around the operator's machine: where the tool keeps its files,
//! where the game's launcher is installed, how the output of a process is
//! read as text, and how an answer to a question is understood.

use vstd::prelude::*;
use vstd::string::*;
use vstd::utf8::{decode_utf8, valid_utf8};
use crate::error::{Error, ErrorKind, ErrorView};
use crate::paths::{Location, LocationView};
use crate::text::{joined, lowercase, lowered, same_text, trimmed, trimmed_of};

verus! {

/// The name of the tool's directory below the operator's home directory.
pub const APP_DIRECTORY_NAME: &'static str = ".rimpub";

/// Where the launcher's installation is recorded on a 64-bit system.
pub const STEAM_REG_PATH: &'static str = "SOFTWARE\\WOW6432Node\\Valve\\Steam";

/// Where the launcher's installation is recorded on a 32-bit system.
pub const STEAM_REG_PATH_32: &'static str = "SOFTWARE\\Valve\\Steam";

/// The name of the value that holds the installation directory.
pub const KEY_INSTALL_DIR: &'static str = "InstallPath";

/// What is appended to a question that is answered with yes or no.
pub const YES_NO_HINT: &'static str = " (y/n): ";

/// The tool's directory, below the home directory `home`.
pub fn get_dir(home: &str) -> (r: Location)
    ensures
        r@ == (LocationView { base: home@, below: seq![APP_DIRECTORY_NAME@] }),
{
    let place = Location::new(home).join(APP_DIRECTORY_NAME);
    assert(place@.below =~= seq![APP_DIRECTORY_NAME@]);
    place
}

/// What a lookup of the launcher's installation found.
#[derive(Debug)]
pub enum SteamProbe {
    /// This system keeps no such record.
    Unsupported,
    /// The record could not be opened, for the reason given.
    NoKey(String),
    /// The record holds no installation directory, for the reason given.
    NoValue(String),
    /// The record names `path`; `is_directory` says whether a directory
    /// exists there.
    Found { path: String, is_directory: bool },
}

/// The launcher's installation directory, from what a lookup found: the
/// recorded path if a directory exists there, nothing if none does or the
/// system keeps no record, and a failure if the record cannot be read.
pub fn read_steam_install_path(probe: SteamProbe) -> (r: Result<Option<String>, Error>)
    ensures
        match probe {
            SteamProbe::Unsupported => r matches Ok(None),
            SteamProbe::NoKey(detail) => r matches Err(e) && e@ == (ErrorView {
                kind: ErrorKind::Config,
                message: "Failed to open Steam registry key: "@ + detail@,
            }),
            SteamProbe::NoValue(detail) => r matches Err(e) && e@ == (ErrorView {
                kind: ErrorKind::Config,
                message: "Failed to read 'InstallPath' from Steam registry: "@ + detail@,
            }),
            SteamProbe::Found { path, is_directory } => if is_directory {
                r matches Ok(Some(p)) && p@ == path@
            } else {
                r matches Ok(None)
            },
        },
{
    match probe {
        SteamProbe::Unsupported => Ok(None),
        SteamProbe::NoKey(detail) => Err(
            Error::new(ErrorKind::Config, "Failed to open Steam registry key: ", detail.as_str()),
        ),
        SteamProbe::NoValue(detail) => Err(
            Error::new(
                ErrorKind::Config,
                "Failed to read 'InstallPath' from Steam registry: ",
                detail.as_str(),
            ),
        ),
        SteamProbe::Found { path, is_directory } => if is_directory {
            Ok(Some(path))
        } else {
            Ok(None)
        },
    }
}

/// How the bytes that a process wrote are read as text.
#[derive(Clone, Copy, Debug, PartialEq, Eq, Structural)]
pub enum TextEncoding {
    /// The multi-byte encoding of a Windows console, GBK.
    Gbk,
    /// UTF-8, with a replacement character for what is not valid.
    Utf8Lossy,
}

impl TextEncoding {
    /// The encoding in which processes write on this kind of system.
    pub fn native(windows: bool) -> (r: TextEncoding)
        ensures
            r == if windows {
                TextEncoding::Gbk
            } else {
                TextEncoding::Utf8Lossy
            },
    {
        if windows {
            TextEncoding::Gbk
        } else {
            TextEncoding::Utf8Lossy
        }
    }
}

/// The text that `encoding_rs::GBK.decode` reads from the bytes, and
/// whether it met malformed input on the way.
pub uninterp spec fn gbk_decoded(bytes: Seq<u8>) -> (Seq<char>, bool);

/// The text that `String::from_utf8_lossy` reads from the bytes.
pub uninterp spec fn utf8_lossy_decoded(bytes: Seq<u8>) -> Seq<char>;

/// Whether every byte is an ASCII character.
pub open spec fn all_ascii(bytes: Seq<u8>) -> bool {
    forall|i: int| 0 <= i < bytes.len() ==> bytes[i] < 128
}

/// The bytes, each read as the character with its number.
pub open spec fn ascii_text(bytes: Seq<u8>) -> Seq<char> {
    Seq::new(bytes.len(), |i: int| bytes[i] as char)
}

/// The longest output of a process that is decoded: beyond it the decoder's
/// buffer size would not fit the machine's integers.
pub open spec fn decodable(bytes: Seq<u8>) -> bool {
    bytes.len() <= usize::MAX / 8
}

/// Calls `encoding_rs::GBK.decode` and keeps the text and the flag that
/// says whether anything was malformed. The decoder replaces what is
/// malformed, so every input has a text; text and flag are functions of the
/// bytes alone. Bytes that are all ASCII are returned as they are, without
/// the flag. The call panics only where the size of its buffer overflows,
/// which the bound on the input rules out.
#[verifier::external_body]
fn decode_gbk(bytes: &[u8]) -> (r: (String, bool))
    requires
        decodable(bytes@),
    ensures
        (r.0@, r.1) == gbk_decoded(bytes@),
        all_ascii(bytes@) ==> r.0@ == ascii_text(bytes@) && !r.1,
{
    let (text, _, had_errors) = encoding_rs::GBK.decode(bytes);
    (text.into_owned(), had_errors)
}

/// Calls `String::from_utf8_lossy`. The result is a function of the bytes
/// alone; bytes that are valid UTF-8 are read as they are.
#[verifier::external_body]
fn decode_utf8_lossy(bytes: &[u8]) -> (r: String)
    ensures
        r@ == utf8_lossy_decoded(bytes@),
        valid_utf8(bytes@) ==> r@ == decode_utf8(bytes@),
{
    String::from_utf8_lossy(bytes).into_owned()
}

/// The text that the bytes hold in the given encoding.
pub open spec fn decoded(bytes: Seq<u8>, encoding: TextEncoding) -> Seq<char> {
    match encoding {
        TextEncoding::Gbk => gbk_decoded(bytes).0,
        TextEncoding::Utf8Lossy => utf8_lossy_decoded(bytes),
    }
}

/// Whether reading the bytes in the given encoding is worth a warning: the
/// GBK decoder met malformed input. Reading as UTF-8 never warns.
pub open spec fn decoded_with_errors(bytes: Seq<u8>, encoding: TextEncoding) -> bool {
    match encoding {
        TextEncoding::Gbk => gbk_decoded(bytes).1,
        TextEncoding::Utf8Lossy => false,
    }
}

/// Whether `text` is what plain input is read as: ASCII under GBK and valid
/// UTF-8 under UTF-8 are read as they are.
pub open spec fn decoded_as_is(bytes: Seq<u8>, encoding: TextEncoding, text: Seq<char>) -> bool {
    match encoding {
        TextEncoding::Gbk => all_ascii(bytes) ==> text == ascii_text(bytes),
        TextEncoding::Utf8Lossy => valid_utf8(bytes) ==> text == decode_utf8(bytes),
    }
}

/// Reads the output of a process as text, and says whether that is worth
/// a warning. What cannot be decoded is replaced, never refused.
pub fn decode_out_checked(bytes: &[u8], encoding: TextEncoding) -> (r: (String, bool))
    requires
        decodable(bytes@),
    ensures
        r.0@ == decoded(bytes@, encoding),
        r.1 == decoded_with_errors(bytes@, encoding),
        decoded_as_is(bytes@, encoding, r.0@),
        encoding is Gbk && all_ascii(bytes@) ==> !r.1,
{
    match encoding {
        TextEncoding::Gbk => decode_gbk(bytes),
        TextEncoding::Utf8Lossy => (decode_utf8_lossy(bytes), false),
    }
}

/// Reads the output of a process as text. What cannot be decoded is
/// replaced, never refused.
pub fn decode_out(bytes: &[u8], encoding: TextEncoding) -> (r: String)
    requires
        decodable(bytes@),
    ensures
        r@ == decoded(bytes@, encoding),
        decoded_as_is(bytes@, encoding, r@),
{
    decode_out_checked(bytes, encoding).0
}

/// Whether an answer, trimmed and in lowercase, says yes.
pub open spec fn affirmative(answer: Seq<char>) -> bool {
    answer == "y"@ || answer == "yes"@
}

/// Whether an answer that is already trimmed and in lowercase says yes.
pub fn is_affirmative(answer: &str) -> (r: bool)
    ensures
        r == affirmative(answer@),
{
    same_text(answer, "y") || same_text(answer, "yes")
}

/// The question as it is put to the operator.
pub fn confirm_prompt(msg: &str) -> (r: String)
    ensures
        r@ == msg@ + YES_NO_HINT@,
{
    joined(msg, YES_NO_HINT)
}

/// Whether the line that the operator typed confirms: `y` or `yes`, in any
/// case and with any whitespace around it. Everything else declines.
pub fn confirm(answer: &str) -> (r: bool)
    ensures
        r == affirmative(lowered(trimmed_of(answer@))),
{
    let bare = trimmed(answer);
    let lower = lowercase(bare.as_str());
    is_affirmative(lower.as_str())
}

} // verus!
