//! The host's name, as printed by the `hostname` command.
use vstd::prelude::*;
use vstd::utf8::{decode_utf8, valid_utf8};
use crate::text::{decode_utf8_bytes, trim, trim_whitespace};

verus! {

/// The host name for the captured standard output of the `hostname`
/// command (nothing when the command could not be run): the output without
/// surrounding white space when it is valid UTF-8, and nothing otherwise.
pub open spec fn hostname_from(stdout: Option<Seq<u8>>) -> Option<Seq<char>> {
    match stdout {
        Some(bytes) => if valid_utf8(bytes) {
            Some(trim(decode_utf8(bytes)))
        } else {
            None
        },
        None => None,
    }
}

/// The captured output as plain bytes.
pub open spec fn output_view(stdout: Option<Vec<u8>>) -> Option<Seq<u8>> {
    match stdout {
        Some(b) => Some(b@),
        None => None,
    }
}

/// Reads the host name from the captured standard output of the
/// `hostname` command (`None` when the command could not be run); `None`
/// when there is no output to read or it is not valid UTF-8.
pub fn read_hostname(stdout: Option<Vec<u8>>) -> (hostname: Option<String>)
    ensures
        match hostname {
            Some(h) => hostname_from(output_view(stdout)) == Some(h@),
            None => hostname_from(output_view(stdout)) is None,
        },
        stdout matches Some(b) ==> (valid_utf8(b@) ==> (hostname matches Some(h) && h@ == trim(
            decode_utf8(b@),
        ))),
        hostname is None <==> (stdout is None || (stdout matches Some(b) && !valid_utf8(b@))),
{
    match stdout {
        Some(bytes) => match decode_utf8_bytes(bytes) {
            Some(text) => Some(trim_whitespace(text.as_str())),
            None => None,
        },
        None => None,
    }
}

/// Derives the host name from the captured standard output of the
/// `hostname` command, or `None` when the command could not be run; the
/// empty string when no name can be read.
pub fn get_hostname(stdout: Option<Vec<u8>>) -> (hostname: String)
    ensures
        hostname@ == match hostname_from(output_view(stdout)) {
            Some(h) => h,
            None => Seq::empty(),
        },
{
    match read_hostname(stdout) {
        Some(h) => h,
        None => String::new(),
    }
}

/// A name is read from every output that is valid UTF-8, and it is that
/// text without surrounding white space; no name is read from invalid
/// output or when the command could not be run.
pub proof fn lemma_hostname_meaning(bytes: Seq<u8>)
    ensures
        valid_utf8(bytes) ==> hostname_from(Some(bytes)) == Some(trim(decode_utf8(bytes))),
        !valid_utf8(bytes) ==> hostname_from(Some(bytes)) is None,
        hostname_from(None) is None,
{
}

} // verus!
