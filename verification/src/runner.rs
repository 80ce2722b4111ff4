//! The decisions of a copy from a source to a sink.
//!
//! A copy reads all of its input, takes it for text, and emits that text.
//! Reading and writing are the caller's business; what is read as text,
//! what is announced and what is emitted is decided here. A source or a
//! sink is a file when a path is given, and the standard stream otherwise.

use vstd::prelude::*;
use vstd::utf8::{decode_utf8, encode_utf8, valid_utf8};
use std::string::FromUtf8Error;
use crate::error::Error;

verus! {

/// Trusted: the error of `String::from_utf8`, carried through unopened.
#[verifier::external_type_specification]
#[verifier::external_body]
pub struct ExFromUtf8Error(FromUtf8Error);

/// Trusted: `String::from_utf8` accepts exactly the byte vectors that are
/// valid UTF-8, and the text it then returns is laid out in those very
/// bytes.
pub assume_specification[ String::from_utf8 ](bytes: Vec<u8>) -> (result: Result<
    String,
    FromUtf8Error,
>)
    ensures
        result is Ok <==> valid_utf8(bytes@),
        result is Ok ==> encode_utf8(result->Ok_0@) == bytes@,
;

/// The line that announces where the input is read from.
pub open spec fn reading_notice_text(input: Option<String>) -> Seq<char> {
    match input {
        Some(path) => "Reading from input file: "@ + path@,
        None => "Reading from standard input..."@,
    }
}

/// The line that announces where the output is written to.
pub open spec fn writing_notice_text(output: Option<String>) -> Seq<char> {
    match output {
        Some(path) => "Writing to output file: "@ + path@,
        None => "Writing to standard output..."@,
    }
}

/// What a sink receives for the text `text`: a file receives the text as
/// it is, the standard output the text and one line feed after it.
pub open spec fn emitted_text(text: Seq<char>, to_file: bool) -> Seq<char> {
    if to_file {
        text
    } else {
        text.push('\n')
    }
}

/// The status line to show before the input is read: none unless
/// `verbose`, else the line that names the source.
pub fn reading_notice(verbose: bool, input: &Option<String>) -> (notice: Option<String>)
    ensures
        notice is Some <==> verbose,
        verbose ==> notice->Some_0@ == reading_notice_text(*input),
{
    if !verbose {
        return None;
    }
    let line = match input {
        Some(path) => "Reading from input file: ".to_owned().concat(path.as_str()),
        None => "Reading from standard input...".to_owned(),
    };
    Some(line)
}

/// The status line to show before the output is written: none unless
/// `verbose`, else the line that names the sink.
pub fn writing_notice(verbose: bool, output: &Option<String>) -> (notice: Option<String>)
    ensures
        notice is Some <==> verbose,
        verbose ==> notice->Some_0@ == writing_notice_text(*output),
{
    if !verbose {
        return None;
    }
    let line = match output {
        Some(path) => "Writing to output file: ".to_owned().concat(path.as_str()),
        None => "Writing to standard output...".to_owned(),
    };
    Some(line)
}

/// Takes the bytes that were read for text.
///
/// Valid UTF-8 is accepted and decoded; anything else is an encoding
/// failure.
pub fn decode_input(bytes: Vec<u8>) -> (result: Result<String, Error>)
    ensures
        valid_utf8(bytes@) ==> result is Ok && result->Ok_0@ == decode_utf8(bytes@),
        !valid_utf8(bytes@) ==> result is Err && result->Err_0 == Error::InvalidEncoding,
{
    broadcast use vstd::utf8::encode_utf8_decode_utf8;

    match String::from_utf8(bytes) {
        Ok(text) => Ok(text),
        Err(_) => Err(Error::InvalidEncoding),
    }
}

/// The text to hand to the sink: `text` itself for a file, `text` and one
/// line feed for the standard output, whether or not `text` already ends
/// in one.
pub fn output_text(text: String, output: &Option<String>) -> (emitted: String)
    ensures
        emitted@ == emitted_text(text@, *output is Some),
        output is Some ==> emitted@ == text@,
        output is None ==> emitted@.len() == text@.len() + 1 && emitted@.drop_last() == text@
            && emitted@.last() == '\n',
{
    match output {
        Some(_) => text,
        None => {
            proof {
                reveal_strlit("\n");
            }
            let emitted = text.concat("\n");
            assert(emitted@ =~= text@.push('\n'));
            assert(emitted@.drop_last() =~= text@);
            emitted
        },
    }
}

/// A text that is written to a file and read back, then copied to a second
/// file, arrives there byte for byte: its bytes are accepted as text, and
/// the bytes emitted are the bytes that were read.
pub proof fn lemma_file_copy_round_trip(text: Seq<char>)
    ensures
        valid_utf8(encode_utf8(text)),
        encode_utf8(emitted_text(decode_utf8(encode_utf8(text)), true)) == encode_utf8(text),
{
    broadcast use {vstd::utf8::encode_utf8_valid_utf8, vstd::utf8::encode_utf8_decode_utf8};

}

/// Whatever valid bytes a copy to a file reads, it emits the same bytes.
pub proof fn lemma_file_copy_keeps_bytes(bytes: Seq<u8>)
    requires
        valid_utf8(bytes),
    ensures
        encode_utf8(emitted_text(decode_utf8(bytes), true)) == bytes,
{
    broadcast use vstd::utf8::decode_utf8_encode_utf8;

}

} // verus!
