//! Serving the files of the bundled front end: which file a request means,
//! what is sent for a file that is there, and what for one that is not.

use vstd::prelude::*;
use vstd::string::*;
use crate::dispatch::Status;
use crate::logging::{LogLevel, LogRecord, LogRecordView};
use crate::text::{decimal_digits, push_decimal};

verus! {

/// What is sent back for a request for a file.
#[derive(Debug)]
pub struct AssetReply {
    pub status: Status,
    /// The media type of the body, where one is declared.
    pub content_type: Option<String>,
    pub body: Vec<u8>,
}

/// The model of an `AssetReply`.
pub struct AssetReplyView {
    pub status: Status,
    pub content_type: Option<Seq<char>>,
    pub body: Seq<u8>,
}

impl View for AssetReply {
    type V = AssetReplyView;

    open spec fn view(&self) -> AssetReplyView {
        AssetReplyView {
            status: self.status,
            content_type: match self.content_type {
                Some(text) => Some(text@),
                None => None,
            },
            body: self.body@,
        }
    }
}

/// What to do after the first look for a file.
#[derive(Debug)]
pub enum AssetAnswer {
    /// Send this.
    Serve(AssetReply),
    /// The file is not there: look for `index.html` and send what
    /// `serve_index` makes of it.
    TryIndex,
}

/// The name of the file that a request for `path` means: `index.html` for
/// the empty path, else the path itself.
pub open spec fn asset_name_of(path: Seq<char>) -> Seq<char> {
    if path.len() == 0 {
        "index.html"@
    } else {
        path
    }
}

/// The name of the file that a request for `path` means.
pub fn asset_name(path: &str) -> (name: String)
    ensures
        name@ == asset_name_of(path@),
{
    if path.is_empty() {
        "index.html".to_owned()
    } else {
        path.to_owned()
    }
}

/// A media type in writing has a slash between its type and its subtype.
pub open spec fn names_media_type(text: Seq<char>) -> bool {
    text.contains('/')
}

/// `mime_guess::from_path` followed by `MimeGuess::first_or_octet_stream`,
/// as text. Which media type belongs to an extension is the crate's table,
/// and what the extension of a path is depends on the platform, so the
/// result has no name. What comes back is a parsed media type or
/// `application/octet-stream`, and either is written with a slash.
#[verifier::external_body]
fn guess_content_type(name: &str) -> (content_type: String)
    ensures
        names_media_type(content_type@),
{
    mime_guess::from_path(name).first_or_octet_stream().as_ref().to_string()
}

/// The reply for a file that is there: its content under the media type
/// `content_type`.
pub open spec fn found_reply(content_type: Seq<char>, data: Seq<u8>) -> AssetReplyView {
    AssetReplyView { status: Status::Success, content_type: Some(content_type), body: data }
}

/// The reply for a file with the content `data` and the media type
/// `content_type`.
pub fn asset_reply(content_type: String, data: Vec<u8>) -> (reply: AssetReply)
    ensures
        reply@ == found_reply(content_type@, data@),
{
    AssetReply { status: Status::Success, content_type: Some(content_type), body: data }
}

/// Answers a request for the file `name`, of which `found` is the content
/// if the file is there. A file that is there is sent as it is, with the
/// media type that its name suggests: some text with a slash in it.
pub fn serve_asset(name: &str, found: Option<Vec<u8>>) -> (answer: AssetAnswer)
    ensures
        match found {
            Some(data) => answer matches AssetAnswer::Serve(reply) && exists|content_type: Seq<char>|
                names_media_type(content_type) && reply@ == found_reply(content_type, data@),
            None => answer is TryIndex,
        },
{
    match found {
        Some(data) => AssetAnswer::Serve(asset_reply(guess_content_type(name), data)),
        None => AssetAnswer::TryIndex,
    }
}

/// The reply where the file asked for is not there: `index.html` as HTML if
/// that is there, else `Not found` with status 404.
pub open spec fn index_reply(index: Option<Seq<u8>>) -> AssetReplyView {
    match index {
        Some(data) => found_reply("text/html"@, data),
        None => AssetReplyView {
            status: Status::NotFound,
            content_type: None,
            body: "Not found".spec_bytes(),
        },
    }
}

/// Answers a request for a file that is not there; `index` is the content
/// of `index.html` if that is there.
pub fn serve_index(index: Option<Vec<u8>>) -> (reply: AssetReply)
    ensures
        reply@ == index_reply(
            match index {
                Some(data) => Some(data@),
                None => None,
            },
        ),
{
    match index {
        Some(data) => asset_reply("text/html".to_owned(), data),
        None => AssetReply {
            status: Status::NotFound,
            content_type: None,
            body: "Not found".as_bytes_vec(),
        },
    }
}

/// The log record of a served request: how long it took in nanoseconds, the
/// method, the path and the status code.
pub open spec fn request_record(duration_nanos: u128, method: Seq<char>, path: Seq<char>, status: u16) -> LogRecordView {
    LogRecordView {
        level: LogLevel::Info,
        text: "Request duration="@ + decimal_digits(duration_nanos as nat) + " method="@ + method
            + " path="@ + path + " status="@ + decimal_digits(status as nat),
    }
}

/// The log record of a served request.
pub fn request_log(duration_nanos: u128, method: &str, path: &str, status: u16) -> (record:
    LogRecord)
    ensures
        record@ == request_record(duration_nanos, method@, path@, status),
{
    let mut text = "Request duration=".to_owned();
    push_decimal(&mut text, duration_nanos);
    text.append(" method=");
    text.append(method);
    text.append(" path=");
    text.append(path);
    text.append(" status=");
    push_decimal(&mut text, status as u128);
    LogRecord { level: LogLevel::Info, text }
}

} // verus!
