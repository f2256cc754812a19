//! Image attachments: what may be uploaded and under which names, and the
//! responses that carry an image.

use crate::error::HttpError;
use crate::ids::{format_uuid, uuid_text};
use crate::kafka::{Action, KafkaMessage, MessageView};
use vstd::prelude::*;
use vstd::string::*;

verus! {

/// The largest upload that is accepted, in bytes.
pub const MAX_FILE_SIZE: usize = 10 * 1024 * 1024;

/// The content type of an upload that names none.
pub open spec fn default_content_type() -> Seq<char> {
    "application/octet-stream"@
}

/// Whether `c` may stand in the name of a stored image: an ASCII letter, an
/// ASCII digit, a hyphen or an underscore.
pub open spec fn filename_char(c: char) -> bool {
    ('a' <= c <= 'z') || ('A' <= c <= 'Z') || ('0' <= c <= '9') || c == '-' || c == '_'
}

/// Whether `name` can name a stored image: not empty, and made of such
/// characters only.
pub open spec fn valid_filename(name: Seq<char>) -> bool {
    name.len() > 0 && forall|i: int| 0 <= i < name.len() ==> filename_char(#[trigger] name[i])
}

/// Whether images of this content type are accepted.
pub open spec fn allowed_content_type(content_type: Seq<char>) -> bool {
    content_type == "image/jpeg"@ || content_type == "image/png"@ || content_type == "image/gif"@
        || content_type == "image/webp"@
}

fn filename_byte(byte: u8) -> (allowed: bool)
    ensures
        allowed == filename_char(byte as char),
{
    (byte >= 97 && byte <= 122) || (byte >= 65 && byte <= 90) || (byte >= 48 && byte <= 57) || byte
        == 45 || byte == 95
}

/// Checks the name of a stored image. A name that is empty or holds anything
/// but ASCII letters, digits, hyphens and underscores is a bad request.
pub fn validate_filename(filename: &str) -> (checked: Result<(), HttpError>)
    ensures
        valid_filename(filename@) ==> checked is Ok,
        !valid_filename(filename@) ==> (checked matches Err(HttpError::BadRequest(reason))
            && reason@ == "Invalid filename"@),
{
    if filename.is_empty() || !filename.is_ascii() {
        return Err(HttpError::BadRequest(String::from_str("Invalid filename")));
    }
    let length = filename.unicode_len();
    let mut index: usize = 0;
    while index < length
        invariant
            index <= length,
            length == filename@.len(),
            filename.is_ascii(),
            forall|i: int| 0 <= i < index ==> filename_char(#[trigger] filename@[i]),
        decreases length - index,
    {
        let byte = filename.get_ascii(index);
        assert(filename@[index as int] == byte as char);
        if !filename_byte(byte) {
            return Err(HttpError::BadRequest(String::from_str("Invalid filename")));
        }
        index += 1;
    }
    Ok(())
}

fn same_text(left: &str, right: &str) -> (same: bool)
    ensures
        same == (left@ == right@),
{
    left.to_owned() == right.to_owned()
}

/// Checks the content type of an upload. Anything but JPEG, PNG, GIF and
/// WebP images is an unsupported media type.
pub fn validate_content_type(content_type: &str) -> (checked: Result<(), HttpError>)
    ensures
        allowed_content_type(content_type@) ==> checked is Ok,
        !allowed_content_type(content_type@) ==> (checked matches Err(
            HttpError::UnsupportedMediaType,
        )),
{
    if same_text(content_type, "image/jpeg") || same_text(content_type, "image/png") || same_text(
        content_type,
        "image/gif",
    ) || same_text(content_type, "image/webp") {
        Ok(())
    } else {
        Err(HttpError::UnsupportedMediaType)
    }
}

/// What is known of the file in an upload request.
#[derive(Debug)]
pub struct UploadField {
    /// The content type that the request names, if it names one.
    pub content_type: Option<String>,
    /// The size of the file, in bytes.
    pub size: usize,
}

/// An upload that was accepted: what to store it as, and what to announce.
#[derive(Debug)]
pub struct Upload {
    /// The content type to store the file with.
    pub content_type: String,
    /// The announcement for the side channel.
    pub message: KafkaMessage<String>,
}

/// The content type of an upload: the one it names, or the default.
pub open spec fn content_type_of(named: Option<String>) -> Seq<char> {
    match named {
        Some(content_type) => content_type@,
        None => default_content_type(),
    }
}

/// Decides on an upload by `user_id` that is to be stored under `key`. A
/// request without a file is not found; a file of a content type that is not
/// accepted is an unsupported media type; a file larger than the limit is a
/// bad request. An accepted upload is announced as created by the user,
/// with the key as its data.
pub fn prepare_upload(field: Option<UploadField>, user_id: u128, key: &str) -> (upload: Result<
    Upload,
    HttpError,
>)
    ensures
        match field {
            None => upload matches Err(HttpError::NotFound(reason)) && reason@
                == "File not found"@,
            Some(file) => if !allowed_content_type(content_type_of(file.content_type)) {
                upload matches Err(HttpError::UnsupportedMediaType)
            } else if file.size > MAX_FILE_SIZE {
                upload matches Err(HttpError::BadRequest(reason)) && reason@ == "File too large"@
            } else {
                upload matches Ok(accepted) && accepted.content_type@ == content_type_of(
                    file.content_type,
                ) && accepted.message@ == (MessageView {
                    user_id: uuid_text(user_id),
                    action: Action::Create,
                    data: Some(key@),
                })
            },
        },
{
    match field {
        None => Err(HttpError::NotFound(String::from_str("File not found"))),
        Some(file) => {
            let content_type = match file.content_type {
                Some(content_type) => content_type,
                None => String::from_str("application/octet-stream"),
            };
            match validate_content_type(content_type.as_str()) {
                Err(error) => Err(error),
                Ok(()) => {
                    if file.size > MAX_FILE_SIZE {
                        Err(HttpError::BadRequest(String::from_str("File too large")))
                    } else {
                        let message = KafkaMessage::new(
                            format_uuid(user_id),
                            Action::Create,
                            Some(key.to_owned()),
                        );
                        Ok(Upload { content_type, message })
                    }
                },
            }
        },
    }
}

/// The error for an image that is to be deleted and does not exist.
pub fn image_not_found(filename: &str) -> (error: HttpError)
    ensures
        error matches HttpError::NotFound(reason) && reason@ == "Image "@ + filename@
            + " not found"@,
{
    let mut reason = String::from_str("Image ");
    reason.append(filename);
    reason.append(" not found");
    HttpError::NotFound(reason)
}

/// What a handler answers with: the name of an image, or the image itself.
#[derive(Debug, PartialEq, Eq)]
pub enum Image {
    Filename(String),
    File(String, Vec<u8>),
}

/// The content type that every served image is labelled with.
pub open spec fn served_content_type() -> Seq<char> {
    "image/jpeg"@
}

/// The `Content-Disposition` of an image served under `filename`.
pub open spec fn disposition(filename: Seq<char>) -> Seq<char> {
    "attachment; filename=\""@ + filename + "\""@
}

impl Image {
    /// The response that names an image.
    pub fn named(filename: &str) -> (image: Image)
        ensures
            image matches Image::Filename(name) && name@ == filename@,
    {
        Image::Filename(filename.to_owned())
    }

    /// The `Content-Disposition` header of the response, where the response
    /// carries a file: it offers the file as an attachment under its name.
    pub fn content_disposition(&self) -> (header: Option<String>)
        ensures
            match self {
                Image::Filename(_) => header is None,
                Image::File(filename, _) => header matches Some(text) && text@ == disposition(
                    filename@,
                ),
            },
    {
        match self {
            Image::Filename(_) => None,
            Image::File(filename, _) => {
                let mut header = String::from_str("attachment; filename=\"");
                header.append(filename.as_str());
                header.append("\"");
                Some(header)
            },
        }
    }

    /// The `Content-Type` header of the response, where the response carries
    /// a file.
    pub fn content_type(&self) -> (header: Option<&'static str>)
        ensures
            match self {
                Image::Filename(_) => header is None,
                Image::File(_, _) => header matches Some(text) && text@ == served_content_type(),
            },
    {
        match self {
            Image::Filename(_) => None,
            Image::File(_, _) => Some("image/jpeg"),
        }
    }
}

impl From<(String, Vec<u8>)> for Image {
    fn from(file: (String, Vec<u8>)) -> (image: Image) {
        Image::File(file.0, file.1)
    }
}

impl vstd::std_specs::convert::FromSpecImpl<(String, Vec<u8>)> for Image {
    open spec fn obeys_from_spec() -> bool {
        true
    }

    open spec fn from_spec(file: (String, Vec<u8>)) -> Image {
        Image::File(file.0, file.1)
    }
}

impl From<String> for Image {
    fn from(filename: String) -> (image: Image) {
        Image::Filename(filename)
    }
}

impl vstd::std_specs::convert::FromSpecImpl<String> for Image {
    open spec fn obeys_from_spec() -> bool {
        true
    }

    open spec fn from_spec(filename: String) -> Image {
        Image::Filename(filename)
    }
}

} // verus!
