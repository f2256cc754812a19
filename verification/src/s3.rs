//! Object storage: the errors of the storage client and the arithmetic of
//! chunked transfers. The storage service itself is an outside service; where
//! its client reports a failure, the error here carries the client's
//! description of it.

use crate::codec::{decimal, decimal_text};
use vstd::prelude::*;

verus! {

/// What goes wrong with object storage.
#[derive(Debug, PartialEq, Eq)]
pub enum S3Error {
    /// An object could not be fetched.
    GetObjectError(String),
    /// The objects of the bucket could not be listed.
    ListObjectError(String),
    /// An object could not be stored.
    PutObjectError(String),
    /// An object could not be copied.
    CopyObjectError(String),
    /// A part of a multipart upload failed.
    UploadPart(String),
    /// A multipart upload could not be started.
    CreateMultipart(String),
    /// A multipart upload could not be completed.
    CompleteMultipart(String),
    /// A multipart upload could not be aborted.
    AbortMultipart(String),
    /// The metadata of an object could not be fetched.
    HeaderObjectError(String),
    /// An object could not be deleted.
    DeleteObjectError(String),
    /// Several objects could not be deleted.
    DeleteObjectsError(String),
    /// The bucket could not be deleted.
    DeleteBucketError(String),
    /// Objects remain in a bucket that was to be cleared.
    BucketNotEmpty,
    /// The service acknowledged a part without an entity tag.
    MissingETag,
    /// The service started a multipart upload without an id.
    MissingUploadId,
    /// A local file could not be read or written.
    IO(String),
    /// A body could not be read to its end.
    ByteStreamError(String),
    /// A request could not be built.
    BuildError(String),
    /// A download task did not finish.
    TokioJoin(String),
    /// The configuration is unusable.
    ConfigError(String),
}

pub type S3Result<T> = Result<T, S3Error>;

/// The HTTP status that reports `error`.
pub open spec fn s3_status(error: S3Error) -> u16 {
    match error {
        S3Error::GetObjectError(_) => 404u16,
        S3Error::ListObjectError(_) => 400u16,
        S3Error::PutObjectError(_) => 400u16,
        S3Error::CopyObjectError(_) => 400u16,
        S3Error::UploadPart(_) => 400u16,
        S3Error::CreateMultipart(_) => 400u16,
        S3Error::CompleteMultipart(_) => 400u16,
        S3Error::AbortMultipart(_) => 400u16,
        S3Error::HeaderObjectError(_) => 404u16,
        S3Error::DeleteObjectError(_) => 400u16,
        S3Error::DeleteObjectsError(_) => 400u16,
        S3Error::DeleteBucketError(_) => 400u16,
        S3Error::BucketNotEmpty => 409u16,
        S3Error::MissingETag => 500u16,
        S3Error::MissingUploadId => 500u16,
        S3Error::IO(_) => 500u16,
        S3Error::ByteStreamError(_) => 500u16,
        S3Error::BuildError(_) => 500u16,
        S3Error::TokioJoin(_) => 500u16,
        S3Error::ConfigError(_) => 400u16,
    }
}

/// The name under which `error` is reported.
pub open spec fn s3_error_type(error: S3Error) -> Seq<char> {
    match error {
        S3Error::GetObjectError(_) => "GetObjectError"@,
        S3Error::ListObjectError(_) => "ListObjectError"@,
        S3Error::PutObjectError(_) => "PutObjectError"@,
        S3Error::CopyObjectError(_) => "CopyObjectError"@,
        S3Error::UploadPart(_) => "UploadPartError"@,
        S3Error::CreateMultipart(_) => "CreateMultipartError"@,
        S3Error::CompleteMultipart(_) => "CompleteMultipartError"@,
        S3Error::AbortMultipart(_) => "AbortMultipartError"@,
        S3Error::HeaderObjectError(_) => "HeadObjectError"@,
        S3Error::DeleteObjectError(_) => "DeleteObjectError"@,
        S3Error::DeleteObjectsError(_) => "DeleteObjectsError"@,
        S3Error::DeleteBucketError(_) => "DeleteBucketError"@,
        S3Error::BucketNotEmpty => "BucketNotEmpty"@,
        S3Error::MissingETag => "MissingETag"@,
        S3Error::MissingUploadId => "MissingUploadId"@,
        S3Error::IO(_) => "IOError"@,
        S3Error::ByteStreamError(_) => "ByteStreamError"@,
        S3Error::BuildError(_) => "BuildError"@,
        S3Error::TokioJoin(_) => "TokioJoinError"@,
        S3Error::ConfigError(_) => "ConfigError"@,
    }
}

/// The sentence that describes `error`.
pub open spec fn s3_description(error: S3Error) -> Seq<char> {
    match error {
        S3Error::GetObjectError(detail) => "Failed to get object from S3: "@ + detail@,
        S3Error::ListObjectError(detail) => "Failed to list objects in bucket: "@ + detail@,
        S3Error::PutObjectError(detail) => "Failed to put object to S3: "@ + detail@,
        S3Error::CopyObjectError(detail) => "Failed to copy object: "@ + detail@,
        S3Error::UploadPart(detail) => "Failed to upload part: "@ + detail@,
        S3Error::CreateMultipart(detail) => "Failed to create multipart upload: "@ + detail@,
        S3Error::CompleteMultipart(detail) => "Failed to complete multipart upload: "@ + detail@,
        S3Error::AbortMultipart(detail) => "Failed to abort multipart upload: "@ + detail@,
        S3Error::HeaderObjectError(detail) => "Failed to get object metadata: "@ + detail@,
        S3Error::DeleteObjectError(detail) => "Failed to delete object: "@ + detail@,
        S3Error::DeleteObjectsError(detail) => "Failed to delete multiple objects: "@ + detail@,
        S3Error::DeleteBucketError(detail) => "Failed to delete bucket: "@ + detail@,
        S3Error::BucketNotEmpty => "Bucket is not empty â€” objects still remain inside"@,
        S3Error::MissingETag => "Missing ETag in upload_part response"@,
        S3Error::MissingUploadId => "Missing upload_id after CreateMultipartUpload"@,
        S3Error::IO(detail) => "I/O error: "@ + detail@,
        S3Error::ByteStreamError(detail) => "ByteStream error: "@ + detail@,
        S3Error::BuildError(detail) => "SDK build error: "@ + detail@,
        S3Error::TokioJoin(detail) => "Tokio join error: "@ + detail@,
        S3Error::ConfigError(detail) => "Configuration error: "@ + detail@,
    }
}

impl S3Error {
    /// The HTTP status that reports this error: not found where an object or
    /// its metadata could not be fetched, a conflict for a bucket that is not
    /// empty, a server error for local and internal failures, a bad request
    /// for the rest.
    pub fn status(&self) -> (code: u16)
        ensures
            code == s3_status(*self),
    {
        match self {
            S3Error::GetObjectError(_) => 404,
            S3Error::ListObjectError(_) => 400,
            S3Error::PutObjectError(_) => 400,
            S3Error::CopyObjectError(_) => 400,
            S3Error::UploadPart(_) => 400,
            S3Error::CreateMultipart(_) => 400,
            S3Error::CompleteMultipart(_) => 400,
            S3Error::AbortMultipart(_) => 400,
            S3Error::HeaderObjectError(_) => 404,
            S3Error::DeleteObjectError(_) => 400,
            S3Error::DeleteObjectsError(_) => 400,
            S3Error::DeleteBucketError(_) => 400,
            S3Error::BucketNotEmpty => 409,
            S3Error::MissingETag => 500,
            S3Error::MissingUploadId => 500,
            S3Error::IO(_) => 500,
            S3Error::ByteStreamError(_) => 500,
            S3Error::BuildError(_) => 500,
            S3Error::TokioJoin(_) => 500,
            S3Error::ConfigError(_) => 400,
        }
    }

    /// The name under which this error is reported.
    pub fn error_type(&self) -> (name: &'static str)
        ensures
            name@ == s3_error_type(*self),
    {
        match self {
            S3Error::GetObjectError(_) => "GetObjectError",
            S3Error::ListObjectError(_) => "ListObjectError",
            S3Error::PutObjectError(_) => "PutObjectError",
            S3Error::CopyObjectError(_) => "CopyObjectError",
            S3Error::UploadPart(_) => "UploadPartError",
            S3Error::CreateMultipart(_) => "CreateMultipartError",
            S3Error::CompleteMultipart(_) => "CompleteMultipartError",
            S3Error::AbortMultipart(_) => "AbortMultipartError",
            S3Error::HeaderObjectError(_) => "HeadObjectError",
            S3Error::DeleteObjectError(_) => "DeleteObjectError",
            S3Error::DeleteObjectsError(_) => "DeleteObjectsError",
            S3Error::DeleteBucketError(_) => "DeleteBucketError",
            S3Error::BucketNotEmpty => "BucketNotEmpty",
            S3Error::MissingETag => "MissingETag",
            S3Error::MissingUploadId => "MissingUploadId",
            S3Error::IO(_) => "IOError",
            S3Error::ByteStreamError(_) => "ByteStreamError",
            S3Error::BuildError(_) => "BuildError",
            S3Error::TokioJoin(_) => "TokioJoinError",
            S3Error::ConfigError(_) => "ConfigError",
        }
    }

    /// The sentence that describes this error.
    pub fn describe(&self) -> (text: String)
        ensures
            text@ == s3_description(*self),
    {
        match self {
            S3Error::GetObjectError(detail) => String::from_str("Failed to get object from S3: ").concat(detail.as_str()),
            S3Error::ListObjectError(detail) => String::from_str("Failed to list objects in bucket: ").concat(detail.as_str()),
            S3Error::PutObjectError(detail) => String::from_str("Failed to put object to S3: ").concat(detail.as_str()),
            S3Error::CopyObjectError(detail) => String::from_str("Failed to copy object: ").concat(detail.as_str()),
            S3Error::UploadPart(detail) => String::from_str("Failed to upload part: ").concat(detail.as_str()),
            S3Error::CreateMultipart(detail) => String::from_str("Failed to create multipart upload: ").concat(detail.as_str()),
            S3Error::CompleteMultipart(detail) => String::from_str("Failed to complete multipart upload: ").concat(detail.as_str()),
            S3Error::AbortMultipart(detail) => String::from_str("Failed to abort multipart upload: ").concat(detail.as_str()),
            S3Error::HeaderObjectError(detail) => String::from_str("Failed to get object metadata: ").concat(detail.as_str()),
            S3Error::DeleteObjectError(detail) => String::from_str("Failed to delete object: ").concat(detail.as_str()),
            S3Error::DeleteObjectsError(detail) => String::from_str("Failed to delete multiple objects: ").concat(detail.as_str()),
            S3Error::DeleteBucketError(detail) => String::from_str("Failed to delete bucket: ").concat(detail.as_str()),
            S3Error::BucketNotEmpty => String::from_str("Bucket is not empty â€” objects still remain inside"),
            S3Error::MissingETag => String::from_str("Missing ETag in upload_part response"),
            S3Error::MissingUploadId => String::from_str("Missing upload_id after CreateMultipartUpload"),
            S3Error::IO(detail) => String::from_str("I/O error: ").concat(detail.as_str()),
            S3Error::ByteStreamError(detail) => String::from_str("ByteStream error: ").concat(detail.as_str()),
            S3Error::BuildError(detail) => String::from_str("SDK build error: ").concat(detail.as_str()),
            S3Error::TokioJoin(detail) => String::from_str("Tokio join error: ").concat(detail.as_str()),
            S3Error::ConfigError(detail) => String::from_str("Configuration error: ").concat(detail.as_str()),
        }
    }
}

/// The size of a chunk where none is asked for: five mebibytes.
pub const DEFAULT_CHUNK_SIZE: usize = 5 * 1024 * 1024;

/// How many keys one listing request asks for where no number is given.
pub const DEFAULT_PAGE_SIZE: i32 = 1000;

/// The size of the chunks of a transfer: the one asked for, or the default.
pub fn chunk_size_or_default(chunk_size: Option<usize>) -> (size: usize)
    ensures
        size == match chunk_size {
            Some(size) => size,
            None => DEFAULT_CHUNK_SIZE,
        },
{
    match chunk_size {
        Some(size) => size,
        None => DEFAULT_CHUNK_SIZE,
    }
}

/// How many keys one listing request asks for: the number given, or the
/// default.
pub fn page_size(max_keys: Option<i32>) -> (page_size: i32)
    ensures
        page_size == match max_keys {
            Some(number) => number,
            None => DEFAULT_PAGE_SIZE,
        },
{
    match max_keys {
        Some(number) => number,
        None => DEFAULT_PAGE_SIZE,
    }
}

/// The source of a copy: the bucket, a slash, and the object's key.
pub fn copy_source(bucket: &str, source_object: &str) -> (source: String)
    ensures
        source@ == bucket@ + "/"@ + source_object@,
{
    let mut source = bucket.to_owned();
    source.append("/");
    source.append(source_object);
    source
}

/// Whether an object exists, from what asking for its metadata gave:
/// `outcome` is `Ok` where the service answered, else the client's
/// description of the failure together with the service's error code, if it
/// sent one. The code `NotFound` means that the object does not exist; any
/// other failure is an error.
pub fn exists_from(outcome: Result<(), (String, Option<String>)>) -> (exists: S3Result<bool>)
    ensures
        match outcome {
            Ok(_) => exists == Ok::<bool, S3Error>(true),
            Err((detail, code)) => if code is Some && code->0@ == "NotFound"@ {
                exists == Ok::<bool, S3Error>(false)
            } else {
                exists == Err::<bool, S3Error>(S3Error::HeaderObjectError(detail))
            },
        },
{
    match outcome {
        Ok(_) => Ok(true),
        Err((detail, code)) => {
            let missing = match code {
                Some(code) => code == String::from_str("NotFound"),
                None => false,
            };
            if missing {
                Ok(false)
            } else {
                Err(S3Error::HeaderObjectError(detail))
            }
        },
    }
}

/// Whether deleting the bucket succeeded, from what the service gave, as in
/// `exists_from`. A bucket that does not exist counts as deleted.
pub fn bucket_deleted(outcome: Result<(), (String, Option<String>)>) -> (deleted: S3Result<()>)
    ensures
        match outcome {
            Ok(_) => deleted is Ok,
            Err((detail, code)) => if code is Some && code->0@ == "NoSuchBucket"@ {
                deleted is Ok
            } else {
                deleted == Err::<(), S3Error>(S3Error::DeleteBucketError(detail))
            },
        },
{
    match outcome {
        Ok(_) => Ok(()),
        Err((detail, code)) => {
            let missing = match code {
                Some(code) => code == String::from_str("NoSuchBucket"),
                None => false,
            };
            if missing {
                Ok(())
            } else {
                Err(S3Error::DeleteBucketError(detail))
            }
        },
    }
}

/// Whether a bucket was cleared, from the keys that a listing still finds
/// after its objects were deleted.
pub fn bucket_cleared(remaining: &Vec<String>) -> (cleared: S3Result<()>)
    ensures
        remaining@.len() == 0 ==> cleared is Ok,
        remaining@.len() > 0 ==> cleared == Err::<(), S3Error>(S3Error::BucketNotEmpty),
{
    if remaining.len() == 0 {
        Ok(())
    } else {
        Err(S3Error::BucketNotEmpty)
    }
}

/// `ranges` cuts the bytes from 0 up to `total` into consecutive pieces of
/// `chunk` bytes each, but for the last, which ends with the last byte. Each
/// piece is given by its first and its last byte.
pub open spec fn chunked(ranges: Seq<(usize, usize)>, total: nat, chunk: nat) -> bool {
    &&& total == 0 <==> ranges.len() == 0
    &&& forall|i: int|
        0 <= i < ranges.len() ==> {
            &&& (#[trigger] ranges[i]).0 == i * chunk
            &&& ranges[i].0 < total
            &&& ranges[i].1 == if (i + 1) * chunk < total {
                (i + 1) * chunk - 1
            } else {
                total - 1
            }
        }
    &&& ranges.len() > 0 ==> ranges.last().1 == total - 1
}

/// Cuts an object of `total_size` bytes into the byte ranges that are
/// fetched one by one. There is no chunk of no bytes: with a chunk size of
/// zero there is no answer.
pub fn byte_ranges(total_size: usize, chunk_size: usize) -> (cut: Option<Vec<(usize, usize)>>)
    ensures
        chunk_size == 0 ==> cut is None,
        chunk_size > 0 ==> cut is Some && chunked(cut->0@, total_size as nat, chunk_size as nat),
{
    if chunk_size == 0 {
        return None;
    }
    let mut ranges: Vec<(usize, usize)> = Vec::new();
    if total_size == 0 {
        return Some(ranges);
    }
    let mut start: usize = 0;
    let mut done = false;
    assert(ranges@.len() * chunk_size == 0) by (nonlinear_arith)
        requires
            ranges@.len() == 0,
    ;
    while !done
        invariant
            chunk_size > 0,
            total_size > 0,
            !done ==> start < total_size,
            !done ==> start == ranges@.len() * chunk_size,
            done ==> ranges@.len() > 0 && ranges@.last().1 == total_size - 1,
            forall|i: int|
                0 <= i < ranges@.len() ==> {
                    &&& (#[trigger] ranges@[i]).0 == i * chunk_size
                    &&& ranges@[i].0 < total_size
                    &&& ranges@[i].1 == if (i + 1) * chunk_size < total_size {
                        (i + 1) * chunk_size - 1
                    } else {
                        total_size - 1
                    }
                },
        decreases total_size - start + (if done { 0int } else { 1int }),
    {
        let ghost count = ranges@.len() as int;
        assert((count + 1) * chunk_size == count * chunk_size + chunk_size) by (nonlinear_arith);
        if total_size - start > chunk_size {
            ranges.push((start, start + chunk_size - 1));
            start = start + chunk_size;
        } else {
            ranges.push((start, total_size - 1));
            done = true;
        }
    }
    Some(ranges)
}

/// The `Range` header that asks for the bytes from `start` to `end`.
pub fn range_header(start: usize, end: usize) -> (header: String)
    ensures
        header@ == "bytes="@ + decimal(start as nat) + "-"@ + decimal(end as nat),
{
    let mut header = String::from_str("bytes=");
    header.append(decimal_text(start as u64).as_str());
    header.append("-");
    header.append(decimal_text(end as u64).as_str());
    header
}

/// The parts of a multipart upload that were stored so far.
#[derive(Debug)]
pub struct MultipartUpload {
    parts: Vec<(i32, String)>,
}

impl MultipartUpload {
    /// The stored parts, each with its number and the entity tag that the
    /// service gave it.
    pub closed spec fn stored(&self) -> Seq<(i32, String)> {
        self.parts@
    }

    /// Parts are numbered from 1 in the order in which they were stored.
    pub closed spec fn wf(&self) -> bool {
        &&& self.parts@.len() < i32::MAX
        &&& forall|i: int| 0 <= i < self.parts@.len() ==> (#[trigger] self.parts@[i]).0 == i + 1
    }

    /// An upload without parts.
    pub fn new() -> (upload: MultipartUpload)
        ensures
            upload.wf(),
            upload.stored().len() == 0,
    {
        MultipartUpload { parts: Vec::new() }
    }

    /// The number of the part to send next.
    pub fn next_part_number(&self) -> (number: i32)
        requires
            self.wf(),
        ensures
            number == self.stored().len() + 1,
    {
        (self.parts.len() as i32) + 1
    }

    /// Decides what to do after reading from the file: a read of no bytes
    /// ends the file, so the upload is completed (`None`); anything else is
    /// sent as the part with the returned number.
    pub fn next_step(&self, read_bytes: usize) -> (part: Option<i32>)
        requires
            self.wf(),
        ensures
            part == if read_bytes == 0 {
                None
            } else {
                Some((self.stored().len() + 1) as i32)
            },
    {
        if read_bytes == 0 {
            None
        } else {
            Some(self.next_part_number())
        }
    }

    /// Records that the next part was stored under `e_tag`. Returns `false`,
    /// and records nothing, where the part numbers are used up.
    pub fn record_part(&mut self, e_tag: String) -> (recorded: bool)
        requires
            old(self).wf(),
        ensures
            final(self).wf(),
            recorded == (old(self).stored().len() + 1 < i32::MAX),
            recorded ==> final(self).stored() == old(self).stored().push(
                ((old(self).stored().len() + 1) as i32, e_tag),
            ),
            !recorded ==> final(self).stored() == old(self).stored(),
    {
        if self.parts.len() >= 2147483646 {
            return false;
        }
        let number = self.next_part_number();
        self.parts.push((number, e_tag));
        true
    }

    /// The parts to complete the upload with.
    pub fn into_parts(self) -> (parts: Vec<(i32, String)>)
        ensures
            parts@ == self.stored(),
    {
        self.parts
    }
}

} // verus!
