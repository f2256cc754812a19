use chat_rooms::api_response;
use chat_rooms::error::{error_body, kafka_response, s3_response, ApiError, HttpError};
use chat_rooms::images::{
    image_not_found, prepare_upload, validate_content_type, validate_filename, Image, UploadField,
    MAX_FILE_SIZE,
};
use chat_rooms::kafka::{Action, KafkaError, KafkaMessage};
use chat_rooms::s3::{
    bucket_cleared, bucket_deleted, byte_ranges, chunk_size_or_default, copy_source, exists_from,
    page_size, range_header, MultipartUpload, S3Error, DEFAULT_CHUNK_SIZE,
};

fn invalid_filename() -> HttpError {
    HttpError::BadRequest("Invalid filename".to_owned())
}

#[test]
fn filenames_of_letters_digits_hyphens_and_underscores_are_valid() {
    for name in ["a", "Z", "0", "-", "_", "photo_1", "0190c3e2-7b6f-7d3a-9c1e-4f5a6b7c8d9e", "ABC-xyz_0189"] {
        assert_eq!(validate_filename(name), Ok(()), "{}", name);
    }
    let long = "a".repeat(10_000);
    assert_eq!(validate_filename(&long), Ok(()));
}

#[test]
fn other_filenames_are_bad_requests() {
    for name in [
        "",
        " ",
        "a b",
        "a.jpg",
        "../etc/passwd",
        "a/b",
        "a\\b",
        "caf\u{e9}",
        "\u{ff21}",
        "a\0",
        "name!",
        "@",
        "[",
        "`",
        "{",
        "/",
        ":",
        "name\n",
    ] {
        assert_eq!(validate_filename(name), Err(invalid_filename()), "{:?}", name);
    }
}

#[test]
fn only_four_image_types_are_accepted() {
    for content_type in ["image/jpeg", "image/png", "image/gif", "image/webp"] {
        assert_eq!(validate_content_type(content_type), Ok(()));
    }
    for content_type in ["", "image/jpg", "image/svg+xml", "IMAGE/PNG", "image/png ", "application/octet-stream", "text/plain", "image/png; charset=utf-8"] {
        assert_eq!(validate_content_type(content_type), Err(HttpError::UnsupportedMediaType), "{}", content_type);
    }
}

fn field(content_type: Option<&str>, size: usize) -> Option<UploadField> {
    Some(UploadField { content_type: content_type.map(|c| c.to_string()), size })
}

#[test]
fn accepted_upload_is_announced_as_created() {
    let upload = prepare_upload(field(Some("image/png"), 1024), 0x42, "key-1").unwrap();
    assert_eq!(upload.content_type, "image/png");
    assert_eq!(
        upload.message,
        KafkaMessage::new(
            "00000000-0000-0000-0000-000000000042".to_string(),
            Action::Create,
            Some("key-1".to_string())
        )
    );
    assert!(prepare_upload(field(Some("image/gif"), MAX_FILE_SIZE), 1, "k").is_ok());
    assert!(prepare_upload(field(Some("image/gif"), 0), 1, "k").is_ok());
}

#[test]
fn rejected_uploads() {
    assert_eq!(MAX_FILE_SIZE, 10_485_760);
    assert_eq!(
        prepare_upload(None, 1, "k").unwrap_err(),
        HttpError::NotFound("File not found".to_string())
    );
    assert_eq!(
        prepare_upload(field(None, 10), 1, "k").unwrap_err(),
        HttpError::UnsupportedMediaType
    );
    assert_eq!(
        prepare_upload(field(Some("text/html"), 10), 1, "k").unwrap_err(),
        HttpError::UnsupportedMediaType
    );
    assert_eq!(
        prepare_upload(field(Some("image/png"), MAX_FILE_SIZE + 1), 1, "k").unwrap_err(),
        HttpError::BadRequest("File too large".to_string())
    );
    assert_eq!(
        prepare_upload(field(Some("text/html"), MAX_FILE_SIZE + 1), 1, "k").unwrap_err(),
        HttpError::UnsupportedMediaType
    );
}

#[test]
fn missing_image_is_named() {
    assert_eq!(image_not_found("cat"), HttpError::NotFound("Image cat not found".to_string()));
    assert_eq!(image_not_found(""), HttpError::NotFound("Image  not found".to_string()));
}

#[test]
fn images_from_names_and_files() {
    assert_eq!(Image::from("cat".to_string()), Image::Filename("cat".to_string()));
    assert_eq!(Image::named("cat"), Image::Filename("cat".to_string()));
    assert_eq!(
        Image::from(("cat".to_string(), vec![1u8, 2, 3])),
        Image::File("cat".to_string(), vec![1, 2, 3])
    );
    let converted: Image = ("dog".to_string(), Vec::new()).into();
    assert_eq!(converted, Image::File("dog".to_string(), Vec::new()));
}

#[test]
fn served_file_is_an_attachment() {
    let file = Image::File("cat".to_string(), vec![0xff, 0xd8]);
    assert_eq!(file.content_disposition(), Some("attachment; filename=\"cat\"".to_string()));
    assert_eq!(file.content_type(), Some("image/jpeg"));
    let name = Image::Filename("cat".to_string());
    assert_eq!(name.content_disposition(), None);
    assert_eq!(name.content_type(), None);
}

#[test]
fn http_errors_have_a_status_and_a_reason() {
    let cases = [
        (HttpError::BadRequest("b".to_string()), 400, "b", "Bad request: b"),
        (HttpError::Forbidden("f".to_string()), 403, "f", "Forbidden: f"),
        (HttpError::NotFound("n".to_string()), 404, "n", "Not found: n"),
        (HttpError::Internal("secret".to_string()), 500, "Internal Server Error", "Internal server error: secret"),
        (HttpError::NotImplemented, 501, "Not implemented", "Not implemented"),
        (HttpError::UnsupportedMediaType, 415, "Unsupported media type", "Not implemented"),
    ];
    for (error, status, reason, description) in cases {
        assert_eq!(error.status(), status);
        assert_eq!(error.reason(), reason);
        assert_eq!(error.describe(), description);
        let (code, body) = error.response();
        assert_eq!(code, status);
        assert_eq!(body, format!("{{\"error\":\"{}\"}}", reason));
    }
}

#[test]
fn error_body_quotes_its_reason() {
    assert_eq!(error_body("plain"), r#"{"error":"plain"}"#);
    assert_eq!(error_body("say \"hi\"\n"), r#"{"error":"say \"hi\"\n"}"#);
    let value: serde_json::Value = serde_json::from_str(&error_body("a\\b\t\u{1}")).unwrap();
    assert_eq!(value["error"].as_str(), Some("a\\b\t\u{1}"));
}

#[test]
fn api_errors_answer_as_the_error_inside() {
    let http = ApiError::from(HttpError::NotFound("gone".to_string()));
    assert_eq!(http.response(), (404, r#"{"error":"gone"}"#.to_string()));
    let kafka = ApiError::from(KafkaError::InvalidConfig("bad".to_string()));
    assert_eq!(kafka.response(), (409, r#"{"error":"bad"}"#.to_string()));
    let empty = ApiError::Kafka(KafkaError::EmptyPayload { topic: "images".to_string() });
    assert_eq!(empty.response(), (400, r#"{"error":"images"}"#.to_string()));
    let s3 = ApiError::from(S3Error::MissingETag);
    assert!(matches!(&s3, ApiError::S3(inner) if **inner == S3Error::MissingETag));
    assert_eq!(
        s3.response(),
        (500, r#"{"error":"MissingETag","message":"Missing ETag in upload_part response"}"#.to_string())
    );
    assert_eq!(
        kafka_response(&KafkaError::Kafka("down".to_string())),
        (500, r#"{"error":"down"}"#.to_string())
    );
}

#[test]
fn storage_errors_have_a_status_a_name_and_a_description() {
    let d = || "why".to_string();
    let cases = [
        (S3Error::GetObjectError(d()), 404, "GetObjectError", "Failed to get object from S3: why"),
        (S3Error::ListObjectError(d()), 400, "ListObjectError", "Failed to list objects in bucket: why"),
        (S3Error::PutObjectError(d()), 400, "PutObjectError", "Failed to put object to S3: why"),
        (S3Error::CopyObjectError(d()), 400, "CopyObjectError", "Failed to copy object: why"),
        (S3Error::UploadPart(d()), 400, "UploadPartError", "Failed to upload part: why"),
        (S3Error::CreateMultipart(d()), 400, "CreateMultipartError", "Failed to create multipart upload: why"),
        (S3Error::CompleteMultipart(d()), 400, "CompleteMultipartError", "Failed to complete multipart upload: why"),
        (S3Error::AbortMultipart(d()), 400, "AbortMultipartError", "Failed to abort multipart upload: why"),
        (S3Error::HeaderObjectError(d()), 404, "HeadObjectError", "Failed to get object metadata: why"),
        (S3Error::DeleteObjectError(d()), 400, "DeleteObjectError", "Failed to delete object: why"),
        (S3Error::DeleteObjectsError(d()), 400, "DeleteObjectsError", "Failed to delete multiple objects: why"),
        (S3Error::DeleteBucketError(d()), 400, "DeleteBucketError", "Failed to delete bucket: why"),
        (S3Error::MissingETag, 500, "MissingETag", "Missing ETag in upload_part response"),
        (S3Error::MissingUploadId, 500, "MissingUploadId", "Missing upload_id after CreateMultipartUpload"),
        (S3Error::IO(d()), 500, "IOError", "I/O error: why"),
        (S3Error::ByteStreamError(d()), 500, "ByteStreamError", "ByteStream error: why"),
        (S3Error::BuildError(d()), 500, "BuildError", "SDK build error: why"),
        (S3Error::TokioJoin(d()), 500, "TokioJoinError", "Tokio join error: why"),
        (S3Error::ConfigError(d()), 400, "ConfigError", "Configuration error: why"),
    ];
    for (error, status, name, description) in cases {
        assert_eq!(error.status(), status);
        assert_eq!(error.error_type(), name);
        assert_eq!(error.describe(), description);
        let (code, body) = s3_response(&error);
        assert_eq!(code, status);
        let value: serde_json::Value = serde_json::from_str(&body).unwrap();
        assert_eq!(value["error"].as_str(), Some(name));
        assert_eq!(value["message"].as_str(), Some(description));
    }
    assert_eq!(S3Error::BucketNotEmpty.status(), 409);
    assert_eq!(S3Error::BucketNotEmpty.error_type(), "BucketNotEmpty");
    assert!(S3Error::BucketNotEmpty.describe().starts_with("Bucket is not empty "));
    assert!(S3Error::BucketNotEmpty.describe().ends_with(" objects still remain inside"));
}

#[test]
fn plain_service_errors_answer_with_status_and_reason() {
    let cases = [
        (api_response::ApiError::BadRequest("b".to_string()), 400, "b"),
        (api_response::ApiError::Forbidden("f".to_string()), 403, "f"),
        (api_response::ApiError::NotFound("n".to_string()), 404, "n"),
        (api_response::ApiError::InternalServerError("secret".to_string()), 500, "Internal Server Error"),
        (api_response::ApiError::NotImplemented, 501, "Not implemented"),
    ];
    for (error, status, reason) in cases {
        assert_eq!(error.response(), (status, format!("{{\"error\":\"{}\"}}", reason)));
    }
}

#[test]
fn object_is_cut_into_consecutive_ranges() {
    assert_eq!(byte_ranges(0, 5), Some(Vec::new()));
    assert_eq!(byte_ranges(1, 5), Some(vec![(0, 0)]));
    assert_eq!(byte_ranges(4, 5), Some(vec![(0, 3)]));
    assert_eq!(byte_ranges(5, 5), Some(vec![(0, 4)]));
    assert_eq!(byte_ranges(6, 5), Some(vec![(0, 4), (5, 5)]));
    assert_eq!(byte_ranges(10, 5), Some(vec![(0, 4), (5, 9)]));
    assert_eq!(byte_ranges(11, 5), Some(vec![(0, 4), (5, 9), (10, 10)]));
    assert_eq!(byte_ranges(3, 1), Some(vec![(0, 0), (1, 1), (2, 2)]));
    assert_eq!(byte_ranges(usize::MAX, usize::MAX), Some(vec![(0, usize::MAX - 1)]));
    assert_eq!(
        byte_ranges(usize::MAX, usize::MAX - 1),
        Some(vec![(0, usize::MAX - 2), (usize::MAX - 1, usize::MAX - 1)])
    );
    let ranges = byte_ranges(12 * 1024 * 1024 + 1, DEFAULT_CHUNK_SIZE);
    assert_eq!(
        ranges,
        Some(vec![(0, 5242879), (5242880, 10485759), (10485760, 12582912)])
    );
    assert_eq!(byte_ranges(10, 0), None);
    assert_eq!(byte_ranges(0, 0), None);
}

#[test]
fn range_header_names_first_and_last_byte() {
    assert_eq!(range_header(0, 0), "bytes=0-0");
    assert_eq!(range_header(5242880, 10485759), "bytes=5242880-10485759");
}

#[test]
fn storage_defaults() {
    assert_eq!(DEFAULT_CHUNK_SIZE, 5_242_880);
    assert_eq!(chunk_size_or_default(None), 5_242_880);
    assert_eq!(chunk_size_or_default(Some(7)), 7);
    assert_eq!(chunk_size_or_default(Some(0)), 0);
    assert_eq!(page_size(None), 1000);
    assert_eq!(page_size(Some(1)), 1);
    assert_eq!(copy_source("my-bucket", "a/b.png"), "my-bucket/a/b.png");
}

#[test]
fn missing_object_and_missing_bucket_are_no_errors() {
    let failure = |code: Option<&str>| Err(("detail".to_string(), code.map(|c| c.to_string())));
    assert_eq!(exists_from(Ok(())), Ok(true));
    assert_eq!(exists_from(failure(Some("NotFound"))), Ok(false));
    assert_eq!(exists_from(failure(Some("AccessDenied"))), Err(S3Error::HeaderObjectError("detail".to_string())));
    assert_eq!(exists_from(failure(Some("NoSuchBucket"))), Err(S3Error::HeaderObjectError("detail".to_string())));
    assert_eq!(exists_from(failure(None)), Err(S3Error::HeaderObjectError("detail".to_string())));
    assert_eq!(bucket_deleted(Ok(())), Ok(()));
    assert_eq!(bucket_deleted(failure(Some("NoSuchBucket"))), Ok(()));
    assert_eq!(bucket_deleted(failure(Some("NotFound"))), Err(S3Error::DeleteBucketError("detail".to_string())));
    assert_eq!(bucket_deleted(failure(None)), Err(S3Error::DeleteBucketError("detail".to_string())));
    assert_eq!(bucket_cleared(&Vec::new()), Ok(()));
    assert_eq!(bucket_cleared(&vec!["left".to_string()]), Err(S3Error::BucketNotEmpty));
}

#[test]
fn parts_are_numbered_from_one() {
    let mut upload = MultipartUpload::new();
    assert_eq!(upload.next_part_number(), 1);
    assert_eq!(upload.next_step(0), None);
    assert_eq!(upload.next_step(10), Some(1));
    assert!(upload.record_part("tag-a".to_string()));
    assert_eq!(upload.next_step(1), Some(2));
    assert!(upload.record_part("tag-b".to_string()));
    assert_eq!(upload.next_part_number(), 3);
    assert_eq!(upload.next_step(0), None);
    assert_eq!(upload.into_parts(), vec![(1, "tag-a".to_string()), (2, "tag-b".to_string())]);
    assert_eq!(MultipartUpload::new().into_parts(), Vec::new());
}
