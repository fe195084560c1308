use ipfs_client::error::Error;
use ipfs_client::multipart::{
    boundary_from, boundary_with, multipart_begin, multipart_body, multipart_boundary, multipart_end,
    MultipartEncoder, Stage, BOUNDARY_TOKEN_LEN,
};

fn count(haystack: &str, needle: &str) -> usize {
    haystack.matches(needle).count()
}

#[test]
fn preamble_without_length() {
    assert_eq!(
        multipart_begin(None, "B"),
        "POST /api/v0/add HTTP/1.1\r\nHost: localhost:5001\r\n\
         Content-Type: multipart/form-data; boundary=B\r\n--B\r\n\r\n"
    );
}

#[test]
fn preamble_with_length() {
    assert_eq!(
        multipart_begin(Some(4), "B"),
        "POST /api/v0/add HTTP/1.1\r\nHost: localhost:5001\r\nContent-Length: 4\r\n\
         Content-Type: multipart/form-data; boundary=B\r\n--B\r\n\r\n"
    );
    assert!(multipart_begin(Some(u64::MAX), "xyz")
        .contains("\r\nContent-Length: 18446744073709551615\r\n"));
    assert!(multipart_begin(Some(0), "xyz").contains("\r\nContent-Length: 0\r\n"));
}

#[test]
fn content_length_is_declared_once_or_not_at_all() {
    let boundary = multipart_boundary().unwrap();
    assert_eq!(count(&multipart_begin(None, &boundary), "Content-Length"), 0);
    let with = multipart_begin(Some(1234), &boundary);
    assert_eq!(count(&with, "Content-Length"), 1);
    assert_eq!(count(&with, "Content-Length: 1234\r\n"), 1);
}

#[test]
fn terminator_closes_the_boundary() {
    assert_eq!(multipart_end("B"), "--B--\r\n");
    assert_eq!(multipart_end("------------------------abc"), "--------------------------abc--\r\n");
}

#[test]
fn body_of_two_chunks() {
    let chunks = vec![b"ab".to_vec(), b"cd".to_vec()];
    let mut expected = multipart_begin(None, "B").into_bytes();
    expected.extend_from_slice(b"ab");
    expected.extend_from_slice(b"cd");
    expected.extend_from_slice(b"--B--\r\n");
    assert_eq!(multipart_body(None, "B", &chunks), expected);
    assert_eq!(
        multipart_body(None, "B", &chunks),
        b"POST /api/v0/add HTTP/1.1\r\nHost: localhost:5001\r\n\
          Content-Type: multipart/form-data; boundary=B\r\n--B\r\n\r\nabcd--B--\r\n"
            .to_vec()
    );
}

#[test]
fn body_does_not_depend_on_chunking() {
    let whole = multipart_body(Some(4), "B", &vec![b"abcd".to_vec()]);
    for chunks in [
        vec![b"ab".to_vec(), b"cd".to_vec()],
        vec![b"a".to_vec(), b"bcd".to_vec()],
        vec![b"a".to_vec(), b"b".to_vec(), b"c".to_vec(), b"d".to_vec()],
        vec![b"".to_vec(), b"abcd".to_vec(), b"".to_vec()],
    ] {
        assert_eq!(multipart_body(Some(4), "B", &chunks), whole);
    }
}

#[test]
fn body_of_empty_payload() {
    let mut expected = multipart_begin(Some(0), "B").into_bytes();
    expected.extend_from_slice(multipart_end("B").as_bytes());
    assert_eq!(multipart_body(Some(0), "B", &vec![]), expected);
}

#[test]
fn payload_bytes_pass_unchanged() {
    let payload: Vec<u8> = (0..=255).collect();
    let body = multipart_body(None, "B", &vec![payload.clone()]);
    let begin = multipart_begin(None, "B").into_bytes();
    assert_eq!(&body[begin.len()..begin.len() + 256], payload.as_slice());
}

#[test]
fn boundary_is_dashes_and_a_token() {
    let boundary = multipart_boundary().unwrap();
    assert_eq!(boundary.len(), 24 + BOUNDARY_TOKEN_LEN);
    assert_eq!(&boundary[..24], "------------------------");
    assert!(boundary[24..].chars().all(|c| c.is_ascii_alphanumeric()));
    assert_eq!(BOUNDARY_TOKEN_LEN, 18);
}

#[test]
fn boundaries_differ_from_call_to_call() {
    let first = multipart_boundary().unwrap();
    let second = multipart_boundary().unwrap();
    assert_ne!(first, second);
}

#[test]
fn boundary_of_given_token() {
    assert_eq!(boundary_with("abcDEF123"), "------------------------abcDEF123");
    assert_eq!(boundary_with(""), "------------------------");
}

#[test]
fn encoder_emits_preamble_payload_terminator() {
    let mut encoder = MultipartEncoder::new(Some(3), "B".to_string());
    assert_eq!(encoder.stage(), Stage::Start);
    assert_eq!(encoder.boundary(), "B");
    assert_eq!(encoder.begin(), Some(multipart_begin(Some(3), "B").into_bytes()));
    assert_eq!(encoder.stage(), Stage::Payload);
    assert_eq!(encoder.pass(vec![1, 2]), Some(vec![1, 2]));
    assert_eq!(encoder.pass(vec![]), Some(vec![]));
    assert_eq!(encoder.pass(vec![3]), Some(vec![3]));
    assert_eq!(encoder.stage(), Stage::Payload);
    assert_eq!(encoder.finish(), Some(b"--B--\r\n".to_vec()));
    assert_eq!(encoder.stage(), Stage::Finished);
}

#[test]
fn encoder_gives_nothing_out_of_turn() {
    let mut encoder = MultipartEncoder::new(None, "B".to_string());
    assert_eq!(encoder.pass(vec![1]), None);
    assert_eq!(encoder.finish(), None);
    assert_eq!(encoder.stage(), Stage::Start);
    assert!(encoder.begin().is_some());
    assert_eq!(encoder.begin(), None);
    assert_eq!(encoder.stage(), Stage::Payload);
    assert!(encoder.finish().is_some());
    assert_eq!(encoder.begin(), None);
    assert_eq!(encoder.pass(vec![1]), None);
    assert_eq!(encoder.finish(), None);
    assert_eq!(encoder.stage(), Stage::Finished);
}

#[test]
fn boundary_needs_entropy() {
    assert_eq!(boundary_from(None), Err(Error::EntropyUnavailableError));
    assert_eq!(
        boundary_from(Some("0123456789abcdefGH".to_string())),
        Ok("------------------------0123456789abcdefGH".to_string())
    );
}
