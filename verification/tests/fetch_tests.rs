use ruffle::fetch::{
    concurrent_read_error, content_length, file_body, file_expected_length, file_next_chunk,
    network_chunk, DesktopResponse, LoaderError,
};

#[test]
fn content_length_parses_the_header() {
    assert_eq!(content_length(None), Ok(None));
    assert_eq!(content_length(Some(Ok("1234"))), Ok(Some(1234)));
    assert_eq!(content_length(Some(Ok("+12"))), Ok(Some(12)));
    assert_eq!(content_length(Some(Ok("0"))), Ok(Some(0)));
    assert_eq!(
        content_length(Some(Ok("18446744073709551615"))),
        Ok(Some(u64::MAX))
    );
}

#[test]
fn content_length_errors() {
    assert_eq!(content_length(Some(Err(()))), Err(LoaderError::InvalidHeaderValue));
    assert_eq!(content_length(Some(Ok("x"))), Err(LoaderError::InvalidNumber));
    assert_eq!(content_length(Some(Ok(""))), Err(LoaderError::InvalidNumber));
    assert_eq!(content_length(Some(Ok("-1"))), Err(LoaderError::InvalidNumber));
    assert_eq!(content_length(Some(Ok(" 12"))), Err(LoaderError::InvalidNumber));
    assert_eq!(
        content_length(Some(Ok("18446744073709551616"))),
        Err(LoaderError::InvalidNumber)
    );
}

#[test]
fn network_chunks() {
    assert_eq!(network_chunk(vec![1, 2, 3, 4], Ok(2)), Ok(Some(vec![1, 2])));
    assert_eq!(network_chunk(vec![1, 2, 3, 4], Ok(4)), Ok(Some(vec![1, 2, 3, 4])));
    assert_eq!(network_chunk(vec![1, 2, 3, 4], Ok(0)), Ok(None));
    assert_eq!(
        network_chunk(vec![1], Err("reset".to_string())),
        Err(LoaderError::FetchError("reset".to_string()))
    );
    assert_eq!(
        concurrent_read_error(),
        LoaderError::FetchError(
            "Concurrent read operations on the same stream are not supported.".to_string()
        )
    );
}

#[test]
fn file_bodies_come_in_one_chunk() {
    let mut file: Result<Vec<u8>, String> = Ok(vec![5, 6, 7]);
    assert_eq!(file_expected_length(&file), Ok(Some(3)));
    assert_eq!(file_next_chunk(&mut file), Ok(Some(vec![5, 6, 7])));
    assert_eq!(file_next_chunk(&mut file), Ok(None));
    assert_eq!(file_next_chunk(&mut file), Ok(None));
    let mut empty: Result<Vec<u8>, String> = Ok(vec![]);
    assert_eq!(file_next_chunk(&mut empty), Ok(None));
}

#[test]
fn failed_file_reads_give_their_error() {
    let mut file: Result<Vec<u8>, String> = Err("missing".to_string());
    assert_eq!(file_expected_length(&file), Ok(None));
    assert_eq!(file_next_chunk(&mut file), Err(LoaderError::FetchError("missing".to_string())));
    assert_eq!(file_next_chunk(&mut file), Err(LoaderError::FetchError("missing".to_string())));
    assert_eq!(file_body(file), Err(LoaderError::FetchError("missing".to_string())));
    assert_eq!(file_body(Ok(vec![1])), Ok(vec![1]));
}

#[test]
fn desktop_response_accessors() {
    let mut r = DesktopResponse {
        url: "file:///movie.swf".to_string(),
        body: Ok(vec![1, 2]),
        status: 200,
        redirected: false,
    };
    assert_eq!(r.url(), "file:///movie.swf");
    assert_eq!(r.status(), 200);
    assert!(!r.redirected());
    assert_eq!(r.expected_length(), Ok(Some(2)));
    assert_eq!(r.next_chunk(), Ok(Some(vec![1, 2])));
    assert_eq!(r.next_chunk(), Ok(None));
    assert_eq!(r.status(), 200);
    let whole = DesktopResponse {
        url: String::new(),
        body: Ok(vec![9]),
        status: 200,
        redirected: true,
    };
    assert!(whole.redirected());
    assert_eq!(whole.body(), Ok(vec![9]));
}

#[test]
fn a_failed_file_response_keeps_failing_with_its_message() {
    let mut r = DesktopResponse { url: String::new(), body: Err(String::new()), status: 0, redirected: false };
    assert_eq!(r.next_chunk(), Err(LoaderError::FetchError(String::new())));
    assert_eq!(r.next_chunk(), Err(LoaderError::FetchError(String::new())));
    assert_eq!(r.body, Err(String::new()));
}
