//! Responses of the desktop navigator: a body read from a file arrives in
//! one chunk; a body read from the network arrives in reads of up to
//! [`CHUNK_SIZE`] bytes, and its expected length comes from the
//! `Content-Length` header.
use vstd::prelude::*;
use crate::parse::{parse_u64, spec_parse_u64};

verus! {

/// The size of the buffer that one network read fills at most.
pub const CHUNK_SIZE: usize = 4096;

/// Errors of loading a response.
#[derive(Clone, Debug, PartialEq, Eq)]
pub enum LoaderError {
    /// Reading the body failed; the message says why.
    FetchError(String),
    /// The `Content-Length` header is not visible ASCII.
    InvalidHeaderValue,
    /// The `Content-Length` header is not a number.
    InvalidNumber,
}

/// The expected length of a network response: none without a
/// `Content-Length` header; else the header's number, or the error of a
/// header that is not text or not a number. `header` is the header's text,
/// or `Err` when it is not visible ASCII.
pub fn content_length(header: Option<Result<&str, ()>>) -> (r: Result<Option<u64>, LoaderError>)
    ensures
        header is None ==> r == Ok::<Option<u64>, LoaderError>(None),
        header matches Some(Err(_)) ==> r == Err::<Option<u64>, LoaderError>(
            LoaderError::InvalidHeaderValue,
        ),
        header matches Some(Ok(s)) ==> r == (match spec_parse_u64(s@) {
            Some(n) => Ok::<Option<u64>, LoaderError>(Some(n)),
            None => Err(LoaderError::InvalidNumber),
        }),
{
    match header {
        None => Ok(None),
        Some(Err(_)) => Err(LoaderError::InvalidHeaderValue),
        Some(Ok(s)) => match parse_u64(s) {
            Ok(n) => Ok(Some(n)),
            Err(_) => Err(LoaderError::InvalidNumber),
        },
    }
}

/// The error of a second read started while one is in progress.
pub fn concurrent_read_error() -> (e: LoaderError)
    ensures
        e matches LoaderError::FetchError(m) && m@
            == "Concurrent read operations on the same stream are not supported."@,
{
    LoaderError::FetchError(
        String::from_str("Concurrent read operations on the same stream are not supported."),
    )
}

/// The chunk that one network read gives: the first `count` bytes of the
/// buffer it filled, none at the end of the stream, or the read's error.
pub fn network_chunk(buf: Vec<u8>, read: Result<usize, String>) -> (r: Result<
    Option<Vec<u8>>,
    LoaderError,
>)
    requires
        read matches Ok(count) ==> count <= buf@.len(),
    ensures
        read matches Ok(count) ==> (count > 0 ==> (r matches Ok(Some(c)) && c@ == buf@.subrange(
            0,
            count as int,
        ))),
        read matches Ok(count) ==> (count == 0 ==> r == Ok::<Option<Vec<u8>>, LoaderError>(None)),
        read matches Err(e) ==> (r matches Err(LoaderError::FetchError(m)) && m@ == e@),
{
    match read {
        Ok(count) => {
            if count > 0 {
                let mut buf = buf;
                buf.truncate(count);
                Ok(Some(buf))
            } else {
                Ok(None)
            }
        },
        Err(e) => Err(LoaderError::FetchError(e)),
    }
}

/// What a file body's next read gives, and what the file holds after it.
pub open spec fn file_chunk_step(file: Result<Seq<u8>, Seq<char>>) -> (
    Result<Option<Seq<u8>>, Seq<char>>,
    Result<Seq<u8>, Seq<char>>,
) {
    match file {
        Ok(bytes) => if bytes.len() > 0 {
            (Ok(Some(bytes)), Ok(Seq::empty()))
        } else {
            (Ok(None), Ok(bytes))
        },
        Err(e) => (Err(e), Err(e)),
    }
}

/// The bytes of a file body, or the message of the error that reading it
/// gave.
pub open spec fn file_view(file: Result<Vec<u8>, String>) -> Result<Seq<u8>, Seq<char>> {
    match file {
        Ok(b) => Ok(b@),
        Err(e) => Err(e@),
    }
}

/// The view of a chunk result.
pub open spec fn chunk_view(r: Result<Option<Vec<u8>>, LoaderError>) -> Result<
    Option<Seq<u8>>,
    Seq<char>,
> {
    match r {
        Ok(Some(b)) => Ok(Some(b@)),
        Ok(None) => Ok(None),
        Err(LoaderError::FetchError(m)) => Err(m@),
        Err(_) => Err(Seq::empty()),
    }
}

/// The next chunk of a body read from a file: all of its bytes at once, then
/// nothing; or the error that reading the file gave, every time.
pub fn file_next_chunk(file: &mut Result<Vec<u8>, String>) -> (r: Result<
    Option<Vec<u8>>,
    LoaderError,
>)
    ensures
        (chunk_view(r), file_view(*final(file))) == file_chunk_step(file_view(*old(file))),
        (*old(file)) matches Err(e) ==> (r matches Err(LoaderError::FetchError(m)) && m@ == e@)
            && *final(file) == *old(file),
{
    match file {
        Ok(bytes) => {
            if bytes.len() > 0 {
                let mut taken: Vec<u8> = Vec::new();
                std::mem::swap(bytes, &mut taken);
                Ok(Some(taken))
            } else {
                Ok(None)
            }
        },
        Err(e) => Err(LoaderError::FetchError(e.clone())),
    }
}

/// The whole body read from a file, or the error that reading it gave.
pub fn file_body(file: Result<Vec<u8>, String>) -> (r: Result<Vec<u8>, LoaderError>)
    ensures
        file matches Ok(b) ==> (r matches Ok(b2) && b2@ == b@),
        file matches Err(e) ==> (r matches Err(LoaderError::FetchError(m)) && m@ == e@),
{
    match file {
        Ok(b) => Ok(b),
        Err(e) => Err(LoaderError::FetchError(e)),
    }
}

/// The expected length of a body read from a file: its size when it was
/// read, nothing when reading it failed.
pub fn file_expected_length(file: &Result<Vec<u8>, String>) -> (r: Result<Option<u64>, LoaderError>)
    ensures
        file matches Ok(b) ==> r == Ok::<Option<u64>, LoaderError>(Some(b@.len() as u64)),
        file is Err ==> r == Ok::<Option<u64>, LoaderError>(None),
{
    match file {
        Ok(b) => Ok(Some(b.len() as u64)),
        Err(_) => Ok(None),
    }
}

/// A file body comes in one chunk: once a read has given its bytes, the
/// next read gives nothing.
pub proof fn law_file_body_in_one_chunk(bytes: Seq<u8>)
    requires
        bytes.len() > 0,
    ensures
        file_chunk_step(Ok(bytes)).0 == Ok::<Option<Seq<u8>>, Seq<char>>(Some(bytes)),
        file_chunk_step(file_chunk_step(Ok(bytes)).1).0 == Ok::<Option<Seq<u8>>, Seq<char>>(None),
{
}

/// A response of the desktop navigator whose body was read from a file.
#[derive(Debug)]
pub struct DesktopResponse {
    pub url: String,
    pub body: Result<Vec<u8>, String>,
    pub status: u16,
    pub redirected: bool,
}

impl DesktopResponse {
    pub fn url(&self) -> (r: &str)
        ensures
            r@ == self.url@,
    {
        self.url.as_str()
    }

    pub fn status(&self) -> (r: u16)
        ensures
            r == self.status,
    {
        self.status
    }

    pub fn redirected(&self) -> (r: bool)
        ensures
            r == self.redirected,
    {
        self.redirected
    }

    pub fn body(self) -> (r: Result<Vec<u8>, LoaderError>)
        ensures
            self.body matches Ok(b) ==> (r matches Ok(b2) && b2@ == b@),
            self.body matches Err(e) ==> (r matches Err(LoaderError::FetchError(m)) && m@ == e@),
    {
        file_body(self.body)
    }

    pub fn next_chunk(&mut self) -> (r: Result<Option<Vec<u8>>, LoaderError>)
        ensures
            (chunk_view(r), file_view(final(self).body)) == file_chunk_step(file_view(old(self).body)),
            old(self).body matches Err(e) ==> (r matches Err(LoaderError::FetchError(m)) && m@ == e@)
                && final(self).body == old(self).body,
            final(self).url == old(self).url,
            final(self).status == old(self).status,
            final(self).redirected == old(self).redirected,
    {
        file_next_chunk(&mut self.body)
    }

    pub fn expected_length(&self) -> (r: Result<Option<u64>, LoaderError>)
        ensures
            self.body matches Ok(b) ==> r == Ok::<Option<u64>, LoaderError>(Some(b@.len() as u64)),
            self.body is Err ==> r == Ok::<Option<u64>, LoaderError>(None),
    {
        file_expected_length(&self.body)
    }
}

} // verus!
