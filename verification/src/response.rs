//! The response-serving contract: a writable response-sink capability, and
//! the two serving operations (`serve`, `serve_file`) layered on top of it.
//!
//! The sink is allocated per request by the transport; this module only asks
//! that it expose byte-write, status-set and content-type-set operations, and
//! provides [`MemSink`], an in-memory sink that buffers the response.

use vstd::prelude::*;

use crate::mimes::extension_of;
use crate::mimes::resolve;
use crate::mimes::spec_media_for_path;
use crate::mimes::MediaType;

verus! {

/// The status type of the `http` crate, declared so that a status value can
/// stand in signatures and fields. It is carried through untouched: nothing
/// of what is inside it is relied upon.
#[verifier::external_type_specification]
#[verifier::external_body]
pub struct ExStatusCode(http::StatusCode);

/// An I/O failure: of the file side (the file does not exist, may not be
/// read, or reading it failed) or of the sink's write side. It is propagated
/// unchanged to the caller; no retry, no automatic status translation.
#[derive(Clone, Copy, Debug, PartialEq, Eq, Structural)]
pub enum IoError {
    NotFound,
    PermissionDenied,
    Other,
}

/// The per-request response sink: a mutable status, a mutable content-type
/// header, and a byte-writable body. Status and content-type are meant to be
/// set before body bytes are written; the contract does not guard against
/// interleaving them.
pub trait Sink {
    /// The sink's current status.
    spec fn status(&self) -> http::StatusCode;

    /// The sink's current content-type header, as a `(type, subtype)` pair.
    spec fn media(&self) -> Option<(Seq<char>, Seq<char>)>;

    /// The bytes written to the sink so far.
    spec fn body(&self) -> Seq<u8>;

    /// Whether writes to this sink cannot fail; an in-memory sink buffers and
    /// always succeeds, one backed by a connection may not.
    spec fn infallible(&self) -> bool;

    /// Set the sink's status, leaving header and body untouched.
    fn set_status(&mut self, status: http::StatusCode)
        ensures
            final(self).status() == status,
            final(self).media() == old(self).media(),
            final(self).body() == old(self).body(),
            final(self).infallible() == old(self).infallible(),
    ;

    /// Set the sink's content-type header, leaving status and body untouched.
    fn set_content_type(&mut self, media: MediaType)
        ensures
            final(self).status() == old(self).status(),
            final(self).media() == Some(media@),
            final(self).body() == old(self).body(),
            final(self).infallible() == old(self).infallible(),
    ;

    /// Append `buf` to the sink's body. On failure some prefix of `buf` may
    /// have been written; status and header are never touched by a write.
    fn write_bytes(&mut self, buf: &[u8]) -> (r: Result<(), IoError>)
        ensures
            final(self).status() == old(self).status(),
            final(self).media() == old(self).media(),
            final(self).infallible() == old(self).infallible(),
            old(self).infallible() ==> r is Ok,
            r is Ok ==> final(self).body() == old(self).body() + buf@,
            r is Err ==> exists|k: int|
                0 <= k <= buf@.len() && final(self).body() == old(self).body() + buf@.subrange(
                    0,
                    k,
                ),
    ;
}

/// The serving operations every sink gains: serve raw bytes under an explicit
/// status, and serve a file's bytes under an inferred content type.
pub trait Serve: Sink {
    /// Set `status` on the sink, then write `body`'s bytes, in that order.
    /// A write failure is forwarded to the caller; the status stands either
    /// way, the content-type header is never touched.
    fn serve(&mut self, status: http::StatusCode, body: &[u8]) -> (r: Result<(), IoError>)
        ensures
            final(self).status() == status,
            final(self).media() == old(self).media(),
            final(self).infallible() == old(self).infallible(),
            old(self).infallible() ==> r is Ok,
            r is Ok ==> final(self).body() == old(self).body() + body@,
            r is Err ==> exists|k: int|
                0 <= k <= body@.len() && final(self).body() == old(self).body() + body@.subrange(
                    0,
                    k,
                ),
    ;

    /// Serve the bytes read from the file at `path`; `file` is what the
    /// file-open capability of the transport handed back for that path.
    ///
    /// An open or read failure is returned unchanged, with nothing written
    /// and nothing set: whoever catches it is responsible for choosing a
    /// failure status. On success the content type is inferred from the
    /// path's extension, where the table knows it; an unregistered or absent
    /// extension leaves the header as it was. No status is ever set: the
    /// sink's prior status is served as-is.
    ///
    /// Serving a file is usually terminal: a handler that succeeds here
    /// should signal an unwind, since later writers would corrupt the
    /// response — a convention, not something this contract enforces.
    fn serve_file(&mut self, path: &str, file: Result<Vec<u8>, IoError>) -> (r: Result<
        (),
        IoError,
    >)
        ensures
            final(self).status() == old(self).status(),
            final(self).infallible() == old(self).infallible(),
            file matches Err(e) ==> r == Err::<(), IoError>(e) && final(self).body() == old(
                self,
            ).body() && final(self).media() == old(self).media(),
            file is Ok ==> match spec_media_for_path(path@) {
                Some(m) => final(self).media() == Some(m),
                None => final(self).media() == old(self).media(),
            },
            old(self).infallible() && file is Ok ==> r is Ok,
            r is Ok ==> file is Ok,
            file matches Ok(c) ==> (r is Ok ==> final(self).body() == old(self).body() + c@),
            file matches Ok(c) ==> (r is Err ==> exists|k: int|
                0 <= k <= c@.len() && final(self).body() == old(self).body() + c@.subrange(0, k)),
    ;
}

impl<T: Sink> Serve for T {
    fn serve(&mut self, status: http::StatusCode, body: &[u8]) -> (r: Result<(), IoError>) {
        self.set_status(status);
        self.write_bytes(body)
    }

    fn serve_file(&mut self, path: &str, file: Result<Vec<u8>, IoError>) -> (r: Result<
        (),
        IoError,
    >) {
        match file {
            Err(e) => Err(e),
            Ok(contents) => {
                match extension_of(path) {
                    Some(ext) => match resolve(ext) {
                        Some(media) => self.set_content_type(media),
                        None => (),
                    },
                    None => (),
                }
                self.write_bytes(contents.as_slice())
            },
        }
    }
}

/// An in-memory response sink: buffers status, content type and body until a
/// transport flushes them to the wire. Its writes always succeed.
pub struct MemSink {
    pub status: http::StatusCode,
    pub content_type: Option<MediaType>,
    pub body: Vec<u8>,
}

impl MemSink {
    /// An empty sink under the transport's initial status; no content type
    /// is set and no byte has been written.
    pub fn new(status: http::StatusCode) -> (s: MemSink)
        ensures
            s.status == status,
            s.content_type is None,
            s.body@ == Seq::<u8>::empty(),
    {
        MemSink { status, content_type: None, body: Vec::new() }
    }
}

impl Sink for MemSink {
    open spec fn status(&self) -> http::StatusCode {
        self.status
    }

    open spec fn media(&self) -> Option<(Seq<char>, Seq<char>)> {
        match self.content_type {
            Some(m) => Some(m@),
            None => None,
        }
    }

    open spec fn body(&self) -> Seq<u8> {
        self.body@
    }

    open spec fn infallible(&self) -> bool {
        true
    }

    fn set_status(&mut self, status: http::StatusCode) {
        self.status = status;
    }

    fn set_content_type(&mut self, media: MediaType) {
        self.content_type = Some(media);
    }

    fn write_bytes(&mut self, buf: &[u8]) -> (r: Result<(), IoError>) {
        let mut i: usize = 0;
        proof {
            assert(self.body@ + buf@.subrange(0, 0) =~= self.body@);
        }
        while i < buf.len()
            invariant
                0 <= i <= buf@.len(),
                self.status == old(self).status,
                self.content_type == old(self).content_type,
                self.body@ == old(self).body@ + buf@.subrange(0, i as int),
            decreases buf@.len() - i,
        {
            proof {
                assert(buf@.subrange(0, i + 1) =~= buf@.subrange(0, i as int).push(buf@[i as int]));
            }
            self.body.push(buf[i]);
            i += 1;
        }
        proof {
            assert(buf@.subrange(0, buf@.len() as int) =~= buf@);
        }
        Ok(())
    }
}

} // verus!
