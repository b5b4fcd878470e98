//! Type-erasing wrappers around the stream interfaces: the opaque stream
//! objects handed across the runtime boundary, and the factories and
//! hashing entry points exposed alongside them.

use vstd::prelude::*;

use crate::mock::MockInputStream;
use crate::mock::MockIoStream;
use crate::mock::MockOutputStream;
use crate::pump::compute_stream_hash;
use crate::pump::spec_fnv1a;
use crate::pump::FNV_OFFSET_BASIS;
use crate::stream::AsyncInputStream;
use crate::stream::AsyncIoStream;
use crate::stream::AsyncOutputStream;
use crate::stream::StreamError;

verus! {

/// An opaque wrapper holding any input stream implementation, presented
/// to the other runtime as a single stream type.
pub struct RustAsyncInputStream<T: AsyncInputStream> {
    inner: T,
}

impl<T: AsyncInputStream> RustAsyncInputStream<T> {
    /// Wrap an input stream for hand-off across the boundary.
    pub fn new(stream: T) -> (r: RustAsyncInputStream<T>)
        ensures
            r.spec_inner() == stream,
    {
        RustAsyncInputStream { inner: stream }
    }

    /// The wrapped stream, for contracts.
    pub closed spec fn spec_inner(&self) -> T {
        self.inner
    }
}

impl<T: AsyncInputStream> AsyncInputStream for RustAsyncInputStream<T> {
    closed spec fn spec_input_wf(&self) -> bool {
        self.inner.spec_input_wf()
    }

    closed spec fn spec_data(&self) -> Seq<u8> {
        self.inner.spec_data()
    }

    closed spec fn spec_read_errors(&self) -> bool {
        self.inner.spec_read_errors()
    }

    closed spec fn spec_knows_length(&self) -> bool {
        self.inner.spec_knows_length()
    }

    fn try_read(&mut self, max_bytes: usize, min_bytes: usize) -> (r: Result<
        Vec<u8>,
        StreamError,
    >) {
        self.inner.try_read(max_bytes, min_bytes)
    }

    fn try_get_length(&self) -> (r: Option<usize>) {
        self.inner.try_get_length()
    }
}

/// An opaque wrapper holding any output stream implementation.
pub struct RustAsyncOutputStream<T: AsyncOutputStream> {
    inner: T,
}

impl<T: AsyncOutputStream> RustAsyncOutputStream<T> {
    /// Wrap an output stream for hand-off across the boundary.
    pub fn new(stream: T) -> (r: RustAsyncOutputStream<T>)
        ensures
            r.spec_inner() == stream,
    {
        RustAsyncOutputStream { inner: stream }
    }

    /// The wrapped stream, for contracts.
    pub closed spec fn spec_inner(&self) -> T {
        self.inner
    }

    /// Double-dispatch hook for pumping: none of the wrapped streams
    /// knows an optimized pump, so this reports zero optimized bytes and
    /// leaves both streams untouched, and the caller falls back to the
    /// naive pump.
    pub fn try_pump_from<I: AsyncInputStream>(
        &mut self,
        input: &mut RustAsyncInputStream<I>,
        amount: usize,
    ) -> (r: Result<usize, StreamError>)
        ensures
            *final(self) == *old(self),
            *final(input) == *old(input),
            r == Result::<usize, StreamError>::Ok(0),
    {
        Ok(0)
    }
}

impl<T: AsyncOutputStream> AsyncOutputStream for RustAsyncOutputStream<T> {
    closed spec fn spec_output_wf(&self) -> bool {
        self.inner.spec_output_wf()
    }

    closed spec fn spec_written(&self) -> Seq<u8> {
        self.inner.spec_written()
    }

    closed spec fn spec_write_errors(&self) -> bool {
        self.inner.spec_write_errors()
    }

    closed spec fn spec_disconnected(&self) -> bool {
        self.inner.spec_disconnected()
    }

    fn write(&mut self, buffer: &[u8]) -> (r: Result<(), StreamError>) {
        self.inner.write(buffer)
    }

    fn write_vectored(&mut self, pieces: &Vec<Vec<u8>>) -> (r: Result<(), StreamError>) {
        self.inner.write_vectored(pieces)
    }

    fn when_write_disconnected(&mut self) -> (r: Option<()>) {
        self.inner.when_write_disconnected()
    }
}

/// An opaque wrapper holding any bidirectional stream implementation.
pub struct RustAsyncIoStream<T: AsyncIoStream> {
    inner: T,
}

impl<T: AsyncIoStream> RustAsyncIoStream<T> {
    /// Wrap a bidirectional stream for hand-off across the boundary.
    pub fn new(stream: T) -> (r: RustAsyncIoStream<T>)
        ensures
            r.spec_inner() == stream,
    {
        RustAsyncIoStream { inner: stream }
    }

    /// The wrapped stream, for contracts.
    pub closed spec fn spec_inner(&self) -> T {
        self.inner
    }

    /// Double-dispatch hook for pumping: none of the wrapped streams
    /// knows an optimized pump, so this reports zero optimized bytes and
    /// leaves both streams untouched, and the caller falls back to the
    /// naive pump.
    pub fn try_pump_from<I: AsyncInputStream>(
        &mut self,
        input: &mut RustAsyncInputStream<I>,
        amount: usize,
    ) -> (r: Result<usize, StreamError>)
        ensures
            *final(self) == *old(self),
            *final(input) == *old(input),
            r == Result::<usize, StreamError>::Ok(0),
    {
        Ok(0)
    }
}

impl<T: AsyncIoStream> AsyncInputStream for RustAsyncIoStream<T> {
    closed spec fn spec_input_wf(&self) -> bool {
        self.inner.spec_input_wf()
    }

    closed spec fn spec_data(&self) -> Seq<u8> {
        self.inner.spec_data()
    }

    closed spec fn spec_read_errors(&self) -> bool {
        self.inner.spec_read_errors()
    }

    closed spec fn spec_knows_length(&self) -> bool {
        self.inner.spec_knows_length()
    }

    fn try_read(&mut self, max_bytes: usize, min_bytes: usize) -> (r: Result<
        Vec<u8>,
        StreamError,
    >) {
        self.inner.try_read(max_bytes, min_bytes)
    }

    fn try_get_length(&self) -> (r: Option<usize>) {
        self.inner.try_get_length()
    }
}

impl<T: AsyncIoStream> AsyncOutputStream for RustAsyncIoStream<T> {
    closed spec fn spec_output_wf(&self) -> bool {
        self.inner.spec_output_wf()
    }

    closed spec fn spec_written(&self) -> Seq<u8> {
        self.inner.spec_written()
    }

    closed spec fn spec_write_errors(&self) -> bool {
        self.inner.spec_write_errors()
    }

    closed spec fn spec_disconnected(&self) -> bool {
        self.inner.spec_disconnected()
    }

    fn write(&mut self, buffer: &[u8]) -> (r: Result<(), StreamError>) {
        self.inner.write(buffer)
    }

    fn write_vectored(&mut self, pieces: &Vec<Vec<u8>>) -> (r: Result<(), StreamError>) {
        self.inner.write_vectored(pieces)
    }

    fn when_write_disconnected(&mut self) -> (r: Option<()>) {
        self.inner.when_write_disconnected()
    }
}

impl<T: AsyncIoStream> AsyncIoStream for RustAsyncIoStream<T> {
    closed spec fn spec_is_shutdown(&self) -> bool {
        self.inner.spec_is_shutdown()
    }

    closed spec fn spec_shutdown_errors(&self) -> bool {
        self.inner.spec_shutdown_errors()
    }

    fn shutdown_write(&mut self) -> (r: Result<(), StreamError>) {
        self.inner.shutdown_write()
    }

    fn abort_read(&mut self) {
        self.inner.abort_read()
    }
}

/// Hash everything a wrapped input stream will still produce with 64-bit
/// FNV-1a; the entry point offered across the boundary.
pub fn compute_stream_hash_rust_ffi<T: AsyncInputStream>(
    stream: &mut RustAsyncInputStream<T>,
) -> (r: Result<u64, StreamError>)
    requires
        old(stream).spec_input_wf(),
    ensures
        final(stream).spec_input_wf(),
        old(stream).spec_read_errors() ==> r == Result::<u64, StreamError>::Err(
            StreamError::ReadFailed,
        ),
        !old(stream).spec_read_errors() ==> r == Result::<u64, StreamError>::Ok(
            spec_fnv1a(old(stream).spec_data(), FNV_OFFSET_BASIS),
        ) && final(stream).spec_data().len() == 0,
{
    compute_stream_hash(stream)
}

/// Hash everything the input side of a wrapped bidirectional stream will
/// still produce with 64-bit FNV-1a.
pub fn compute_stream_hash_iostream_ffi<T: AsyncIoStream>(
    stream: &mut RustAsyncIoStream<T>,
) -> (r: Result<u64, StreamError>)
    requires
        old(stream).spec_input_wf(),
    ensures
        final(stream).spec_input_wf(),
        old(stream).spec_read_errors() ==> r == Result::<u64, StreamError>::Err(
            StreamError::ReadFailed,
        ),
        !old(stream).spec_read_errors() ==> r == Result::<u64, StreamError>::Ok(
            spec_fnv1a(old(stream).spec_data(), FNV_OFFSET_BASIS),
        ) && final(stream).spec_data().len() == 0,
{
    compute_stream_hash(stream)
}

/// A wrapped in-memory input stream over `data` that reports its length.
pub fn mock_input_stream(data: &[u8]) -> (r: Box<RustAsyncInputStream<MockInputStream>>)
    ensures
        r.spec_input_wf(),
        r.spec_data() == data@,
        !r.spec_read_errors(),
        r.spec_knows_length(),
{
    let owned = vstd::slice::slice_to_vec(data);
    Box::new(RustAsyncInputStream::new(MockInputStream::new(owned)))
}

/// A wrapped in-memory input stream over `data` that does not report its
/// length.
pub fn mock_input_stream_no_size(data: &[u8]) -> (r: Box<RustAsyncInputStream<MockInputStream>>)
    ensures
        r.spec_input_wf(),
        r.spec_data() == data@,
        !r.spec_read_errors(),
        !r.spec_knows_length(),
{
    let owned = vstd::slice::slice_to_vec(data);
    Box::new(RustAsyncInputStream::new(MockInputStream::new(owned).with_unknown_length()))
}

/// A wrapped in-memory input stream that fails every read.
pub fn mock_input_stream_with_error() -> (r: Box<RustAsyncInputStream<MockInputStream>>)
    ensures
        r.spec_input_wf(),
        r.spec_read_errors(),
{
    Box::new(RustAsyncInputStream::new(MockInputStream::new(Vec::new()).with_error()))
}

/// A wrapped in-memory output stream.
pub fn create_rust_mock_output_stream() -> (r: Box<RustAsyncOutputStream<MockOutputStream>>)
    ensures
        r.spec_output_wf(),
        r.spec_written() == Seq::<u8>::empty(),
        !r.spec_write_errors(),
{
    Box::new(RustAsyncOutputStream::new(MockOutputStream::new()))
}

/// A wrapped in-memory output stream that fails every write.
pub fn create_rust_mock_output_stream_with_error() -> (r: Box<
    RustAsyncOutputStream<MockOutputStream>,
>)
    ensures
        r.spec_output_wf(),
        r.spec_written() == Seq::<u8>::empty(),
        r.spec_write_errors(),
{
    Box::new(RustAsyncOutputStream::new(MockOutputStream::new().with_error()))
}

/// A wrapped in-memory bidirectional stream over `input_data`.
pub fn create_rust_mock_io_stream(input_data: &[u8]) -> (r: Box<RustAsyncIoStream<MockIoStream>>)
    ensures
        r.spec_input_wf(),
        r.spec_output_wf(),
        r.spec_data() == input_data@,
        r.spec_written() == Seq::<u8>::empty(),
        !r.spec_read_errors(),
        !r.spec_write_errors(),
{
    let owned = vstd::slice::slice_to_vec(input_data);
    Box::new(RustAsyncIoStream::new(MockIoStream::new(owned)))
}

} // verus!
