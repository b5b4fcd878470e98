//! In-memory streams: an input stream over predefined bytes, an output
//! stream that captures what is written, and a bidirectional combination.
//! They exercise every stream interface without any native collaborator.

use vstd::prelude::*;

use crate::stream::spec_concat;
use crate::stream::AsyncInputStream;
use crate::stream::AsyncIoStream;
use crate::stream::AsyncOutputStream;
use crate::stream::StreamError;

verus! {

/// An input stream over predefined data.
pub struct MockInputStream {
    data: Vec<u8>,
    position: usize,
    read_error: bool,
    known_size: bool,
}

impl MockInputStream {
    /// A stream that will produce `data`.
    pub fn new(data: Vec<u8>) -> (s: MockInputStream)
        ensures
            s.spec_input_wf(),
            s.spec_data() == data@,
            !s.spec_read_errors(),
            s.spec_knows_length(),
    {
        let s = MockInputStream { data, position: 0, read_error: false, known_size: true };
        proof {
            assert(s.spec_data() =~= s.data@);
        }
        s
    }

    /// The same stream, configured to fail every read.
    pub fn with_error(self) -> (s: MockInputStream)
        ensures
            s.spec_input_wf() == self.spec_input_wf(),
            s.spec_data() == self.spec_data(),
            s.spec_read_errors(),
            s.spec_knows_length() == self.spec_knows_length(),
    {
        MockInputStream { read_error: true, ..self }
    }

    /// The same stream, configured not to report its length.
    pub fn with_unknown_length(self) -> (s: MockInputStream)
        ensures
            s.spec_input_wf() == self.spec_input_wf(),
            s.spec_data() == self.spec_data(),
            s.spec_read_errors() == self.spec_read_errors(),
            !s.spec_knows_length(),
    {
        MockInputStream { known_size: false, ..self }
    }

    /// The number of bytes the stream will still produce.
    pub fn remaining(&self) -> (n: usize)
        requires
            self.spec_input_wf(),
        ensures
            n == self.spec_data().len(),
    {
        self.data.len() - self.position
    }
}

impl AsyncInputStream for MockInputStream {
    closed spec fn spec_input_wf(&self) -> bool {
        self.position <= self.data@.len()
    }

    closed spec fn spec_data(&self) -> Seq<u8> {
        self.data@.skip(self.position as int)
    }

    closed spec fn spec_read_errors(&self) -> bool {
        self.read_error
    }

    closed spec fn spec_knows_length(&self) -> bool {
        self.known_size
    }

    fn try_read(&mut self, max_bytes: usize, min_bytes: usize) -> (r: Result<
        Vec<u8>,
        StreamError,
    >) {
        if self.read_error {
            return Err(StreamError::ReadFailed);
        }
        let available = self.data.len() - self.position;
        let to_read = if max_bytes < available {
            max_bytes
        } else {
            available
        };
        let mut out: Vec<u8> = Vec::new();
        let mut i: usize = 0;
        while i < to_read
            invariant
                self == old(self),
                self.data@.len() <= usize::MAX,
                self.position + to_read <= self.data@.len(),
                i <= to_read,
                out@ == self.data@.subrange(self.position as int, self.position + i),
            decreases to_read - i,
        {
            out.push(self.data[self.position + i]);
            proof {
                assert(out@ =~= self.data@.subrange(self.position as int, self.position + i + 1));
            }
            i = i + 1;
        }
        let ghost pre = *self;
        self.position = self.position + to_read;
        proof {
            assert(out@ =~= pre.spec_data().take(to_read as int));
            assert(self.spec_data() =~= pre.spec_data().skip(to_read as int));
        }
        Ok(out)
    }

    fn try_get_length(&self) -> (r: Option<usize>) {
        if self.known_size {
            Some(self.data.len() - self.position)
        } else {
            None
        }
    }

}

/// An output stream that captures written data.
pub struct MockOutputStream {
    data: Vec<u8>,
    write_error: bool,
    disconnected: bool,
}

impl MockOutputStream {
    /// A stream capturing everything written to it.
    pub fn new() -> (s: MockOutputStream)
        ensures
            s.spec_output_wf(),
            s.spec_written() == Seq::<u8>::empty(),
            !s.spec_write_errors(),
            !s.spec_disconnected(),
    {
        let s = MockOutputStream { data: Vec::new(), write_error: false, disconnected: false };
        proof {
            assert(s.spec_written() =~= Seq::<u8>::empty());
        }
        s
    }

    /// The same stream, configured to fail every write.
    pub fn with_error(self) -> (s: MockOutputStream)
        ensures
            s.spec_output_wf(),
            s.spec_written() == self.spec_written(),
            s.spec_write_errors(),
            s.spec_disconnected() == self.spec_disconnected(),
    {
        MockOutputStream { write_error: true, ..self }
    }

    /// The same stream, configured as already disconnected.
    pub fn with_disconnected(self) -> (s: MockOutputStream)
        ensures
            s.spec_output_wf(),
            s.spec_written() == self.spec_written(),
            s.spec_write_errors() == self.spec_write_errors(),
            s.spec_disconnected(),
    {
        MockOutputStream { disconnected: true, ..self }
    }

    /// The data written to the stream so far.
    pub fn written_data(&self) -> (d: &Vec<u8>)
        ensures
            d@ == self.spec_written(),
    {
        &self.data
    }
}

impl Default for MockOutputStream {
    fn default() -> (s: MockOutputStream)
        ensures
            s.spec_output_wf(),
            s.spec_written() == Seq::<u8>::empty(),
            !s.spec_write_errors(),
            !s.spec_disconnected(),
    {
        MockOutputStream::new()
    }
}

impl AsyncOutputStream for MockOutputStream {
    closed spec fn spec_output_wf(&self) -> bool {
        true
    }

    closed spec fn spec_written(&self) -> Seq<u8> {
        self.data@
    }

    closed spec fn spec_write_errors(&self) -> bool {
        self.write_error
    }

    closed spec fn spec_disconnected(&self) -> bool {
        self.disconnected
    }

    fn write(&mut self, buffer: &[u8]) -> (r: Result<(), StreamError>) {
        if self.write_error {
            return Err(StreamError::WriteFailed);
        }
        let ghost pre = self.data@;
        let mut i: usize = 0;
        while i < buffer.len()
            invariant
                i <= buffer@.len(),
                self.data@ == pre + buffer@.take(i as int),
                self.write_error == false,
                self.disconnected == old(self).disconnected,
            decreases buffer@.len() - i,
        {
            let b = buffer[i];
            self.data.push(b);
            proof {
                assert(self.data@ =~= pre + buffer@.take(i + 1));
            }
            i = i + 1;
        }
        proof {
            assert(self.data@ =~= pre + buffer@);
        }
        Ok(())
    }

    fn write_vectored(&mut self, pieces: &Vec<Vec<u8>>) -> (r: Result<(), StreamError>) {
        if self.write_error {
            return Err(StreamError::WriteFailed);
        }
        let ghost pre = self.data@;
        let mut i: usize = 0;
        while i < pieces.len()
            invariant
                i <= pieces@.len(),
                self.spec_output_wf(),
                self.write_error == false,
                self.disconnected == old(self).disconnected,
                self.data@ == pre + spec_concat(pieces.deep_view().take(i as int)),
            decreases pieces@.len() - i,
        {
            let piece = &pieces[i];
            match self.write(piece.as_slice()) {
                Ok(_) => (),
                Err(e) => {
                    return Err(e);
                },
            }
            proof {
                lemma_concat_take_snoc(pieces.deep_view(), i as int);
            }
            i = i + 1;
        }
        proof {
            assert(pieces.deep_view().take(pieces@.len() as int) =~= pieces.deep_view());
        }
        Ok(())
    }

    fn when_write_disconnected(&mut self) -> (r: Option<()>) {
        if self.disconnected {
            Some(())
        } else {
            None
        }
    }
}

/// Concatenating one more piece appends it to the concatenation so far.
proof fn lemma_concat_take_snoc(pieces: Seq<Seq<u8>>, i: int)
    requires
        0 <= i < pieces.len(),
    ensures
        spec_concat(pieces.take(i + 1)) == spec_concat(pieces.take(i)) + pieces[i],
    decreases i,
{
    if i == 0 {
        assert(pieces.take(1) =~= seq![pieces[0]]);
        assert(seq![pieces[0]].skip(1) =~= Seq::<Seq<u8>>::empty());
        assert(pieces.take(0) =~= Seq::<Seq<u8>>::empty());
        assert(spec_concat(pieces.take(1)) =~= spec_concat(pieces.take(0)) + pieces[0]);
    } else {
        lemma_concat_take_snoc(pieces.skip(1), i - 1);
        assert(pieces.take(i + 1).skip(1) =~= pieces.skip(1).take(i));
        assert(pieces.take(i).skip(1) =~= pieces.skip(1).take(i - 1));
        assert(spec_concat(pieces.take(i + 1)) =~= spec_concat(pieces.take(i)) + pieces[i]);
    }
}

/// A bidirectional in-memory stream: a mock input side, a mock output
/// side, and a shutdown flag for the write end.
pub struct MockIoStream {
    input: MockInputStream,
    output: MockOutputStream,
    shutdown: bool,
}

impl MockIoStream {
    /// A stream producing `input_data` and capturing what is written.
    pub fn new(input_data: Vec<u8>) -> (s: MockIoStream)
        ensures
            s.spec_input_wf(),
            s.spec_output_wf(),
            s.spec_data() == input_data@,
            s.spec_written() == Seq::<u8>::empty(),
            !s.spec_read_errors(),
            !s.spec_write_errors(),
            !s.spec_disconnected(),
            s.spec_knows_length(),
            !s.spec_is_shutdown(),
            !s.spec_shutdown_errors(),
    {
        MockIoStream {
            input: MockInputStream::new(input_data),
            output: MockOutputStream::new(),
            shutdown: false,
        }
    }

    /// The data written to the output side so far.
    pub fn written_data(&self) -> (d: &Vec<u8>)
        ensures
            d@ == self.spec_written(),
    {
        self.output.written_data()
    }

    /// Whether the write end has been shut down.
    pub fn is_shutdown(&self) -> (r: bool)
        ensures
            r == self.spec_is_shutdown(),
    {
        self.shutdown
    }
}

impl AsyncInputStream for MockIoStream {
    closed spec fn spec_input_wf(&self) -> bool {
        self.input.spec_input_wf()
    }

    closed spec fn spec_data(&self) -> Seq<u8> {
        self.input.spec_data()
    }

    closed spec fn spec_read_errors(&self) -> bool {
        self.input.spec_read_errors()
    }

    closed spec fn spec_knows_length(&self) -> bool {
        self.input.spec_knows_length()
    }

    fn try_read(&mut self, max_bytes: usize, min_bytes: usize) -> (r: Result<
        Vec<u8>,
        StreamError,
    >) {
        self.input.try_read(max_bytes, min_bytes)
    }

    fn try_get_length(&self) -> (r: Option<usize>) {
        self.input.try_get_length()
    }

}

impl AsyncOutputStream for MockIoStream {
    closed spec fn spec_output_wf(&self) -> bool {
        self.output.spec_output_wf()
    }

    closed spec fn spec_written(&self) -> Seq<u8> {
        self.output.spec_written()
    }

    closed spec fn spec_write_errors(&self) -> bool {
        self.output.spec_write_errors()
    }

    closed spec fn spec_disconnected(&self) -> bool {
        self.output.spec_disconnected()
    }

    fn write(&mut self, buffer: &[u8]) -> (r: Result<(), StreamError>) {
        self.output.write(buffer)
    }

    fn write_vectored(&mut self, pieces: &Vec<Vec<u8>>) -> (r: Result<(), StreamError>) {
        self.output.write_vectored(pieces)
    }

    fn when_write_disconnected(&mut self) -> (r: Option<()>) {
        self.output.when_write_disconnected()
    }
}

impl AsyncIoStream for MockIoStream {
    closed spec fn spec_is_shutdown(&self) -> bool {
        self.shutdown
    }

    closed spec fn spec_shutdown_errors(&self) -> bool {
        false
    }

    fn shutdown_write(&mut self) -> (r: Result<(), StreamError>) {
        self.shutdown = true;
        Ok(())
    }

    fn abort_read(&mut self) {
        self.shutdown = true;
    }
}

} // verus!

