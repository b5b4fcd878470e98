//! Asynchronous stream interfaces, as the bridge sees them.
//!
//! Awaiting is expressed elsewhere; at this level each operation is the
//! synchronous step a single poll performs, stated over a model of the
//! stream: the bytes it will still produce, the bytes written to it so
//! far, and its failure configuration. Suspension shows up only in
//! `when_write_disconnected`, whose `None` result stands for a wait that
//! has not resolved yet.

use vstd::prelude::*;

verus! {

/// Why a stream operation failed.
#[derive(Clone, Copy, PartialEq, Eq, Structural, Debug)]
pub enum StreamError {
    /// Reading from the stream failed.
    ReadFailed,
    /// Writing to the stream failed.
    WriteFailed,
    /// The operation is not supported by this stream.
    Unsupported,
}

/// An ancillary (control) message received alongside stream data.
#[derive(Clone, PartialEq, Eq, Debug)]
pub struct AncillaryMessage {
    /// Originating protocol / socket level.
    pub level: i32,
    /// Protocol-specific message type.
    pub message_type: i32,
    /// Message data.
    pub data: Vec<u8>,
}

/// A source of bytes, read in bounded steps.
pub trait AsyncInputStream: Sized {
    /// The implementation's internal invariant.
    spec fn spec_input_wf(&self) -> bool;

    /// The bytes the stream will still produce.
    spec fn spec_data(&self) -> Seq<u8>;

    /// Whether reads fail.
    spec fn spec_read_errors(&self) -> bool;

    /// Whether the stream reports its remaining length.
    spec fn spec_knows_length(&self) -> bool;

    /// Read up to `max_bytes` bytes, at least `min_bytes` if the stream
    /// can produce them. A result shorter than `min_bytes` indicates the
    /// end of the stream.
    fn try_read(&mut self, max_bytes: usize, min_bytes: usize) -> (r: Result<Vec<u8>, StreamError>)
        requires
            old(self).spec_input_wf(),
        ensures
            final(self).spec_input_wf(),
            final(self).spec_read_errors() == old(self).spec_read_errors(),
            final(self).spec_knows_length() == old(self).spec_knows_length(),
            old(self).spec_read_errors() ==> r == Result::<Vec<u8>, StreamError>::Err(
                StreamError::ReadFailed,
            ) && final(self).spec_data() == old(self).spec_data(),
            !old(self).spec_read_errors() ==> {
                let n = vstd::math::min(max_bytes as int, old(self).spec_data().len() as int);
                &&& r matches Ok(bytes) && bytes@ == old(self).spec_data().take(n)
                &&& final(self).spec_data() == old(self).spec_data().skip(n)
            },
    ;

    /// The number of bytes the stream will still produce, if it reports
    /// its length.
    fn try_get_length(&self) -> (r: Option<usize>)
        requires
            self.spec_input_wf(),
        ensures
            (r is Some) == self.spec_knows_length(),
            r matches Some(n) ==> n == self.spec_data().len(),
    ;

    /// Read `amount` bytes from this stream (or to its end) and write
    /// them to `output`; the result is the number of bytes pumped, which
    /// is less than `amount` only if the stream ended first. When the
    /// write side fails, some bytes may already have been consumed from
    /// this stream without reaching the output.
    fn pump_to<O: AsyncOutputStream>(&mut self, output: &mut O, amount: usize) -> (r: Result<
        usize,
        StreamError,
    >)
        requires
            old(self).spec_input_wf(),
            old(output).spec_output_wf(),
        ensures
            final(self).spec_input_wf(),
            final(output).spec_output_wf(),
            final(self).spec_read_errors() == old(self).spec_read_errors(),
            final(self).spec_knows_length() == old(self).spec_knows_length(),
            final(output).spec_write_errors() == old(output).spec_write_errors(),
            final(output).spec_disconnected() == old(output).spec_disconnected(),
            ({
                let n = vstd::math::min(amount as int, old(self).spec_data().len() as int);
                let read_fails = old(self).spec_read_errors() && amount > 0;
                let write_fails = !old(self).spec_read_errors()
                    && old(output).spec_write_errors() && n > 0;
                &&& (r is Ok) == (!read_fails && !write_fails)
                &&& r matches Ok(m) ==> {
                    &&& m == n
                    &&& final(self).spec_data() == old(self).spec_data().skip(n)
                    &&& final(output).spec_written()
                        == old(output).spec_written() + old(self).spec_data().take(n)
                }
                &&& read_fails ==> {
                    &&& r == Result::<usize, StreamError>::Err(StreamError::ReadFailed)
                    &&& final(self).spec_data() == old(self).spec_data()
                    &&& final(output).spec_written() == old(output).spec_written()
                }
                &&& write_fails ==> {
                    &&& r == Result::<usize, StreamError>::Err(StreamError::WriteFailed)
                    &&& final(output).spec_written() == old(output).spec_written()
                    &&& exists|k: int|
                        0 <= k <= old(self).spec_data().len() && final(self).spec_data()
                            == old(self).spec_data().skip(k)
                }
            }),
    {
        let ghost orig_in = *old(self);
        let ghost orig_out = *old(output);
        let mut total: usize = 0;
        let mut remaining: usize = amount;
        proof {
            assert(orig_out.spec_written() + orig_in.spec_data().take(0)
                =~= orig_out.spec_written());
            assert(orig_in.spec_data().skip(0) =~= orig_in.spec_data());
        }
        loop
            invariant
                orig_in == *old(self),
                orig_out == *old(output),
                self.spec_input_wf(),
                output.spec_output_wf(),
                self.spec_read_errors() == orig_in.spec_read_errors(),
                self.spec_knows_length() == orig_in.spec_knows_length(),
                output.spec_write_errors() == orig_out.spec_write_errors(),
                output.spec_disconnected() == orig_out.spec_disconnected(),
                total <= amount,
                remaining == amount - total,
                total <= orig_in.spec_data().len(),
                self.spec_data() == orig_in.spec_data().skip(total as int),
                output.spec_written() == orig_out.spec_written() + orig_in.spec_data().take(
                    total as int,
                ),
                orig_in.spec_read_errors() ==> total == 0,
                orig_out.spec_write_errors() ==> total == 0,
            ensures
                total as int == vstd::math::min(amount as int, orig_in.spec_data().len() as int),
                orig_in.spec_read_errors() ==> amount == 0,
            decreases remaining,
        {
            if remaining == 0 {
                break;
            }
            let to_read = if remaining < 4096 {
                remaining
            } else {
                4096
            };
            let ghost before_read = *self;
            let chunk = match self.try_read(to_read, 1) {
                Ok(c) => c,
                Err(_) => {
                    proof {
                        assert(output.spec_written() =~= orig_out.spec_written());
                        assert(self.spec_data() =~= orig_in.spec_data());
                    }
                    return Err(StreamError::ReadFailed);
                },
            };
            if chunk.len() == 0 {
                proof {
                    assert(before_read.spec_data().len() == 0);
                    assert(orig_in.spec_data().len() == total as int);
                    assert(self.spec_data() =~= orig_in.spec_data().skip(total as int));
                }
                break;
            }
            match output.write(chunk.as_slice()) {
                Ok(_) => (),
                Err(_) => {
                    proof {
                        assert(output.spec_written() =~= orig_out.spec_written());
                    }
                    return Err(StreamError::WriteFailed);
                },
            }
            proof {
                assert(chunk@.len() <= before_read.spec_data().len());
                assert(orig_in.spec_data().take(total as int) + before_read.spec_data().take(
                    chunk@.len() as int,
                ) =~= orig_in.spec_data().take(total + chunk@.len()));
                assert(before_read.spec_data().skip(chunk@.len() as int)
                    =~= orig_in.spec_data().skip(total + chunk@.len()));
            }
            total = total + chunk.len();
            remaining = remaining - chunk.len();
        }
        Ok(total)
    }

    /// Register a handler for ancillary messages. Streams that do not
    /// support them refuse the registration.
    fn register_ancillary_message_handler(&mut self) -> (r: Result<(), StreamError>)
        requires
            old(self).spec_input_wf(),
        ensures
            final(self).spec_input_wf(),
            final(self).spec_data() == old(self).spec_data(),
            final(self).spec_read_errors() == old(self).spec_read_errors(),
            final(self).spec_knows_length() == old(self).spec_knows_length(),
            r == Result::<(), StreamError>::Err(StreamError::Unsupported),
    {
        Err(StreamError::Unsupported)
    }
}

/// A sink for bytes, written in bounded steps.
pub trait AsyncOutputStream: Sized {
    /// The implementation's internal invariant.
    spec fn spec_output_wf(&self) -> bool;

    /// The bytes written to the stream so far.
    spec fn spec_written(&self) -> Seq<u8>;

    /// Whether writes fail.
    spec fn spec_write_errors(&self) -> bool;

    /// Whether the far end has disconnected.
    spec fn spec_disconnected(&self) -> bool;

    /// Write all of `buffer` to the stream.
    fn write(&mut self, buffer: &[u8]) -> (r: Result<(), StreamError>)
        requires
            old(self).spec_output_wf(),
        ensures
            final(self).spec_output_wf(),
            final(self).spec_write_errors() == old(self).spec_write_errors(),
            final(self).spec_disconnected() == old(self).spec_disconnected(),
            old(self).spec_write_errors() ==> {
                &&& r == Result::<(), StreamError>::Err(StreamError::WriteFailed)
                &&& final(self).spec_written() == old(self).spec_written()
            },
            !old(self).spec_write_errors() ==> {
                &&& r == Result::<(), StreamError>::Ok(())
                &&& final(self).spec_written() == old(self).spec_written() + buffer@
            },
    ;

    /// Write several pieces of data, equivalent to concatenating them and
    /// calling `write` once.
    fn write_vectored(&mut self, pieces: &Vec<Vec<u8>>) -> (r: Result<(), StreamError>)
        requires
            old(self).spec_output_wf(),
        ensures
            final(self).spec_output_wf(),
            final(self).spec_write_errors() == old(self).spec_write_errors(),
            final(self).spec_disconnected() == old(self).spec_disconnected(),
            old(self).spec_write_errors() ==> {
                &&& r == Result::<(), StreamError>::Err(StreamError::WriteFailed)
                &&& final(self).spec_written() == old(self).spec_written()
            },
            !old(self).spec_write_errors() ==> {
                &&& r == Result::<(), StreamError>::Ok(())
                &&& final(self).spec_written() == old(self).spec_written() + spec_concat(
                    pieces.deep_view(),
                )
            },
    ;

    /// One poll of the wait for disconnection: `Some` exactly when the
    /// stream has become disconnected, so that new writes would fail with
    /// a disconnection error; `None` stands for a wait that has not
    /// resolved yet.
    fn when_write_disconnected(&mut self) -> (r: Option<()>)
        requires
            old(self).spec_output_wf(),
        ensures
            final(self).spec_output_wf(),
            final(self).spec_written() == old(self).spec_written(),
            final(self).spec_write_errors() == old(self).spec_write_errors(),
            final(self).spec_disconnected() == old(self).spec_disconnected(),
            (r is Some) == old(self).spec_disconnected(),
    ;
}

/// A combined input and output stream.
pub trait AsyncIoStream: AsyncInputStream + AsyncOutputStream {
    /// Whether the write end has been shut down.
    spec fn spec_is_shutdown(&self) -> bool;

    /// Whether shutting the write end down fails.
    spec fn spec_shutdown_errors(&self) -> bool;

    /// Cleanly shut down just the write end, keeping the read end open:
    /// the write end is marked shut exactly when the operation succeeds,
    /// and the stream's data, captured writes and failure configuration
    /// are untouched either way.
    fn shutdown_write(&mut self) -> (r: Result<(), StreamError>)
        requires
            old(self).spec_input_wf(),
            old(self).spec_output_wf(),
        ensures
            final(self).spec_input_wf(),
            final(self).spec_output_wf(),
            (r is Ok) == !old(self).spec_shutdown_errors(),
            final(self).spec_is_shutdown() == (old(self).spec_is_shutdown() || !old(
                self,
            ).spec_shutdown_errors()),
            final(self).spec_shutdown_errors() == old(self).spec_shutdown_errors(),
            final(self).spec_data() == old(self).spec_data(),
            final(self).spec_read_errors() == old(self).spec_read_errors(),
            final(self).spec_knows_length() == old(self).spec_knows_length(),
            final(self).spec_written() == old(self).spec_written(),
            final(self).spec_write_errors() == old(self).spec_write_errors(),
            final(self).spec_disconnected() == old(self).spec_disconnected(),
    ;

    /// Shut the read end down; only called once an error has occurred.
    /// The stream is marked shut; its data, captured writes and failure
    /// configuration are untouched.
    fn abort_read(&mut self)
        requires
            old(self).spec_input_wf(),
            old(self).spec_output_wf(),
        ensures
            final(self).spec_input_wf(),
            final(self).spec_output_wf(),
            final(self).spec_is_shutdown(),
            final(self).spec_shutdown_errors() == old(self).spec_shutdown_errors(),
            final(self).spec_data() == old(self).spec_data(),
            final(self).spec_read_errors() == old(self).spec_read_errors(),
            final(self).spec_knows_length() == old(self).spec_knows_length(),
            final(self).spec_written() == old(self).spec_written(),
            final(self).spec_write_errors() == old(self).spec_write_errors(),
            final(self).spec_disconnected() == old(self).spec_disconnected(),
    ;
}

/// The concatenation of a sequence of byte sequences.
pub open spec fn spec_concat(pieces: Seq<Seq<u8>>) -> Seq<u8>
    decreases pieces.len(),
{
    if pieces.len() == 0 {
        Seq::empty()
    } else {
        pieces[0] + spec_concat(pieces.skip(1))
    }
}

} // verus!
