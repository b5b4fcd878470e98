//! Stream utilities: the naive pump fallback, a streaming FNV-1a hash,
//! and a deterministic pseudorandom byte generator.

use vstd::prelude::*;

use crate::stream::AsyncInputStream;
use crate::stream::AsyncOutputStream;
use crate::stream::StreamError;

verus! {

/// The FNV-1a offset basis for 64-bit hashes.
pub const FNV_OFFSET_BASIS: u64 = 14_695_981_039_346_656_037;

/// The FNV-1a prime for 64-bit hashes.
pub const FNV_PRIME: u64 = 1_099_511_628_211;

/// The FNV-1a hash of `data` folded onto the accumulator `acc`: each byte
/// is mixed in by an exclusive-or followed by a wrapping multiplication
/// with the FNV prime.
pub open spec fn spec_fnv1a(data: Seq<u8>, acc: u64) -> u64
    decreases data.len(),
{
    if data.len() == 0 {
        acc
    } else {
        spec_fnv1a(
            data.skip(1),
            vstd::wrapping::u64_specs::wrapping_mul(acc ^ (data[0] as u64), FNV_PRIME),
        )
    }
}

/// Folding a concatenation folds the first part, then the second.
pub proof fn lemma_fnv1a_append(a: Seq<u8>, b: Seq<u8>, acc: u64)
    ensures
        spec_fnv1a(a + b, acc) == spec_fnv1a(b, spec_fnv1a(a, acc)),
    decreases a.len(),
{
    if a.len() == 0 {
        assert(a + b =~= b);
    } else {
        assert((a + b).skip(1) =~= a.skip(1) + b);
        lemma_fnv1a_append(
            a.skip(1),
            b,
            vstd::wrapping::u64_specs::wrapping_mul(acc ^ (a[0] as u64), FNV_PRIME),
        );
    }
}

/// Perform a pump using only `try_read` and `write`, never calling the
/// streams' own pump entry points — so implementations of those entry
/// points can fall back to this when they give up on optimization without
/// recursing into themselves. `completed_so_far` counts the bytes of
/// `amount` they had already moved, and is included in the result.
pub fn unoptimized_pump_to<I: AsyncInputStream, O: AsyncOutputStream>(
    input: &mut I,
    output: &mut O,
    amount: usize,
    completed_so_far: usize,
) -> (r: Result<usize, StreamError>)
    requires
        old(input).spec_input_wf(),
        old(output).spec_output_wf(),
    ensures
        final(input).spec_input_wf(),
        final(output).spec_output_wf(),
        final(input).spec_read_errors() == old(input).spec_read_errors(),
        final(input).spec_knows_length() == old(input).spec_knows_length(),
        final(output).spec_write_errors() == old(output).spec_write_errors(),
        final(output).spec_disconnected() == old(output).spec_disconnected(),
        ({
            let rem = if amount >= completed_so_far {
                amount - completed_so_far
            } else {
                0
            };
            let n = vstd::math::min(rem, old(input).spec_data().len() as int);
            let read_fails = old(input).spec_read_errors() && rem > 0;
            let write_fails = !old(input).spec_read_errors() && old(output).spec_write_errors()
                && n > 0;
            &&& (r is Ok) == (!read_fails && !write_fails)
            &&& r matches Ok(m) ==> {
                &&& m == completed_so_far + n
                &&& final(input).spec_data() == old(input).spec_data().skip(n)
                &&& final(output).spec_written() == old(output).spec_written() + old(
                    input,
                ).spec_data().take(n)
            }
            &&& read_fails ==> {
                &&& r == Result::<usize, StreamError>::Err(StreamError::ReadFailed)
                &&& final(input).spec_data() == old(input).spec_data()
                &&& final(output).spec_written() == old(output).spec_written()
            }
            &&& write_fails ==> {
                &&& r == Result::<usize, StreamError>::Err(StreamError::WriteFailed)
                &&& final(output).spec_written() == old(output).spec_written()
            }
        }),
{
    let ghost orig_in = *old(input);
    let ghost orig_out = *old(output);
    let mut total: usize = 0;
    let mut remaining: usize = if amount >= completed_so_far {
        amount - completed_so_far
    } else {
        0
    };
    let ghost rem = remaining as int;
    proof {
        assert(orig_out.spec_written() + orig_in.spec_data().take(0) =~= orig_out.spec_written());
        assert(orig_in.spec_data().skip(0) =~= orig_in.spec_data());
    }
    loop
        invariant
            orig_in == *old(input),
            orig_out == *old(output),
            rem == if amount >= completed_so_far {
                amount - completed_so_far
            } else {
                0
            },
            input.spec_input_wf(),
            output.spec_output_wf(),
            input.spec_read_errors() == orig_in.spec_read_errors(),
            input.spec_knows_length() == orig_in.spec_knows_length(),
            output.spec_write_errors() == orig_out.spec_write_errors(),
            output.spec_disconnected() == orig_out.spec_disconnected(),
            total <= rem,
            remaining == rem - total,
            total <= orig_in.spec_data().len(),
            input.spec_data() == orig_in.spec_data().skip(total as int),
            output.spec_written() == orig_out.spec_written() + orig_in.spec_data().take(
                total as int,
            ),
            orig_in.spec_read_errors() ==> total == 0,
            orig_out.spec_write_errors() ==> total == 0,
        ensures
            total as int == vstd::math::min(rem, orig_in.spec_data().len() as int),
            orig_in.spec_read_errors() ==> rem == 0,
        decreases remaining,
    {
        if remaining == 0 {
            break;
        }
        let to_read = if remaining < 4096 {
            remaining
        } else {
            4096
        };
        let ghost before_read = *input;
        let chunk = match input.try_read(to_read, 1) {
            Ok(c) => c,
            Err(_) => {
                proof {
                    assert(output.spec_written() =~= orig_out.spec_written());
                    assert(input.spec_data() =~= orig_in.spec_data());
                }
                return Err(StreamError::ReadFailed);
            },
        };
        if chunk.len() == 0 {
            proof {
                assert(before_read.spec_data().len() == 0);
                assert(orig_in.spec_data().len() == total as int);
                assert(input.spec_data() =~= orig_in.spec_data().skip(total as int));
            }
            break;
        }
        match output.write(chunk.as_slice()) {
            Ok(_) => (),
            Err(_) => {
                proof {
                    assert(output.spec_written() =~= orig_out.spec_written());
                }
                return Err(StreamError::WriteFailed);
            },
        }
        proof {
            assert(chunk@.len() <= before_read.spec_data().len());
            assert(orig_in.spec_data().take(total as int) + before_read.spec_data().take(
                chunk@.len() as int,
            ) =~= orig_in.spec_data().take(total + chunk@.len()));
            assert(before_read.spec_data().skip(chunk@.len() as int) =~= orig_in.spec_data().skip(
                total + chunk@.len(),
            ));
        }
        total = total + chunk.len();
        remaining = remaining - chunk.len();
    }
    Ok(completed_so_far + total)
}

/// Hash everything the stream will still produce with 64-bit FNV-1a,
/// draining the stream.
#[verifier::rlimit(50)]
pub fn compute_stream_hash<T: AsyncInputStream>(stream: &mut T) -> (r: Result<u64, StreamError>)
    requires
        old(stream).spec_input_wf(),
    ensures
        final(stream).spec_input_wf(),
        final(stream).spec_read_errors() == old(stream).spec_read_errors(),
        final(stream).spec_knows_length() == old(stream).spec_knows_length(),
        old(stream).spec_read_errors() ==> {
            &&& r == Result::<u64, StreamError>::Err(StreamError::ReadFailed)
            &&& final(stream).spec_data() == old(stream).spec_data()
        },
        !old(stream).spec_read_errors() ==> {
            &&& r == Result::<u64, StreamError>::Ok(
                spec_fnv1a(old(stream).spec_data(), FNV_OFFSET_BASIS),
            )
            &&& final(stream).spec_data().len() == 0
        },
{
    let ghost orig = *old(stream);
    let mut hash: u64 = FNV_OFFSET_BASIS;
    loop
        invariant
            orig == *old(stream),
            stream.spec_input_wf(),
            stream.spec_read_errors() == orig.spec_read_errors(),
            stream.spec_knows_length() == orig.spec_knows_length(),
            spec_fnv1a(stream.spec_data(), hash) == spec_fnv1a(
                orig.spec_data(),
                FNV_OFFSET_BASIS,
            ),
            orig.spec_read_errors() ==> stream.spec_data() == orig.spec_data(),
        ensures
            stream.spec_data().len() == 0,
            !orig.spec_read_errors(),
        decreases stream.spec_data().len(),
    {
        let ghost before = *stream;
        let chunk = match stream.try_read(4096, 1) {
            Ok(c) => c,
            Err(_) => {
                return Err(StreamError::ReadFailed);
            },
        };
        if chunk.len() == 0 {
            proof {
                assert(before.spec_data().len() == 0);
            }
            break;
        }
        let ghost h0 = hash;
        let mut j: usize = 0;
        proof {
            assert(chunk@.skip(0) =~= chunk@);
        }
        while j < chunk.len()
            invariant
                j <= chunk@.len(),
                spec_fnv1a(chunk@.skip(j as int), hash) == spec_fnv1a(chunk@, h0),
            decreases chunk@.len() - j,
        {
            let byte = chunk[j];
            proof {
                assert(chunk@.skip(j as int).skip(1) =~= chunk@.skip(j + 1));
                assert(chunk@.skip(j as int)[0] == chunk@[j as int]);
            }
            hash = (hash ^ (byte as u64)).wrapping_mul(FNV_PRIME);
            j = j + 1;
        }
        proof {
            assert(chunk@.skip(chunk@.len() as int) =~= Seq::<u8>::empty());
            assert(hash == spec_fnv1a(chunk@, h0));
            lemma_fnv1a_append(chunk@, stream.spec_data(), h0);
            assert(chunk@ + stream.spec_data() =~= before.spec_data());
        }
    }
    Ok(hash)
}

/// The generator's state after `i` steps: it starts at zero, and each
/// step multiplies by five and adds one, wrapping.
pub open spec fn spec_prng_state(i: nat) -> u8
    decreases i,
{
    if i == 0 {
        0u8
    } else {
        vstd::wrapping::u8_specs::wrapping_add(
            vstd::wrapping::u8_specs::wrapping_mul(spec_prng_state((i - 1) as nat), 5),
            1,
        )
    }
}

/// The first `n` bytes the generator emits.
pub open spec fn spec_prng_bytes(n: nat) -> Seq<u8> {
    Seq::new(n, |i: int| spec_prng_state((i + 1) as nat))
}

/// Write `size` bytes of deterministic pseudorandom data to the stream,
/// in bounded chunks.
pub fn generate_prng<T: AsyncOutputStream>(stream: &mut T, size: u64) -> (r: Result<
    (),
    StreamError,
>)
    requires
        old(stream).spec_output_wf(),
    ensures
        final(stream).spec_output_wf(),
        final(stream).spec_write_errors() == old(stream).spec_write_errors(),
        final(stream).spec_disconnected() == old(stream).spec_disconnected(),
        old(stream).spec_write_errors() && size > 0 ==> {
            &&& r == Result::<(), StreamError>::Err(StreamError::WriteFailed)
            &&& final(stream).spec_written() == old(stream).spec_written()
        },
        !(old(stream).spec_write_errors() && size > 0) ==> {
            &&& r == Result::<(), StreamError>::Ok(())
            &&& final(stream).spec_written() == old(stream).spec_written() + spec_prng_bytes(
                size as nat,
            )
        },
{
    let ghost orig = *old(stream);
    let mut prng: u8 = 0;
    let mut remaining: u64 = size;
    proof {
        assert(orig.spec_written() + spec_prng_bytes(0) =~= orig.spec_written());
    }
    loop
        invariant
            orig == *old(stream),
            stream.spec_output_wf(),
            stream.spec_write_errors() == orig.spec_write_errors(),
            stream.spec_disconnected() == orig.spec_disconnected(),
            remaining <= size,
            prng == spec_prng_state((size - remaining) as nat),
            stream.spec_written() == orig.spec_written() + spec_prng_bytes(
                (size - remaining) as nat,
            ),
            orig.spec_write_errors() ==> remaining == size,
        ensures
            remaining == 0,
        decreases remaining,
    {
        if remaining == 0 {
            break;
        }
        let ghost done: nat = (size - remaining) as nat;
        let chunk_size: usize = if remaining < 1024 {
            remaining as usize
        } else {
            1024
        };
        let mut chunk: Vec<u8> = Vec::new();
        let mut j: usize = 0;
        while j < chunk_size
            invariant
                j <= chunk_size,
                prng == spec_prng_state((done + j) as nat),
                chunk@ == Seq::new(j as nat, |t: int| spec_prng_state((done + t + 1) as nat)),
            decreases chunk_size - j,
        {
            prng = prng.wrapping_mul(5).wrapping_add(1);
            chunk.push(prng);
            proof {
                assert(chunk@ =~= Seq::new(
                    (j + 1) as nat,
                    |t: int| spec_prng_state((done + t + 1) as nat),
                ));
            }
            j = j + 1;
        }
        match stream.write(chunk.as_slice()) {
            Ok(_) => (),
            Err(_) => {
                proof {
                    assert(stream.spec_written() =~= orig.spec_written());
                }
                return Err(StreamError::WriteFailed);
            },
        }
        proof {
            assert(spec_prng_bytes(done) + chunk@ =~= spec_prng_bytes((done + chunk_size) as nat));
            assert(orig.spec_written() + spec_prng_bytes(done) + chunk@ =~= orig.spec_written()
                + spec_prng_bytes((done + chunk_size) as nat));
        }
        remaining = remaining - (chunk_size as u64);
    }
    proof {
        assert(stream.spec_written() =~= orig.spec_written() + spec_prng_bytes(size as nat));
    }
    Ok(())
}

} // verus!
