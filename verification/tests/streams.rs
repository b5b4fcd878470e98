use kj_rs::compute_stream_hash;
use kj_rs::compute_stream_hash_iostream_ffi;
use kj_rs::compute_stream_hash_rust_ffi;
use kj_rs::create_rust_mock_io_stream;
use kj_rs::create_rust_mock_output_stream;
use kj_rs::create_rust_mock_output_stream_with_error;
use kj_rs::generate_prng;
use kj_rs::mock_input_stream;
use kj_rs::mock_input_stream_no_size;
use kj_rs::mock_input_stream_with_error;
use kj_rs::unoptimized_pump_to;
use kj_rs::AsyncInputStream;
use kj_rs::AsyncIoStream;
use kj_rs::AsyncOutputStream;
use kj_rs::MockInputStream;
use kj_rs::MockIoStream;
use kj_rs::MockOutputStream;
use kj_rs::RustAsyncInputStream;
use kj_rs::RustAsyncOutputStream;
use kj_rs::StreamError;
use kj_rs::FNV_OFFSET_BASIS;

#[test]
fn test_mock_input_stream_basic_read() {
    let mut stream = MockInputStream::new(b"Hello, World!".to_vec());
    let bytes = stream.try_read(5, 1).unwrap();
    assert_eq!(bytes.len(), 5);
    assert_eq!(bytes, b"Hello".to_vec());
    assert_eq!(stream.remaining(), 8);
}

#[test]
fn test_mock_input_stream_try_get_length() {
    let stream = MockInputStream::new(b"Hello".to_vec());
    assert_eq!(stream.try_get_length(), Some(5));
}

#[test]
fn test_mock_input_stream_unknown_length() {
    let stream = MockInputStream::new(b"Hello".to_vec()).with_unknown_length();
    assert_eq!(stream.try_get_length(), None);
}

#[test]
fn test_mock_input_stream_read_error() {
    let mut stream = MockInputStream::new(b"Hello".to_vec()).with_error();
    assert_eq!(stream.try_read(5, 1), Err(StreamError::ReadFailed));
}

#[test]
fn test_mock_output_stream_basic_write() {
    let mut stream = MockOutputStream::new();
    stream.write(b"Hello").unwrap();
    stream.write(b", World!").unwrap();
    assert_eq!(*stream.written_data(), b"Hello, World!".to_vec());
}

#[test]
fn test_mock_output_stream_write_vectored() {
    let mut stream = MockOutputStream::new();
    let pieces = vec![b"Hello".to_vec(), b", ".to_vec(), b"World!".to_vec()];
    stream.write_vectored(&pieces).unwrap();
    assert_eq!(*stream.written_data(), b"Hello, World!".to_vec());
}

#[test]
fn test_mock_output_stream_write_error() {
    let mut stream = MockOutputStream::new().with_error();
    let result = stream.write(b"test");
    assert!(result.is_err());
    assert_eq!(result, Err(StreamError::WriteFailed));
    assert_eq!(stream.written_data().len(), 0);
}

#[test]
fn test_mock_output_stream_when_write_disconnected() {
    let mut stream = MockOutputStream::new().with_disconnected();
    // Resolves immediately for a disconnected stream.
    let result = stream.when_write_disconnected();
    assert!(result.is_some());
    // A connected stream's wait does not resolve.
    let mut connected = MockOutputStream::new();
    assert!(connected.when_write_disconnected().is_none());
}

#[test]
fn test_mock_io_stream_bidirectional() {
    let mut stream = MockIoStream::new(b"input data".to_vec());
    let bytes = stream.try_read(5, 1).unwrap();
    assert_eq!(bytes, b"input".to_vec());
    stream.write(b"output").unwrap();
    assert_eq!(*stream.written_data(), b"output".to_vec());
}

#[test]
fn test_mock_io_stream_shutdown() {
    let mut stream = MockIoStream::new(b"test".to_vec());
    assert!(!stream.is_shutdown());
    stream.shutdown_write().unwrap();
    assert!(stream.is_shutdown());
}

#[test]
fn test_mock_io_stream_abort_read() {
    let mut stream = MockIoStream::new(b"test".to_vec());
    assert!(!stream.is_shutdown());
    stream.abort_read();
    assert!(stream.is_shutdown());
}

#[test]
fn test_compute_stream_hash() {
    let mut stream = MockInputStream::new(b"Hello, World!".to_vec());
    let hash = compute_stream_hash(&mut stream).unwrap();
    assert!(hash > 0);
    let mut stream2 = MockInputStream::new(b"Hello, World!".to_vec());
    let hash2 = compute_stream_hash(&mut stream2).unwrap();
    assert_eq!(hash, hash2);
}

#[test]
fn test_compute_stream_hash_exact() {
    let mut stream = MockInputStream::new(b"Hello, World!".to_vec());
    let hash = compute_stream_hash(&mut stream).unwrap();
    assert_eq!(hash, 7993990320990026836);
}

#[test]
fn test_compute_stream_hash_different_data() {
    let mut stream1 = MockInputStream::new(b"Hello, World!".to_vec());
    let mut stream2 = MockInputStream::new(b"Hello, Rust!".to_vec());
    let hash1 = compute_stream_hash(&mut stream1).unwrap();
    let hash2 = compute_stream_hash(&mut stream2).unwrap();
    assert_ne!(hash1, hash2);
}

#[test]
fn test_compute_stream_hash_empty() {
    let mut stream = MockInputStream::new(Vec::new());
    let hash = compute_stream_hash(&mut stream).unwrap();
    assert_eq!(hash, FNV_OFFSET_BASIS);
}

#[test]
fn test_compute_stream_hash_read_error() {
    let mut stream = MockInputStream::new(b"data".to_vec()).with_error();
    assert_eq!(compute_stream_hash(&mut stream), Err(StreamError::ReadFailed));
}

#[test]
fn test_unoptimized_pump_to() {
    let mut input = MockInputStream::new(b"pump test data".to_vec());
    let mut output = MockOutputStream::new();
    let bytes_pumped = unoptimized_pump_to(&mut input, &mut output, 1000, 0).unwrap();
    assert_eq!(bytes_pumped, 14);
    assert_eq!(*output.written_data(), b"pump test data".to_vec());
    assert_eq!(input.remaining(), 0);
}

#[test]
fn test_unoptimized_pump_to_partial() {
    let mut input = MockInputStream::new(b"pump test data".to_vec());
    let mut output = MockOutputStream::new();
    let bytes_pumped = unoptimized_pump_to(&mut input, &mut output, 4, 0).unwrap();
    assert_eq!(bytes_pumped, 4);
    assert_eq!(*output.written_data(), b"pump".to_vec());
    assert_eq!(input.remaining(), 10);
}

#[test]
fn test_unoptimized_pump_to_with_completed() {
    let mut input = MockInputStream::new(b"test".to_vec());
    let mut output = MockOutputStream::new();
    let bytes_pumped = unoptimized_pump_to(&mut input, &mut output, 6, 2).unwrap();
    assert_eq!(bytes_pumped, 6);
    assert_eq!(*output.written_data(), b"test".to_vec());
}

#[test]
fn test_pump_to_write_error() {
    let mut input = MockInputStream::new(b"payload".to_vec());
    let mut output = MockOutputStream::new().with_error();
    assert_eq!(input.pump_to(&mut output, 7), Err(StreamError::WriteFailed));
    assert_eq!(output.written_data().len(), 0);
}

#[test]
fn test_generate_prng() {
    let mut output = MockOutputStream::new();
    generate_prng(&mut output, 100).unwrap();
    let data = output.written_data();
    assert_eq!(data.len(), 100);
    let mut output2 = MockOutputStream::new();
    generate_prng(&mut output2, 100).unwrap();
    assert_eq!(*data, *output2.written_data());
}

#[test]
fn test_generate_prng_exact_prefix() {
    let mut output = MockOutputStream::new();
    generate_prng(&mut output, 8).unwrap();
    assert_eq!(*output.written_data(), vec![1u8, 6, 31, 156, 13, 66, 75, 120]);
}

#[test]
fn test_generate_prng_large() {
    let mut output = MockOutputStream::new();
    generate_prng(&mut output, 2048).unwrap();
    let data = output.written_data();
    assert_eq!(data.len(), 2048);
    let zero_count = data.iter().filter(|&&b| b == 0).count();
    assert!(zero_count < data.len() / 10);
}

#[test]
fn test_generate_prng_partial_chunk() {
    let mut output = MockOutputStream::new();
    generate_prng(&mut output, 1500).unwrap();
    assert_eq!(output.written_data().len(), 1500);
}

#[test]
fn test_generate_prng_write_error() {
    let mut output = MockOutputStream::new().with_error();
    assert_eq!(generate_prng(&mut output, 16), Err(StreamError::WriteFailed));
    assert_eq!(output.written_data().len(), 0);
}

#[test]
fn test_register_ancillary_message_handler_unsupported() {
    let mut stream = MockInputStream::new(b"x".to_vec());
    assert_eq!(
        stream.register_ancillary_message_handler(),
        Err(StreamError::Unsupported)
    );
}

#[test]
fn test_trait_interfaces_exist() {
    // The interfaces are exercised generically: any input stream can be
    // hashed, any output stream can receive generated data.
    let mut input = MockInputStream::new(b"abc".to_vec());
    let _ = compute_stream_hash(&mut input).unwrap();
    let mut output = MockOutputStream::new();
    generate_prng(&mut output, 3).unwrap();
    let mut io = MockIoStream::new(b"abc".to_vec());
    let _ = compute_stream_hash(&mut io).unwrap();
}

#[test]
fn test_wrapped_input_stream_hash() {
    let mut wrapped = mock_input_stream(b"Hello, World!");
    assert_eq!(wrapped.try_get_length(), Some(13));
    let hash = compute_stream_hash_rust_ffi(&mut wrapped).unwrap();
    assert_eq!(hash, 7993990320990026836);
}

#[test]
fn test_wrapped_input_stream_no_size() {
    let wrapped = mock_input_stream_no_size(b"Hello");
    assert_eq!(wrapped.try_get_length(), None);
}

#[test]
fn test_wrapped_input_stream_error() {
    let mut wrapped = mock_input_stream_with_error();
    assert_eq!(
        compute_stream_hash_rust_ffi(&mut wrapped),
        Err(StreamError::ReadFailed)
    );
}

#[test]
fn test_wrapped_io_stream_hash() {
    let mut wrapped = create_rust_mock_io_stream(b"Hello, World!");
    let hash = compute_stream_hash_iostream_ffi(&mut wrapped).unwrap();
    assert_eq!(hash, 7993990320990026836);
}

#[test]
fn test_wrapped_output_stream() {
    let mut wrapped = create_rust_mock_output_stream();
    wrapped.write(b"abc").unwrap();
    let mut failing = create_rust_mock_output_stream_with_error();
    assert_eq!(failing.write(b"abc"), Err(StreamError::WriteFailed));
}

#[test]
fn test_wrapped_try_pump_from_reports_no_optimization() {
    let mut output = RustAsyncOutputStream::new(MockOutputStream::new());
    let mut input = RustAsyncInputStream::new(MockInputStream::new(b"abc".to_vec()));
    assert_eq!(output.try_pump_from(&mut input, 3), Ok(0));
}
