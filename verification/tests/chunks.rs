use onedrive_uploader::chunk::{chunk_range, slice_count, SLICE_SIZE};
use onedrive_uploader::decimal::u64_to_dec;
use onedrive_uploader::headers::{bearer_header, content_length_header, content_range_header};

const MIB5: u64 = 5 * 1024 * 1024;

#[test]
fn slice_size_is_five_mib() {
    assert_eq!(SLICE_SIZE, 5242880);
}

#[test]
fn slice_count_of_empty_file_is_zero() {
    assert_eq!(slice_count(0), 0);
}

#[test]
fn slice_count_rounds_up() {
    assert_eq!(slice_count(1), 1);
    assert_eq!(slice_count(MIB5 - 1), 1);
    assert_eq!(slice_count(MIB5), 1);
    assert_eq!(slice_count(MIB5 + 1), 2);
    assert_eq!(slice_count(2 * MIB5), 2);
    assert_eq!(slice_count(10 * MIB5 + 3), 11);
}

#[test]
fn slice_count_of_largest_size() {
    assert_eq!(slice_count(u64::MAX), u64::MAX / MIB5 + 1);
}

#[test]
fn chunk_ranges_partition_two_chunk_file() {
    let total = MIB5 + 1;
    let first = chunk_range(0, total);
    let second = chunk_range(1, total);
    assert_eq!(first.start, 0);
    assert_eq!(first.end, MIB5);
    assert_eq!(second.start, MIB5);
    assert_eq!(second.end, total);
    assert_eq!(first.byte_len(), MIB5);
    assert_eq!(second.byte_len(), 1);
}

#[test]
fn exact_multiple_has_full_final_chunk() {
    let total = 2 * MIB5;
    let last = chunk_range(1, total);
    assert_eq!(last.start, MIB5);
    assert_eq!(last.end, total);
    assert_eq!(last.byte_len(), MIB5);
}

#[test]
fn content_range_of_single_five_mib_chunk() {
    let c = chunk_range(0, MIB5);
    assert_eq!(content_range_header(&c), "bytes 0-5242879/5242880");
    assert_eq!(content_length_header(&c), "5242880");
}

#[test]
fn content_range_of_one_byte_final_chunk() {
    let c = chunk_range(1, MIB5 + 1);
    assert_eq!(content_range_header(&c), "bytes 5242880-5242880/5242881");
    assert_eq!(content_length_header(&c), "1");
}

#[test]
fn decimal_rendering() {
    assert_eq!(u64_to_dec(0), "0");
    assert_eq!(u64_to_dec(7), "7");
    assert_eq!(u64_to_dec(10), "10");
    assert_eq!(u64_to_dec(5242880), "5242880");
    assert_eq!(u64_to_dec(u64::MAX), "18446744073709551615");
}

#[test]
fn bearer_header_prefixes_token() {
    assert_eq!(bearer_header("abc123"), "Bearer abc123");
}
