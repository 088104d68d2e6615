use squish::block::Format;
use squish::{num_blocks, Encoder, BC4, BC5};

#[test]
fn test_num_blocks() {
    assert_eq!(num_blocks(0), 0);
    assert_eq!(num_blocks(1), 1);
    assert_eq!(num_blocks(2), 1);
    assert_eq!(num_blocks(3), 1);
    assert_eq!(num_blocks(4), 1);
    assert_eq!(num_blocks(5), 2);
    assert_eq!(num_blocks(6), 2);
}

#[test]
fn bc4_test_storage_requirements() {
    assert_eq!(BC4::compressed_size(16, 32), 256);
    assert_eq!(BC4::compressed_size(15, 32), 256);
}

#[test]
fn bc5_test_storage_requirements() {
    assert_eq!(BC5::compressed_size(16, 32), 512);
    assert_eq!(BC5::compressed_size(15, 32), 512);
}

#[test]
fn block_sizes() {
    assert_eq!(BC4::block_size(), 8);
    assert_eq!(BC5::block_size(), 16);
}
