use compute_dispatch::error::ComputeError;
use compute_dispatch::memory::{
    create_buffer, create_image, Access, Channels, ElementType, ELEMENT_BYTES,
};

#[test]
fn buffer_with_matching_initial_data() {
    let buffer = create_buffer(1024, Access::ReadOnly, Some(1024)).unwrap();
    assert_eq!(buffer.len(), 1024);
    assert_eq!(buffer.access(), Access::ReadOnly);
    assert_eq!(buffer.byte_len(), 4096);
}

#[test]
fn buffer_without_initial_data() {
    let buffer = create_buffer(256, Access::HostReadOnly, None).unwrap();
    assert_eq!(buffer.len(), 256);
    assert_eq!(buffer.access(), Access::HostReadOnly);
    assert_eq!(buffer.byte_len(), 256 * ELEMENT_BYTES);
}

#[test]
fn buffer_with_mismatched_initial_data() {
    assert_eq!(
        create_buffer(1024, Access::ReadOnly, Some(1023)),
        Err(ComputeError::SizeMismatch { expected: 1024, actual: 1023 })
    );
    assert_eq!(
        create_buffer(0, Access::ReadWrite, Some(1)),
        Err(ComputeError::SizeMismatch { expected: 0, actual: 1 })
    );
}

#[test]
fn empty_buffer_is_allowed() {
    let buffer = create_buffer(0, Access::ReadWrite, Some(0)).unwrap();
    assert_eq!(buffer.len(), 0);
    assert_eq!(buffer.byte_len(), 0);
    assert_eq!(buffer.upload(0), Ok(0));
}

#[test]
fn buffer_too_large_to_address() {
    if usize::BITS >= 64 {
        assert_eq!(
            create_buffer(usize::MAX, Access::ReadWrite, None),
            Err(ComputeError::InvalidExtent)
        );
        assert_eq!(
            create_buffer(usize::MAX / 4 + 1, Access::ReadWrite, Some(3)),
            Err(ComputeError::InvalidExtent)
        );
        assert!(create_buffer(usize::MAX / 4, Access::ReadWrite, None).is_ok());
    }
}

#[test]
fn buffer_transfers_need_the_exact_length() {
    let buffer = create_buffer(1024, Access::ReadWrite, None).unwrap();
    assert_eq!(buffer.upload(1024), Ok(4096));
    assert_eq!(buffer.read_back(1024), Ok(4096));
    assert_eq!(
        buffer.upload(1025),
        Err(ComputeError::SizeMismatch { expected: 1024, actual: 1025 })
    );
    assert_eq!(
        buffer.read_back(0),
        Err(ComputeError::SizeMismatch { expected: 1024, actual: 0 })
    );
}

#[test]
fn upload_and_read_back_accept_the_same_lengths() {
    let buffer = create_buffer(37, Access::ReadWrite, None).unwrap();
    for n in 0..80usize {
        assert_eq!(buffer.upload(n), buffer.read_back(n));
        assert_eq!(buffer.upload(n).is_ok(), n == 37);
    }
}

#[test]
fn image_sizes() {
    let image = create_image(1488, 1488, Channels::Rgba, ElementType::Float32, Access::ReadOnly).unwrap();
    assert_eq!(image.width(), 1488);
    assert_eq!(image.height(), 1488);
    assert_eq!(image.channels(), Channels::Rgba);
    assert_eq!(image.access(), Access::ReadOnly);
    assert_eq!(image.element_count(), 1488 * 1488 * 4);
    assert_eq!(image.byte_len(), 1488 * 1488 * 4 * 4);
    assert_eq!(image.row_bytes(), 1488 * 4 * 4);
}

#[test]
fn single_channel_image_sizes() {
    let image = create_image(640, 480, Channels::R, ElementType::Float32, Access::WriteOnly).unwrap();
    assert_eq!(image.element_count(), 640 * 480);
    assert_eq!(image.byte_len(), 640 * 480 * 4);
    assert_eq!(image.row_bytes(), 640 * 4);
    assert_eq!(Channels::R.count(), 1);
    assert_eq!(Channels::Rgba.count(), 4);
}

#[test]
fn empty_image_is_rejected() {
    assert_eq!(
        create_image(0, 480, Channels::R, ElementType::Float32, Access::ReadOnly),
        Err(ComputeError::InvalidExtent)
    );
    assert_eq!(
        create_image(640, 0, Channels::Rgba, ElementType::Float32, Access::ReadOnly),
        Err(ComputeError::InvalidExtent)
    );
    assert_eq!(
        create_image(0, 0, Channels::R, ElementType::Float32, Access::ReadOnly),
        Err(ComputeError::InvalidExtent)
    );
    assert!(create_image(1, 1, Channels::R, ElementType::Float32, Access::ReadOnly).is_ok());
}

#[test]
fn image_too_large_to_address() {
    assert_eq!(
        create_image(u32::MAX, u32::MAX, Channels::Rgba, ElementType::Float32, Access::ReadOnly),
        Err(ComputeError::InvalidExtent)
    );
    assert_eq!(
        create_image(u32::MAX, u32::MAX, Channels::R, ElementType::Float32, Access::ReadOnly),
        Err(ComputeError::InvalidExtent)
    );
    if usize::BITS >= 64 {
        let image = create_image(0x8000_0000, 0x7fff_ffff, Channels::R, ElementType::Float32, Access::ReadOnly).unwrap();
        assert_eq!(image.element_count(), 0x3fff_ffff_8000_0000);
        assert_eq!(image.byte_len(), 0xffff_fffe_0000_0000);
        assert_eq!(
            create_image(0x8000_0000, 0x7fff_ffff, Channels::Rgba, ElementType::Float32, Access::ReadOnly),
            Err(ComputeError::InvalidExtent)
        );
    }
}

#[test]
fn image_transfers_fill_the_whole_image() {
    let image = create_image(4, 3, Channels::R, ElementType::Float32, Access::ReadWrite).unwrap();
    assert_eq!(image.upload(12), Ok(48));
    assert_eq!(image.read_back(12), Ok(48));
    assert_eq!(
        image.upload(11),
        Err(ComputeError::SizeMismatch { expected: 12, actual: 11 })
    );
    let image = create_image(4, 3, Channels::Rgba, ElementType::Float32, Access::ReadWrite).unwrap();
    assert_eq!(image.read_back(48), Ok(192));
    assert_eq!(
        image.read_back(12),
        Err(ComputeError::SizeMismatch { expected: 48, actual: 12 })
    );
}

#[test]
fn staging_rows_are_aligned_to_256_bytes() {
    let image = create_image(1488, 1488, Channels::Rgba, ElementType::Float32, Access::ReadWrite).unwrap();
    assert_eq!(image.staging_row_bytes(), Ok(23808));
    let image = create_image(16, 1, Channels::Rgba, ElementType::Float32, Access::ReadWrite).unwrap();
    assert_eq!(image.staging_row_bytes(), Ok(256));
    let image = create_image(64, 1, Channels::R, ElementType::Float32, Access::ReadWrite).unwrap();
    assert_eq!(image.staging_row_bytes(), Ok(256));
}

#[test]
fn unaligned_staging_rows_are_rejected() {
    let image = create_image(8, 8, Channels::Rgba, ElementType::Float32, Access::ReadWrite).unwrap();
    assert_eq!(image.staging_row_bytes(), Err(ComputeError::InvalidExtent));
    let image = create_image(1490, 1488, Channels::Rgba, ElementType::Float32, Access::ReadWrite).unwrap();
    assert_eq!(image.staging_row_bytes(), Err(ComputeError::InvalidExtent));
    let image = create_image(1, 1, Channels::R, ElementType::Float32, Access::ReadWrite).unwrap();
    assert_eq!(image.staging_row_bytes(), Err(ComputeError::InvalidExtent));
}

#[test]
fn staging_rows_beyond_32_bits_are_rejected() {
    let image = create_image(0x1000_0000, 1, Channels::Rgba, ElementType::Float32, Access::ReadWrite).unwrap();
    assert_eq!(image.row_bytes(), 0x1_0000_0000);
    assert_eq!(image.staging_row_bytes(), Err(ComputeError::InvalidExtent));
}

#[test]
fn extent_block_holds_width_then_height() {
    let image = create_image(1488, 720, Channels::Rgba, ElementType::Float32, Access::ReadOnly).unwrap();
    let block = image.extent_block();
    assert_eq!(block.len(), 8);
    let width = u32::from_ne_bytes([block[0], block[1], block[2], block[3]]);
    let height = u32::from_ne_bytes([block[4], block[5], block[6], block[7]]);
    assert_eq!(width, 1488);
    assert_eq!(height, 720);
}
