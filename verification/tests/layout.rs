use solplace::errors::AccountError;
use solplace::instructions::{
    handle_initialize_canvas, handle_place_pixel, InitializeCanvas, PlacePixel,
};
use solplace::layout::{
    AUTHORITY_OFFSET, CANVAS_DISCRIMINATOR, HEIGHT_OFFSET, LAST_EDITOR_OFFSET, PADDING_OFFSET,
    PIXELS_OFFSET, PIXEL_COUNT_OFFSET, WIDTH_OFFSET,
};
use sha2::{Digest, Sha256};
use solplace::state::{Canvas, Pubkey};

fn sample() -> Canvas {
    let mut authority = [0u8; 32];
    let mut editor = [0u8; 32];
    for i in 0..32 {
        authority[i] = i as u8 + 1;
        editor[i] = 200 - i as u8;
    }
    let mut init = InitializeCanvas { authority: Pubkey(authority), canvas: None };
    assert_eq!(handle_initialize_canvas(&mut init), Ok(()));
    let mut ctx = PlacePixel { painter: Pubkey(editor), canvas: init.canvas.unwrap() };
    assert_eq!(handle_place_pixel(&mut ctx, 0, 0, 5), Ok(()));
    assert_eq!(handle_place_pixel(&mut ctx, 63, 63, 15), Ok(()));
    assert_eq!(handle_place_pixel(&mut ctx, 2, 1, 9), Ok(()));
    ctx.canvas
}

#[test]
fn size_is_the_sum_of_the_fields() {
    assert_eq!(Canvas::SIZE, 4184);
    assert_eq!(Canvas::SIZE, 8 + 32 + 1 + 1 + 6 + 32 + 8 + 4096);
}

#[test]
fn tag_is_the_hash_prefix_of_the_record_name() {
    let digest = Sha256::digest(b"account:Canvas");
    assert_eq!(&digest[..8], &CANVAS_DISCRIMINATOR);
    assert_eq!(CANVAS_DISCRIMINATOR, [239, 248, 162, 140, 114, 179, 55, 66]);
    assert!(CANVAS_DISCRIMINATOR.iter().any(|&byte| byte != 0));
}

#[test]
fn offsets_follow_the_field_sizes() {
    assert_eq!(AUTHORITY_OFFSET, 8);
    assert_eq!(WIDTH_OFFSET, 40);
    assert_eq!(HEIGHT_OFFSET, 41);
    assert_eq!(PADDING_OFFSET, 42);
    assert_eq!(LAST_EDITOR_OFFSET, 48);
    assert_eq!(PIXEL_COUNT_OFFSET, 80);
    assert_eq!(PIXELS_OFFSET, 88);
    assert_eq!(PIXELS_OFFSET + 4096, Canvas::SIZE);
}

#[test]
fn serialize_writes_the_fixed_layout() {
    let canvas = sample();
    let data = canvas.serialize();
    assert_eq!(data.len(), 4184);
    assert_eq!(&data[0..8], &[239u8, 248, 162, 140, 114, 179, 55, 66]);
    assert_eq!(&data[0..8], &CANVAS_DISCRIMINATOR);
    assert_eq!(&data[8..40], &canvas.authority.0);
    assert_eq!(data[8], 1);
    assert_eq!(data[39], 32);
    assert_eq!(data[40], 64);
    assert_eq!(data[41], 64);
    assert_eq!(&data[42..48], &[0u8; 6]);
    assert_eq!(&data[48..80], &canvas.last_editor.0);
    assert_eq!(data[48], 200);
    assert_eq!(&data[80..88], &[3u8, 0, 0, 0, 0, 0, 0, 0]);
    assert_eq!(data[88], 5);
    assert_eq!(data[88 + 64 + 2], 9);
    assert_eq!(data[88 + 4095], 15);
    assert_eq!(&data[88..], &canvas.pixels);
}

#[test]
fn pixel_count_is_stored_little_endian() {
    let mut canvas = sample();
    canvas.pixel_count = 0x0102_0304_0506_0708;
    let data = canvas.serialize();
    assert_eq!(&data[80..88], &[8u8, 7, 6, 5, 4, 3, 2, 1]);
    assert_eq!(Canvas::deserialize(&data).unwrap().pixel_count, 0x0102_0304_0506_0708);
    canvas.pixel_count = u64::MAX;
    assert_eq!(&canvas.serialize()[80..88], &[255u8; 8]);
}

#[test]
fn deserialize_after_serialize_returns_the_record() {
    let canvas = sample();
    let data = canvas.serialize();
    assert_eq!(Canvas::deserialize(&data), Ok(canvas));
}

#[test]
fn round_trip_holds_after_every_write() {
    let mut init = InitializeCanvas { authority: Pubkey([9; 32]), canvas: None };
    assert_eq!(handle_initialize_canvas(&mut init), Ok(()));
    let mut ctx = PlacePixel { painter: Pubkey([0; 32]), canvas: init.canvas.unwrap() };
    assert_eq!(Canvas::deserialize(&ctx.canvas.serialize()), Ok(ctx.canvas));
    for step in 0..200u8 {
        ctx.painter = Pubkey([step; 32]);
        let _ = handle_place_pixel(&mut ctx, step % 66, (step / 2) % 65, step % 17);
        let data = ctx.canvas.serialize();
        let back = Canvas::deserialize(&data).unwrap();
        assert_eq!(back, ctx.canvas);
        assert_eq!(back.serialize(), data);
    }
}

#[test]
fn serialize_after_deserialize_returns_the_bytes() {
    let mut data = vec![0u8; 4184];
    for (i, byte) in data.iter_mut().enumerate() {
        *byte = (i * 7 + 3) as u8;
    }
    data[..8].copy_from_slice(&CANVAS_DISCRIMINATOR);
    let canvas = Canvas::deserialize(&data).unwrap();
    assert_eq!(canvas.width, data[40]);
    assert_eq!(canvas.height, data[41]);
    assert_eq!(&canvas._padding, &data[42..48]);
    assert_eq!(&canvas.pixels[..], &data[88..]);
    assert_eq!(canvas.serialize(), data);
}

#[test]
fn deserialize_rejects_data_shorter_than_the_tag() {
    assert_eq!(Canvas::deserialize(&[]), Err(AccountError::DiscriminatorNotFound));
    assert_eq!(
        Canvas::deserialize(&CANVAS_DISCRIMINATOR[..7]),
        Err(AccountError::DiscriminatorNotFound)
    );
}

#[test]
fn deserialize_rejects_another_tag() {
    let mut data = sample().serialize();
    for i in 0..8 {
        let mut changed = data.clone();
        changed[i] ^= 1;
        assert_eq!(Canvas::deserialize(&changed), Err(AccountError::DiscriminatorMismatch));
    }
    data[..8].copy_from_slice(&[0u8; 8]);
    assert_eq!(Canvas::deserialize(&data), Err(AccountError::DiscriminatorMismatch));
    assert_eq!(Canvas::deserialize(&[0u8; 8]), Err(AccountError::DiscriminatorMismatch));
    assert_eq!(Canvas::deserialize(&[1u8; 5000]), Err(AccountError::DiscriminatorMismatch));
}

#[test]
fn deserialize_rejects_another_size() {
    let data = sample().serialize();
    assert_eq!(Canvas::deserialize(&data[..4183]), Err(AccountError::DidNotDeserialize));
    assert_eq!(Canvas::deserialize(&data[..8]), Err(AccountError::DidNotDeserialize));
    let mut longer = data.clone();
    longer.push(0);
    assert_eq!(Canvas::deserialize(&longer), Err(AccountError::DidNotDeserialize));
    assert_eq!(Canvas::deserialize(&data), Ok(sample()));
}
