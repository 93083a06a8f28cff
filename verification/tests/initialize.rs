use solplace::errors::AccountError;
use solplace::initialize_canvas;
use solplace::instructions::{
    handle_initialize_canvas, handle_place_pixel, InitializeCanvas, PlacePixel, CANVAS_SEED,
};
use solplace::state::Pubkey;

#[test]
fn canvas_seed_is_the_word_canvas() {
    assert_eq!(&CANVAS_SEED[..], b"canvas");
}

#[test]
fn initialize_creates_an_empty_canvas() {
    let authority = Pubkey([42; 32]);
    let mut ctx = InitializeCanvas { authority, canvas: None };
    assert_eq!(handle_initialize_canvas(&mut ctx), Ok(()));
    assert_eq!(ctx.authority, authority);
    let canvas = ctx.canvas.unwrap();
    assert_eq!(canvas.authority, authority);
    assert_eq!(canvas.last_editor, authority);
    assert_eq!(canvas.width, 64);
    assert_eq!(canvas.height, 64);
    assert_eq!(canvas._padding, [0u8; 6]);
    assert_eq!(canvas.pixel_count, 0);
    assert_eq!(canvas.pixels, [0u8; 4096]);
}

#[test]
fn initialize_succeeds_exactly_once() {
    let first = Pubkey([1; 32]);
    let second = Pubkey([2; 32]);
    let mut ctx = InitializeCanvas { authority: first, canvas: None };
    assert_eq!(initialize_canvas(&mut ctx), Ok(()));
    let created = ctx;

    assert_eq!(initialize_canvas(&mut ctx), Err(AccountError::AlreadyInUse));
    assert_eq!(ctx, created);

    ctx.authority = second;
    assert_eq!(handle_initialize_canvas(&mut ctx), Err(AccountError::AlreadyInUse));
    assert_eq!(ctx.canvas, created.canvas);
    assert_eq!(ctx.canvas.unwrap().authority, first);
}

#[test]
fn initialize_fails_on_a_painted_canvas_and_keeps_it() {
    let mut init = InitializeCanvas { authority: Pubkey([1; 32]), canvas: None };
    assert_eq!(handle_initialize_canvas(&mut init), Ok(()));
    let mut place = PlacePixel { painter: Pubkey([3; 32]), canvas: init.canvas.unwrap() };
    assert_eq!(handle_place_pixel(&mut place, 10, 20, 11), Ok(()));

    let mut again = InitializeCanvas { authority: Pubkey([1; 32]), canvas: Some(place.canvas) };
    assert_eq!(handle_initialize_canvas(&mut again), Err(AccountError::AlreadyInUse));
    let kept = again.canvas.unwrap();
    assert_eq!(kept, place.canvas);
    assert_eq!(kept.pixels[20 * 64 + 10], 11);
    assert_eq!(kept.pixel_count, 1);
}
