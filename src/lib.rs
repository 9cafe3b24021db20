//! Generic in-memory raster images: pixel layouts, image buffers addressed by
//! width, height and pitch, and elementwise arithmetic on whole images.

mod broadcast;
mod gray;
mod image;
mod px;
mod scalar;

pub use broadcast::{
    Operand, combine_images, combine_images_in_place, combine_with, combine_with_in_place,
    images_combined, images_ok, lemma_in_place_matches_new, lemma_in_place_with_matches_new,
    operand_combined, operand_ok_for_image, scanned_before,
};
pub use gray::{Gray, Gray16U, Gray32U, Gray8U, GrayVal, GrayVal16U, GrayVal32U, GrayVal8U};
pub use image::{
    Image, ImageBuffer, ImageBufferVal, ImageVal, lemma_load_then_write, lemma_sample_before,
    lemma_sample_in_bounds, lemma_set_then_get, lemma_splice, lemma_write_then_read,
};
pub use px::{
    Pixel, PixelArithmetic, PixelVal, apply_px_px, apply_px_sc, apply_sc_px, buffer_size,
    bytes_at, lemma_minimum_pitch_size, lemma_pitch_below_minimum, min_pitch_spec, offset_of,
    read_sample, sample_fits, sample_offset, size_spec, write_sample,
};
pub use scalar::{Op, Scalar, ScalarVal, op_spec, operand_ok, splice};
