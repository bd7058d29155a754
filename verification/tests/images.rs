use image::DynamicImage;
use image::GrayAlphaImage;
use image::GrayImage;
use image::ImageBuffer;
use image::Rgb;
use image::RgbImage;
use image::RgbaImage;
use realesrgan_rs::creation::Call;
use realesrgan_rs::creation::ExitHook;
use realesrgan_rs::creation::Progress;
use realesrgan_rs::creation::Reply;
use realesrgan_rs::images::read_image;
use realesrgan_rs::images::rebuild;
use realesrgan_rs::images::ColorLayout;
use realesrgan_rs::images::Pixels;
use realesrgan_rs::Error;
use realesrgan_rs::Options;
use realesrgan_rs::RealEsrgan;

const SOME_PARAM: [u8; 1] = [1];
const SOME_BIN: [u8; 1] = [2];

fn engine(scale: i32) -> RealEsrgan<'static> {
    let mut options = Options::default().model_bytes(&SOME_PARAM, &SOME_BIN);
    options.gpuid = -1;
    options.scale_factor = scale;
    let mut hook = ExitHook::new();
    let mut progress = RealEsrgan::new(options);
    loop {
        match progress {
            Progress::Finished(result) => return result.unwrap(),
            Progress::Pending(creation, call) => {
                let reply = match call {
                    Call::Init { .. } => Reply::Instance(64),
                    Call::OpenStreams { .. } => Reply::Streams { param: true, bin: true },
                    Call::LoadFiles { .. } => Reply::Loaded(0),
                    _ => Reply::Done,
                };
                progress = creation.resume(reply, &mut hook);
            }
        }
    }
}

fn rgb_image() -> DynamicImage {
    let bytes = vec![10, 20, 30, 40, 50, 60, 70, 80, 90, 100, 110, 120];
    DynamicImage::ImageRgb8(RgbImage::from_raw(2, 2, bytes).unwrap())
}

#[test]
fn rgb_image_is_read_as_it_is() {
    let pixels = read_image(&rgb_image()).unwrap();
    assert_eq!(pixels.layout, ColorLayout::Rgb8);
    assert_eq!(pixels.width, 2);
    assert_eq!(pixels.height, 2);
    assert_eq!(pixels.rgb, vec![10, 20, 30, 40, 50, 60, 70, 80, 90, 100, 110, 120]);
}

#[test]
fn width_and_height_are_not_mixed_up() {
    let image = DynamicImage::ImageRgb8(RgbImage::from_raw(3, 1, vec![0; 9]).unwrap());
    let pixels = read_image(&image).unwrap();
    assert_eq!((pixels.width, pixels.height), (3, 1));
    let image = DynamicImage::ImageLuma8(GrayImage::from_raw(1, 5, vec![0; 5]).unwrap());
    let pixels = read_image(&image).unwrap();
    assert_eq!((pixels.width, pixels.height), (1, 5));
}

#[test]
fn other_layouts_are_converted_to_three_bytes_per_pixel() {
    let gray = DynamicImage::ImageLuma8(GrayImage::from_raw(2, 1, vec![0, 255]).unwrap());
    let pixels = read_image(&gray).unwrap();
    assert_eq!(pixels.layout, ColorLayout::L8);
    assert_eq!(pixels.rgb, vec![0, 0, 0, 255, 255, 255]);

    let gray_alpha =
        DynamicImage::ImageLumaA8(GrayAlphaImage::from_raw(1, 2, vec![255, 9, 0, 9]).unwrap());
    let pixels = read_image(&gray_alpha).unwrap();
    assert_eq!(pixels.layout, ColorLayout::La8);
    assert_eq!(pixels.rgb, vec![255, 255, 255, 0, 0, 0]);

    let rgba =
        DynamicImage::ImageRgba8(RgbaImage::from_raw(1, 2, vec![1, 2, 3, 4, 5, 6, 7, 8]).unwrap());
    let pixels = read_image(&rgba).unwrap();
    assert_eq!(pixels.layout, ColorLayout::Rgba8);
    assert_eq!(pixels.rgb, vec![1, 2, 3, 5, 6, 7]);
}

#[test]
fn sixteen_bit_image_counts_as_other() {
    let buffer: ImageBuffer<Rgb<u16>, Vec<u16>> =
        ImageBuffer::from_raw(1, 1, vec![0, 65535, 0]).unwrap();
    let pixels = read_image(&DynamicImage::ImageRgb16(buffer)).unwrap();
    assert_eq!(pixels.layout, ColorLayout::Other);
    assert_eq!(pixels.rgb, vec![0, 255, 0]);
}

#[test]
fn layouts_have_their_channels() {
    assert_eq!(ColorLayout::L8.channels(), 1);
    assert_eq!(ColorLayout::La8.channels(), 2);
    assert_eq!(ColorLayout::Rgb8.channels(), 3);
    assert_eq!(ColorLayout::Rgba8.channels(), 4);
    assert_eq!(ColorLayout::Other.channels(), 3);
}

#[test]
fn rebuild_keeps_layout_size_and_bytes() {
    let image = rebuild(ColorLayout::Rgb8, 2, 1, vec![1, 2, 3, 4, 5, 6]).unwrap();
    assert_eq!(image.color(), image::ColorType::Rgb8);
    assert_eq!((image.width(), image.height()), (2, 1));
    assert_eq!(image.as_bytes(), &[1, 2, 3, 4, 5, 6]);

    let image = rebuild(ColorLayout::Rgba8, 1, 2, vec![1, 2, 3, 4, 5, 6, 7, 8]).unwrap();
    assert_eq!(image.color(), image::ColorType::Rgba8);
    assert_eq!((image.width(), image.height()), (1, 2));
    assert_eq!(image.as_bytes(), &[1, 2, 3, 4, 5, 6, 7, 8]);

    let image = rebuild(ColorLayout::L8, 3, 1, vec![7, 8, 9]).unwrap();
    assert_eq!(image.color(), image::ColorType::L8);
    assert_eq!((image.width(), image.height()), (3, 1));
    assert_eq!(image.as_bytes(), &[7, 8, 9]);

    let image = rebuild(ColorLayout::La8, 1, 2, vec![7, 8, 9, 10]).unwrap();
    assert_eq!(image.color(), image::ColorType::La8);
    assert_eq!((image.width(), image.height()), (1, 2));
    assert_eq!(image.as_bytes(), &[7, 8, 9, 10]);

    let image = rebuild(ColorLayout::Other, 1, 1, vec![4, 5, 6]).unwrap();
    assert_eq!(image.color(), image::ColorType::Rgb8);
    assert_eq!(image.as_bytes(), &[4, 5, 6]);
}

#[test]
fn rebuild_wants_the_bytes_to_fill_the_image_exactly() {
    let failed = Error::ColorConversionFailed;
    assert_eq!(rebuild(ColorLayout::Rgb8, 2, 1, vec![0; 5]).unwrap_err(), failed);
    assert_eq!(rebuild(ColorLayout::Rgb8, 2, 1, vec![0; 7]).unwrap_err(), failed);
    assert_eq!(rebuild(ColorLayout::L8, 2, 1, vec![0; 6]).unwrap_err(), failed);
    assert_eq!(rebuild(ColorLayout::La8, 2, 1, vec![0; 6]).unwrap_err(), failed);
    assert_eq!(rebuild(ColorLayout::Rgba8, 2, 1, vec![0; 6]).unwrap_err(), failed);
    assert_eq!(
        rebuild(ColorLayout::Rgba8, u32::MAX, u32::MAX, vec![0; 4]).unwrap_err(),
        Error::ColorConversionFailed
    );
    assert!(rebuild(ColorLayout::Rgba8, 0, 9, Vec::new()).is_ok());
}

#[test]
fn rgb_image_is_enlarged_and_rebuilt() {
    let handle = engine(2);
    let pixels = read_image(&rgb_image()).unwrap();
    assert!(handle.image_sizes_fit(&pixels));
    let mut enlargement = handle.process_image(&pixels).unwrap();
    assert_eq!(enlargement.layout, ColorLayout::Rgb8);
    assert_eq!((enlargement.width, enlargement.height), (4, 4));
    assert_eq!(enlargement.transform.pointer, 64);
    assert_eq!(enlargement.transform.channels, 3);
    assert_eq!(enlargement.transform.output.len(), 48);
    for (index, byte) in enlargement.transform.output.iter_mut().enumerate() {
        *byte = index as u8;
    }
    let image = enlargement.complete(0).unwrap();
    assert_eq!(image.color(), image::ColorType::Rgb8);
    assert_eq!((image.width(), image.height()), (4, 4));
    let expected: Vec<u8> = (0u8..48).collect();
    assert_eq!(image.as_bytes(), expected.as_slice());
}

#[test]
fn image_of_another_layout_cannot_be_rebuilt_from_rgb_bytes() {
    let handle = engine(2);
    let gray = DynamicImage::ImageLuma8(GrayImage::from_raw(2, 2, vec![1, 2, 3, 4]).unwrap());
    let pixels = read_image(&gray).unwrap();
    let enlargement = handle.process_image(&pixels).unwrap();
    assert_eq!(enlargement.transform.output.len(), 48);
    assert_eq!(enlargement.complete(0).unwrap_err(), Error::ColorConversionFailed);
}

#[test]
fn failed_transform_fails_the_image() {
    let handle = engine(2);
    let pixels = read_image(&rgb_image()).unwrap();
    let enlargement = handle.process_image(&pixels).unwrap();
    assert_eq!(enlargement.complete(8).unwrap_err(), Error::ProcessingFailed { code: 8 });
}

#[test]
fn pixels_that_do_not_fill_the_image_are_turned_down() {
    let handle = engine(2);
    let pixels = Pixels { layout: ColorLayout::Rgb8, width: 2, height: 2, rgb: vec![0; 13] };
    assert!(handle.image_sizes_fit(&pixels));
    assert_eq!(
        handle.process_image(&pixels).unwrap_err(),
        Error::InvalidInput { expected_length: 4, actual_length: 13 }
    );
}

#[test]
fn enlarged_side_has_to_fit_32_bits() {
    let handle = engine(4);
    let wide = Pixels { layout: ColorLayout::L8, width: 1 << 30, height: 1, rgb: Vec::new() };
    assert!(!handle.image_sizes_fit(&wide));
    let narrow =
        Pixels { layout: ColorLayout::L8, width: (1 << 30) - 1, height: 1, rgb: Vec::new() };
    assert_eq!(handle.image_sizes_fit(&narrow), usize::BITS > 32);
}

#[test]
fn rgb_image_with_a_longer_buffer_is_read_whole() {
    let image = DynamicImage::ImageRgb8(RgbImage::from_raw(1, 1, vec![1, 2, 3, 4, 5]).unwrap());
    let pixels = read_image(&image).unwrap();
    assert_eq!(pixels.rgb, vec![1, 2, 3, 4, 5]);
    assert!(pixels.rgb.len() >= 3 * 1 * 1);
}

#[test]
fn converted_pixels_are_three_bytes_each() {
    let gray = DynamicImage::ImageLuma8(GrayImage::from_raw(3, 2, vec![0; 9]).unwrap());
    assert_eq!(read_image(&gray).unwrap().rgb.len(), 3 * 3 * 2);
    let rgba = DynamicImage::ImageRgba8(RgbaImage::from_raw(2, 5, vec![0; 47]).unwrap());
    assert_eq!(read_image(&rgba).unwrap().rgb.len(), 3 * 2 * 5);
    let none = DynamicImage::ImageLuma8(GrayImage::from_raw(0, 7, Vec::new()).unwrap());
    assert_eq!(read_image(&none).unwrap().rgb.len(), 0);
}

#[test]
fn row_that_cannot_be_counted_is_turned_down() {
    let rebuilt = rebuild(ColorLayout::Rgba8, 0x4000_0000, 0, Vec::new());
    assert_eq!(rebuilt.is_ok(), usize::BITS > 32);
    let rebuilt = rebuild(ColorLayout::Rgb8, 0x5555_5556, 0, Vec::new());
    assert_eq!(rebuilt.is_ok(), usize::BITS > 32);
    let rebuilt = rebuild(ColorLayout::La8, 0x8000_0000, 0, Vec::new());
    assert_eq!(rebuilt.is_ok(), usize::BITS > 32);
    assert!(rebuild(ColorLayout::L8, u32::MAX, 0, Vec::new()).is_ok());
    assert!(rebuild(ColorLayout::Rgba8, 0x3fff_ffff, 0, Vec::new()).is_ok());

    let wide = DynamicImage::new_luma8(0x8000_0000, 0);
    assert_eq!(read_image(&wide).is_some(), usize::BITS > 32);
    let narrow = DynamicImage::new_luma8(0x5555_5555, 0);
    assert!(read_image(&narrow).is_some());
}
