use spectrum::color::RGBA;
use spectrum::config::ConfigError;
use spectrum::frame::PixelBuffer;

fn error_of(r: Result<PixelBuffer, ConfigError>) -> ConfigError {
    match r {
        Ok(_) => panic!("the frame was accepted"),
        Err(e) => e,
    }
}

fn frame(width: u32, height: u32) -> PixelBuffer {
    match PixelBuffer::new(width, height) {
        Ok(b) => b,
        Err(e) => panic!("{}", e.message()),
    }
}

#[test]
fn a_new_frame_is_all_zero() {
    let b = frame(3, 2);
    assert_eq!(b.width(), 3);
    assert_eq!(b.height(), 2);
    assert_eq!(b.data().len(), 24);
    assert!(b.data().iter().all(|byte| *byte == 0));
}

#[test]
fn a_frame_without_columns_is_refused() {
    assert_eq!(error_of(PixelBuffer::new(0, 5)), ConfigError::ZeroWidth);
    assert_eq!(error_of(PixelBuffer::new(0, 0)), ConfigError::ZeroWidth);
}

#[test]
fn a_frame_without_rows_is_refused() {
    assert_eq!(error_of(PixelBuffer::new(5, 0)), ConfigError::ZeroHeight);
}

#[test]
fn a_frame_beyond_the_address_space_is_refused() {
    assert_eq!(error_of(PixelBuffer::new(u32::MAX, u32::MAX)), ConfigError::FrameTooLarge);
}

#[test]
fn a_pixel_is_written_at_four_times_its_row_major_index() {
    let mut b = frame(3, 2);
    b.set_pixel(1, 1, RGBA(10, 20, 30, 40));
    let start = (1 + 1 * 3) * 4;
    assert_eq!(start, 16);
    let mut expected = vec![0u8; 24];
    expected[16] = 10;
    expected[17] = 20;
    expected[18] = 30;
    expected[19] = 40;
    assert_eq!(b.data(), &expected);
}

#[test]
fn writing_one_pixel_leaves_its_neighbours() {
    let mut b = frame(2, 2);
    b.set_pixel(0, 0, RGBA(1, 1, 1, 1));
    b.set_pixel(1, 0, RGBA(2, 2, 2, 2));
    b.set_pixel(0, 1, RGBA(3, 3, 3, 3));
    b.set_pixel(1, 1, RGBA(4, 4, 4, 4));
    b.set_pixel(1, 0, RGBA(9, 8, 7, 6));
    assert_eq!(b.data(), &vec![1, 1, 1, 1, 9, 8, 7, 6, 3, 3, 3, 3, 4, 4, 4, 4]);
}

#[test]
fn the_corners_are_the_first_and_the_last_four_bytes() {
    let mut b = frame(4, 3);
    b.set_pixel(0, 0, RGBA(1, 2, 3, 4));
    b.set_pixel(3, 2, RGBA(5, 6, 7, 8));
    assert_eq!(&b.data()[0..4], &[1, 2, 3, 4]);
    assert_eq!(&b.data()[44..48], &[5, 6, 7, 8]);
    assert!(b.data()[4..44].iter().all(|byte| *byte == 0));
}

#[test]
fn draw_asks_the_shader_for_every_pixel() {
    let mut b = frame(3, 2);
    b.draw(|x, y| RGBA(x as u8, y as u8, (x + 10 * y) as u8, 255));
    assert_eq!(
        b.data(),
        &vec![
            0, 0, 0, 255, 1, 0, 1, 255, 2, 0, 2, 255, //
            0, 1, 10, 255, 1, 1, 11, 255, 2, 1, 12, 255,
        ]
    );
}

#[test]
fn draw_overwrites_what_the_frame_held() {
    let mut b = frame(2, 2);
    b.draw(|_, _| RGBA(9, 9, 9, 9));
    b.draw(|x, y| RGBA(x as u8, y as u8, 0, 255));
    assert_eq!(b.data(), &vec![0, 0, 0, 255, 1, 0, 0, 255, 0, 1, 0, 255, 1, 1, 0, 255]);
}

#[test]
fn drawing_twice_gives_the_same_bytes() {
    let shade = |x: u32, y: u32| RGBA((x * 7) as u8, (y * 13) as u8, (x ^ y) as u8, 200);
    let mut first = frame(16, 9);
    first.draw(shade);
    let once = first.data().clone();
    first.draw(shade);
    assert_eq!(first.data(), &once);

    let mut second = frame(16, 9);
    second.draw(|_, _| RGBA(1, 2, 3, 4));
    second.draw(shade);
    assert_eq!(second.data(), &once);
}

#[test]
fn draw_keeps_the_size() {
    let mut b = frame(5, 7);
    b.draw(|_, _| RGBA(255, 0, 0, 255));
    assert_eq!(b.width(), 5);
    assert_eq!(b.height(), 7);
    assert_eq!(b.data().len(), 5 * 7 * 4);
}

#[test]
fn one_red_source_on_a_twenty_by_twenty_canvas() {
    // The shader stands for a single red source at (10, 10): full strength
    // at the source, fading with one over the squared distance plus one.
    let shade = |x: u32, y: u32| {
        let dx = x as i64 - 10;
        let dy = y as i64 - 10;
        let d = dx * dx + dy * dy + 1;
        RGBA(255, 0, 0, (255 / d) as u8)
    };
    let mut b = frame(20, 20);
    b.draw(shade);
    let at_source = (10 + 10 * 20) * 4;
    assert_eq!(&b.data()[at_source..at_source + 4], &[255, 0, 0, 255]);
    let corner = (19 + 19 * 20) * 4;
    assert_eq!(corner, 1596);
    assert_eq!(&b.data()[corner..corner + 4], &[255, 0, 0, 1]);
    assert_eq!(b.data().len(), 1600);
}
