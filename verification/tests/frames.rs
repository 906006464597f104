use just_stop::camera_feed::CameraFeed;
use just_stop::camera_feed::CameraMessage;
use just_stop::camera_feed::FeedAction;
use just_stop::decode::decode_frame;
use just_stop::decode::frame_of_decoded;
use just_stop::decode::PixelFormat;
use just_stop::decode::RawFrame;
use just_stop::decode::SourceFormat;
use just_stop::error::CameraError;
use just_stop::frame::Frame;

fn source(width: u32, height: u32, format: SourceFormat, data: Vec<u8>) -> RawFrame {
    RawFrame { width, height, format: PixelFormat::Source(format), data }
}

#[test]
fn a_frame_holds_exactly_its_pixels() {
    let frame = Frame::new(2, 3, (0..24).collect()).expect("six pixels");
    assert_eq!(frame.width(), 2);
    assert_eq!(frame.height(), 3);
    assert_eq!(frame.pixels().len(), 24);
    assert_eq!(frame.into_raw(), (0..24).collect::<Vec<u8>>());
}

#[test]
fn a_buffer_of_the_wrong_size_is_no_frame() {
    assert_eq!(Frame::new(2, 3, vec![0; 23]), None);
    assert_eq!(Frame::new(2, 3, vec![0; 25]), None);
    assert_eq!(Frame::new(1, 1, Vec::new()), None);
    assert_eq!(Frame::new(u32::MAX, u32::MAX, vec![0; 4]), None);
}

#[test]
fn an_empty_grid_is_a_frame() {
    let flat = Frame::new(0, 5, Vec::new()).expect("no pixels");
    assert_eq!((flat.width(), flat.height()), (0, 5));
    let mirrored = flat.mirrored();
    assert_eq!((mirrored.width(), mirrored.height()), (0, 5));
    assert!(mirrored.pixels().is_empty());
    assert!(Frame::new(7, 0, Vec::new()).is_some());
}

#[test]
fn mirroring_reverses_each_row() {
    let frame = Frame::new(
        3,
        2,
        vec![
            1, 2, 3, 4, 5, 6, 7, 8, 9, 10, 11, 12, //
            13, 14, 15, 16, 17, 18, 19, 20, 21, 22, 23, 24,
        ],
    )
    .expect("six pixels");
    let mirrored = frame.mirrored();
    assert_eq!((mirrored.width(), mirrored.height()), (3, 2));
    assert_eq!(
        mirrored.pixels(),
        &vec![
            9, 10, 11, 12, 5, 6, 7, 8, 1, 2, 3, 4, //
            21, 22, 23, 24, 17, 18, 19, 20, 13, 14, 15, 16,
        ]
    );
}

#[test]
fn mirroring_a_single_column_changes_nothing() {
    let frame = Frame::new(1, 2, vec![1, 2, 3, 4, 5, 6, 7, 8]).expect("two pixels");
    assert_eq!(frame.clone().mirrored(), frame);
}

#[test]
fn mirroring_twice_gives_the_frame_back() {
    let pixels: Vec<u8> = (0..4 * 5 * 3).map(|i| (i * 7 % 251) as u8).collect();
    let frame = Frame::new(5, 3, pixels.clone()).expect("fifteen pixels");
    let once = frame.clone().mirrored();
    assert_ne!(once, frame);
    assert_eq!(once.pixels().len(), pixels.len());
    let twice = once.mirrored();
    assert_eq!((twice.width(), twice.height()), (5, 3));
    assert_eq!(twice.into_raw(), pixels);
}

#[test]
fn rgba_bytes_decode_to_themselves() {
    let raw = RawFrame { width: 1, height: 2, format: PixelFormat::Rgba, data: vec![1, 2, 3, 4, 5, 6, 7, 8] };
    let frame = decode_frame(&raw).expect("two pixels");
    assert_eq!((frame.width(), frame.height()), (1, 2));
    assert_eq!(frame.into_raw(), vec![1, 2, 3, 4, 5, 6, 7, 8]);
}

#[test]
fn rgba_bytes_of_the_wrong_size_do_not_decode() {
    let raw = RawFrame { width: 2, height: 2, format: PixelFormat::Rgba, data: vec![1, 2, 3, 4] };
    assert_eq!(decode_frame(&raw), Err(CameraError::FramePollError));
}

#[test]
fn gray_bytes_decode_to_opaque_gray_pixels() {
    let frame = decode_frame(&source(2, 1, SourceFormat::Gray, vec![10, 200])).expect("two pixels");
    assert_eq!((frame.width(), frame.height()), (2, 1));
    assert_eq!(frame.into_raw(), vec![10, 10, 10, 255, 200, 200, 200, 255]);
}

#[test]
fn rgb_bytes_decode_with_an_opaque_alpha() {
    let frame = decode_frame(&source(1, 2, SourceFormat::RawRgb, vec![1, 2, 3, 4, 5, 6])).expect("two pixels");
    assert_eq!(frame.into_raw(), vec![1, 2, 3, 255, 4, 5, 6, 255]);
}

#[test]
fn bgr_bytes_decode_with_red_and_blue_exchanged() {
    let frame = decode_frame(&source(2, 1, SourceFormat::RawBgr, vec![1, 2, 3, 4, 5, 6])).expect("two pixels");
    assert_eq!(frame.into_raw(), vec![3, 2, 1, 255, 6, 5, 4, 255]);
}

#[test]
fn yuyv_bytes_decode_two_pixels_from_four_bytes() {
    let frame = decode_frame(&source(2, 1, SourceFormat::Yuyv, vec![16, 128, 235, 128])).expect("two pixels");
    assert_eq!(frame.into_raw(), vec![0, 0, 0, 255, 255, 255, 255, 255]);
}

#[test]
fn nv12_bytes_decode_with_shared_chroma() {
    let frame =
        decode_frame(&source(2, 2, SourceFormat::Nv12, vec![16, 235, 235, 16, 128, 128])).expect("four pixels");
    assert_eq!((frame.width(), frame.height()), (2, 2));
    assert_eq!(
        frame.into_raw(),
        vec![0, 0, 0, 255, 255, 255, 255, 255, 255, 255, 255, 255, 0, 0, 0, 255]
    );
}

#[test]
fn a_buffer_too_short_for_its_grid_does_not_decode() {
    assert_eq!(decode_frame(&source(2, 2, SourceFormat::Gray, vec![1, 2, 3])), Err(CameraError::FramePollError));
    assert_eq!(decode_frame(&source(2, 1, SourceFormat::Yuyv, vec![16, 128, 235])), Err(CameraError::FramePollError));
    assert_eq!(decode_frame(&source(2, 2, SourceFormat::Nv12, vec![16, 235, 235])), Err(CameraError::FramePollError));
    assert_eq!(decode_frame(&source(3, 3, SourceFormat::Nv12, vec![0; 13])), Err(CameraError::FramePollError));
}

#[test]
fn a_buffer_too_long_for_its_grid_does_not_decode() {
    assert_eq!(decode_frame(&source(1, 1, SourceFormat::Gray, vec![1, 2])), Err(CameraError::FramePollError));
    assert_eq!(
        decode_frame(&source(1, 1, SourceFormat::RawRgb, vec![1, 2, 3, 4, 5, 6])),
        Err(CameraError::FramePollError)
    );
}

#[test]
fn a_planar_buffer_without_width_or_beyond_the_size_limit_does_not_decode() {
    assert_eq!(decode_frame(&source(0, 2, SourceFormat::Nv12, Vec::new())), Err(CameraError::FramePollError));
    assert_eq!(
        decode_frame(&source(65536, 65536, SourceFormat::Nv12, Vec::new())),
        Err(CameraError::FramePollError)
    );
    assert_eq!(
        decode_frame(&source(32768, 32768, SourceFormat::Nv12, Vec::new())),
        Err(CameraError::FramePollError)
    );
}

#[test]
fn a_row_too_wide_for_the_decoder_does_not_decode() {
    for format in [
        SourceFormat::Nv12,
        SourceFormat::Gray,
        SourceFormat::Yuyv,
        SourceFormat::RawRgb,
        SourceFormat::RawBgr,
    ] {
        assert_eq!(decode_frame(&source(0x4000_0000, 0, format, Vec::new())), Err(CameraError::FramePollError));
        assert_eq!(decode_frame(&source(u32::MAX, 0, format, Vec::new())), Err(CameraError::FramePollError));
    }
    let widest = decode_frame(&source(0x3fff_ffff, 0, SourceFormat::Gray, Vec::new())).expect("no pixels");
    assert_eq!((widest.width(), widest.height()), (0x3fff_ffff, 0));
    assert!(Frame::new(0x4000_0000, 0, Vec::new()).is_some());
}

#[test]
fn bytes_after_the_last_whole_pixel_are_dropped() {
    let frame =
        decode_frame(&source(2, 1, SourceFormat::RawBgr, vec![1, 2, 3, 4, 5, 6, 9])).expect("two pixels");
    assert_eq!(frame.into_raw(), vec![3, 2, 1, 255, 6, 5, 4, 255]);
    let frame = decode_frame(&source(1, 1, SourceFormat::RawRgb, vec![1, 2, 3, 9, 9])).expect("one pixel");
    assert_eq!(frame.into_raw(), vec![1, 2, 3, 255]);
}

#[test]
fn an_empty_gray_buffer_decodes_to_an_empty_frame() {
    let frame = decode_frame(&source(0, 0, SourceFormat::Gray, Vec::new())).expect("no pixels");
    assert_eq!((frame.width(), frame.height()), (0, 0));
    assert!(frame.pixels().is_empty());
}

#[test]
fn what_a_decoder_returned_becomes_a_frame_only_at_the_right_size() {
    assert_eq!(frame_of_decoded(1, 1, None), Err(CameraError::FramePollError));
    assert_eq!(frame_of_decoded(1, 1, Some(vec![1, 2, 3])), Err(CameraError::FramePollError));
    assert_eq!(frame_of_decoded(1, 1, Some(vec![1, 2, 3, 4, 5])), Err(CameraError::FramePollError));
    let frame = frame_of_decoded(1, 1, Some(vec![1, 2, 3, 4])).expect("one pixel");
    assert_eq!(frame.into_raw(), vec![1, 2, 3, 4]);
}

#[test]
fn the_feed_asks_for_a_capture_on_a_tick() {
    let mut feed = CameraFeed::new(false);
    assert_eq!(feed.update(CameraMessage::CaptureFrame), FeedAction::Capture);
    assert_eq!(feed.current_frame(), None);
}

#[test]
fn the_feed_keeps_the_newest_frame() {
    let mut feed = CameraFeed::new(false);
    let first = Frame::new(1, 1, vec![1, 2, 3, 4]).expect("one pixel");
    let second = Frame::new(1, 1, vec![5, 6, 7, 8]).expect("one pixel");
    assert_eq!(feed.update(CameraMessage::NewFrame(first.clone())), FeedAction::Present);
    assert_eq!(feed.current_frame(), Some(&first));
    assert_eq!(feed.update(CameraMessage::CaptureFrame), FeedAction::Capture);
    assert_eq!(feed.current_frame(), Some(&first));
    assert_eq!(feed.update(CameraMessage::NewFrame(second.clone())), FeedAction::Present);
    assert_eq!(feed.current_frame(), Some(&second));
}

#[test]
fn the_feed_decodes_without_mirroring_whatever_the_flag() {
    let raw = source(2, 1, SourceFormat::Gray, vec![10, 200]);
    let plain = CameraFeed::new(false);
    assert!(!plain.mirror());
    let frame = plain.frame(&raw).expect("two pixels");
    assert_eq!((frame.width(), frame.height()), (2, 1));
    assert_eq!(frame.into_raw(), vec![10, 10, 10, 255, 200, 200, 200, 255]);
    let mirroring = CameraFeed::new(true);
    assert!(mirroring.mirror());
    let frame = mirroring.frame(&raw).expect("two pixels");
    assert_eq!((frame.width(), frame.height()), (2, 1));
    assert_eq!(frame.into_raw(), vec![10, 10, 10, 255, 200, 200, 200, 255]);
}

#[test]
fn the_feed_decodes_as_the_decoder_does() {
    let rgba = RawFrame { width: 2, height: 1, format: PixelFormat::Rgba, data: vec![1, 2, 3, 4, 5, 6, 7, 8] };
    for raw in [rgba, source(2, 1, SourceFormat::Yuyv, vec![16, 128, 235, 128]), source(2, 2, SourceFormat::Gray, vec![1])] {
        assert_eq!(CameraFeed::new(true).frame(&raw), decode_frame(&raw));
        assert_eq!(CameraFeed::new(false).frame(&raw), decode_frame(&raw));
    }
}

#[test]
fn the_feed_mirrors_what_it_presents_where_mirroring_is_on() {
    let picture = Frame::new(2, 1, vec![1, 2, 3, 4, 5, 6, 7, 8]).expect("two pixels");
    let mut feed = CameraFeed::new(false);
    assert_eq!(feed.present(picture.clone()), picture);
    feed.set_mirror(true);
    let shown = feed.present(picture.clone());
    assert_eq!((shown.width(), shown.height()), (2, 1));
    assert_eq!(shown.into_raw(), vec![5, 6, 7, 8, 1, 2, 3, 4]);
    assert_eq!(feed.current_frame(), None);
}

#[test]
fn decoding_then_presenting_mirrors_a_camera_buffer() {
    let feed = CameraFeed::new(true);
    let decoded = feed.frame(&source(2, 1, SourceFormat::Gray, vec![10, 200])).expect("two pixels");
    assert_eq!(feed.present(decoded).into_raw(), vec![200, 200, 200, 255, 10, 10, 10, 255]);
}

#[test]
fn the_feed_reports_a_buffer_that_does_not_decode() {
    let mut feed = CameraFeed::new(true);
    let kept = Frame::new(1, 1, vec![1, 2, 3, 4]).expect("one pixel");
    feed.update(CameraMessage::NewFrame(kept.clone()));
    assert_eq!(feed.frame(&source(2, 2, SourceFormat::Gray, vec![1])), Err(CameraError::FramePollError));
    assert_eq!(feed.current_frame(), Some(&kept));
}
