use avcore::frame::{PixelFormat, UnknownPixelFormat, VideoFrameMut};
use avcore::time::{TimeBase, Timestamp};

const YUV420: i32 = 0;

#[test]
fn black_frame_geometry_and_zeroed_planes() {
    let frame = VideoFrameMut::black(PixelFormat::from_raw(YUV420), 10, 2, 4);
    assert_eq!(frame.width(), 10);
    assert_eq!(frame.height(), 2);
    assert_eq!(frame.pixel_format(), PixelFormat::from_raw(YUV420));
    assert_eq!(frame.time_base(), TimeBase::new(1, 1000000));
    assert!(frame.pts().is_null());
    assert!(!frame.is_blank());
    assert_eq!(frame.planes().len(), 4);
    for plane in frame.planes().iter() {
        // width 10 rounded up to the alignment of 4
        assert_eq!(plane.line_size(), 12);
        assert_eq!(plane.line_count(), 2);
        assert_eq!(plane.data().len(), 24);
        assert!(plane.data().iter().all(|&b| b == 0));
    }
}

#[test]
fn alignment_zero_picks_a_default_and_one_avoids_padding() {
    let auto_aligned = VideoFrameMut::black(PixelFormat::from_raw(YUV420), 10, 1, 0);
    assert_eq!(auto_aligned.planes()[0].line_size(), 32);
    let tight = VideoFrameMut::black(PixelFormat::from_raw(YUV420), 10, 1, 1);
    assert_eq!(tight.planes()[0].line_size(), 10);
}

#[test]
fn write_line_and_read_it_back() {
    let mut frame = VideoFrameMut::black(PixelFormat::from_raw(YUV420), 4, 2, 1);
    let line = vec![1u8, 2, 3, 4];
    frame.plane_mut(0).write_line(1, &line);
    let plane = &frame.planes()[0];
    assert_eq!(plane.line(0).unwrap(), &[0u8, 0, 0, 0][..]);
    assert_eq!(plane.line(1).unwrap(), &[1u8, 2, 3, 4][..]);
    assert_eq!(plane.line(2), None);
    // the neighbouring plane is untouched
    assert!(frame.planes()[1].data().iter().all(|&b| b == 0));
}

#[test]
fn lines_cursor_walks_every_line() {
    let mut frame = VideoFrameMut::black(PixelFormat::from_raw(YUV420), 2, 2, 1);
    frame.plane_mut(0).write_line(0, &[7u8, 8]);
    frame.plane_mut(0).write_line(1, &[9u8, 10]);
    let mut lines = frame.planes()[0].lines();
    assert_eq!(lines.next(), Some(vec![7u8, 8]));
    assert_eq!(lines.next(), Some(vec![9u8, 10]));
    assert_eq!(lines.next(), None);
}

#[test]
fn with_time_base_rescales_pts_atomically() {
    let frame = VideoFrameMut::black(PixelFormat::from_raw(YUV420), 2, 2, 1)
        .with_pts(Timestamp::new(1_500_000, TimeBase::new(1, 1000000)))
        .with_time_base(TimeBase::new(1, 1000));
    assert_eq!(frame.time_base(), TimeBase::new(1, 1000));
    assert_eq!(frame.pts().timestamp(), 1500);
}

#[test]
fn freeze_retains_the_original_timestamp() {
    let frozen = VideoFrameMut::black(PixelFormat::from_raw(YUV420), 2, 2, 1)
        .with_pts(Timestamp::new(250, TimeBase::new(1, 1000000)))
        .freeze();
    assert_eq!(frozen.original_pts().timestamp(), 250);
    // re-basing the current timestamp leaves the original untouched
    let rebased = frozen.with_time_base(TimeBase::new(1, 1000));
    assert_eq!(rebased.pts().timestamp(), 0);
    assert_eq!(rebased.original_pts().timestamp(), 250);
    assert_eq!(rebased.original_pts().time_base(), TimeBase::new(1, 1000000));
}

#[test]
fn clone_of_an_immutable_frame_observes_the_same_bytes() {
    let mut mutable = VideoFrameMut::black(PixelFormat::from_raw(YUV420), 4, 2, 1);
    mutable.plane_mut(0).write_line(0, &[5u8, 6, 7, 8]);
    mutable.plane_mut(2).write_line(1, &[9u8, 9, 9, 9]);
    let frozen = mutable
        .with_pts(Timestamp::new(42, TimeBase::new(1, 1000000)))
        .freeze();
    let cloned = frozen.clone();
    // read-only access only: every plane, byte for byte
    for i in 0..4 {
        assert_eq!(cloned.planes()[i].data(), frozen.planes()[i].data());
        assert_eq!(cloned.planes()[i].line_size(), frozen.planes()[i].line_size());
        assert_eq!(cloned.planes()[i].line_count(), frozen.planes()[i].line_count());
    }
    assert_eq!(cloned.pts().timestamp(), frozen.pts().timestamp());
    assert_eq!(cloned.original_pts(), frozen.original_pts());
    assert_eq!(cloned.width(), frozen.width());
    assert_eq!(cloned.height(), frozen.height());
    assert_eq!(cloned.is_blank(), frozen.is_blank());
}

#[test]
fn blank_flag_is_caller_controlled() {
    let frame = VideoFrameMut::black(PixelFormat::from_raw(YUV420), 2, 2, 1).with_is_blank(true);
    assert!(frame.is_blank());
    assert!(frame.freeze().is_blank());
}

#[test]
fn frame_attribute_defaults() {
    let frame = VideoFrameMut::black(PixelFormat::from_raw(YUV420), 2, 2, 1);
    assert_eq!(frame.duration(), 0);
    assert_eq!(frame.repeat(), 0);
    let frozen = frame.freeze();
    assert_eq!(frozen.duration().timestamp(), 0);
    assert_eq!(frozen.repeat(), 0);
    assert_eq!(frozen.colorspace(), 0);
    assert_eq!(frozen.color_transfer_characteristic(), 0);
    assert_eq!(frozen.color_primaries(), 0);
}

#[test]
fn pixel_format_round_trip_and_error_message() {
    let fmt = PixelFormat::from_raw(23);
    assert_eq!(fmt.into_raw(), 23);
    assert_eq!(UnknownPixelFormat.message(), "unknown pixel format");
}
