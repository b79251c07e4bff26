use avcore::demuxer::{Demuxer, DemuxerBuilder, InputFormat, SeekTarget, SeekType};
use avcore::error::Error;
use avcore::packet::Packet;
use avcore::stream::{CodecParameters, Discard, Stream};
use avcore::time::{TimeBase, Timestamp};

fn stream(index: usize, num: u32, den: u32, fps: (u32, u32)) -> Stream {
    Stream {
        index,
        time_base: TimeBase::new(num, den),
        frame_rate_guess: None,
        raw_frame_rate: fps,
        start_time_ticks: 0,
        duration_ticks: 0,
        frame_count: 0,
        discard: Discard::Standard,
        codec_parameters: CodecParameters::from_raw(Vec::new()),
        metadata: Vec::new(),
    }
}

fn packet(stream_index: usize, ticks: i64, den: u32, key: bool, position: u64) -> Packet {
    Packet::new(
        stream_index,
        Timestamp::new(ticks, TimeBase::new(1, den)),
        key,
        position,
        Vec::new(),
    )
}

/// A two-stream container: stream 0 in 1/1000, stream 1 in 1/90000,
/// interleaved, non-decreasing in microseconds and position.
fn two_stream_container() -> Demuxer {
    let streams = vec![stream(0, 1, 1000, (25, 1)), stream(1, 1, 90000, (30, 1))];
    let packets = vec![
        packet(0, 0, 1000, true, 0),
        packet(1, 0, 90000, true, 100),
        packet(0, 40, 1000, false, 200),
        packet(1, 4500, 90000, false, 300),
        packet(0, 80, 1000, true, 400),
        packet(1, 9000, 90000, true, 500),
        packet(0, 120, 1000, false, 600),
    ];
    DemuxerBuilder::new()
        .build(streams, packets, vec![("title".to_string(), "example".to_string())])
        .unwrap()
}

#[test]
fn build_rejects_invalid_containers() {
    // a packet referring to a stream the container does not have
    let r = DemuxerBuilder::new().build(
        vec![stream(0, 1, 1000, (25, 1))],
        vec![packet(1, 0, 1000, true, 0)],
        Vec::new(),
    );
    assert_eq!(r.unwrap_err(), Error::InvalidData);

    // a packet whose time base is not its stream's
    let r = DemuxerBuilder::new().build(
        vec![stream(0, 1, 1000, (25, 1))],
        vec![packet(0, 0, 90000, true, 0)],
        Vec::new(),
    );
    assert_eq!(r.unwrap_err(), Error::InvalidData);

    // packets out of presentation order
    let r = DemuxerBuilder::new().build(
        vec![stream(0, 1, 1000, (25, 1))],
        vec![packet(0, 50, 1000, true, 0), packet(0, 10, 1000, false, 100)],
        Vec::new(),
    );
    assert_eq!(r.unwrap_err(), Error::InvalidData);

    // a null packet timestamp
    let r = DemuxerBuilder::new().build(
        vec![stream(0, 1, 1000, (25, 1))],
        vec![Packet::new(
            0,
            Timestamp::new(i64::MIN, TimeBase::new(1, 1000)),
            true,
            0,
            Vec::new(),
        )],
        Vec::new(),
    );
    assert_eq!(r.unwrap_err(), Error::InvalidData);

    // a stream at the wrong index
    let r = DemuxerBuilder::new().build(vec![stream(3, 1, 1000, (25, 1))], Vec::new(), Vec::new());
    assert_eq!(r.unwrap_err(), Error::InvalidData);
}

#[test]
fn take_yields_packets_in_container_order() {
    let mut d = two_stream_container();
    let p = d.take().unwrap().unwrap();
    assert_eq!(p.stream_index(), 0);
    assert_eq!(p.pts().timestamp(), 0);
    let p = d.take().unwrap().unwrap();
    assert_eq!(p.stream_index(), 1);
    let mut count = 2;
    while let Some(_) = d.take().unwrap() {
        count += 1;
    }
    assert_eq!(count, 7);
    // end of stream is a sentinel, not an error, and it is sticky
    assert_eq!(d.take().unwrap().map(|p| p.stream_index()), None);
}

#[test]
fn restricting_to_stream_zero_yields_only_its_packets() {
    let mut d = two_stream_container();
    d.read_single_stream(0);
    let mut seen = 0;
    while let Some(p) = d.take().unwrap() {
        assert_eq!(p.stream_index(), 0);
        seen += 1;
    }
    assert_eq!(seen, 4);
}

#[test]
fn enable_streams_filters_the_rest() {
    let mut d = two_stream_container();
    d.enable_streams(&[1]);
    let mut seen = 0;
    while let Some(p) = d.take().unwrap() {
        assert_eq!(p.stream_index(), 1);
        seen += 1;
    }
    assert_eq!(seen, 3);
}

#[test]
fn read_all_streams_resets_the_filters() {
    let mut d = two_stream_container();
    d.read_single_stream(0);
    d.read_all_streams();
    let mut seen = 0;
    while let Some(_) = d.take().unwrap() {
        seen += 1;
    }
    assert_eq!(seen, 7);
}

#[test]
fn nonkey_discard_keeps_only_keyframes() {
    let mut d = two_stream_container();
    for s in d.streams.iter_mut() {
        s.set_discard(Discard::NonKey);
    }
    let mut seen = 0;
    while let Some(p) = d.take().unwrap() {
        assert!(p.is_key());
        seen += 1;
    }
    assert_eq!(seen, 4);
}

#[test]
fn seek_at_or_after_never_yields_an_earlier_packet() {
    let mut d = two_stream_container();
    // seek at-or-after 50 ms
    let target = Timestamp::new(50, TimeBase::new(1, 1000));
    d.seek_to_timestamp(&target, SeekTarget::From).unwrap();
    let p = d.take().unwrap().unwrap();
    let micros = p.pts().as_micros().unwrap();
    assert!(micros >= 50_000);
    // the forward seek snaps to a keyframe
    assert!(p.is_key());
    assert_eq!(p.pts().timestamp(), 80);
}

#[test]
fn seek_up_to_lands_at_or_before_the_target() {
    let mut d = two_stream_container();
    let target = Timestamp::new(70, TimeBase::new(1, 1000));
    d.seek_to_timestamp(&target, SeekTarget::UpTo).unwrap();
    let p = d.take().unwrap().unwrap();
    assert!(p.is_key());
    assert!(p.pts().as_micros().unwrap() <= 70_000);
}

#[test]
fn precise_seek_ignores_keyframes() {
    let mut d = two_stream_container();
    let target = Timestamp::new(45, TimeBase::new(1, 1000));
    d.seek_to_timestamp(&target, SeekTarget::Precise).unwrap();
    let p = d.take().unwrap().unwrap();
    // the first packet at or after 45 ms is stream 1 at 4500/90000 s
    assert_eq!(p.stream_index(), 1);
    assert_eq!(p.pts().timestamp(), 4500);
    assert!(!p.is_key());
}

#[test]
fn seeking_to_a_null_timestamp_fails() {
    let mut d = two_stream_container();
    assert_eq!(
        d.seek_to_timestamp(&Timestamp::null(), SeekTarget::From).unwrap_err(),
        Error::NullTimestamp
    );
}

#[test]
fn byte_and_frame_seeks() {
    let mut d = two_stream_container();
    d.seek_to_byte(250).unwrap();
    let p = d.take().unwrap().unwrap();
    assert_eq!(p.position(), 300);

    d.seek_to_frame(5, SeekTarget::From).unwrap();
    let p = d.take().unwrap().unwrap();
    assert_eq!(p.position(), 500);
}

#[test]
fn duration_is_the_last_packet_time() {
    let d = two_stream_container();
    let duration = d.duration();
    assert_eq!(duration.time_base(), TimeBase::new(1, 1000000));
    assert_eq!(duration.timestamp(), 120_000);

    let empty = DemuxerBuilder::new().build(Vec::new(), Vec::new(), Vec::new()).unwrap();
    assert!(empty.duration().is_null());
}

#[test]
fn metadata_and_options() {
    let mut d = two_stream_container();
    assert_eq!(d.get_metadata("title"), Some("example".to_string()));
    assert_eq!(d.get_metadata("artist"), None);
    d.set_option("analyzeduration", "1000").unwrap();

    let b = DemuxerBuilder::new()
        .set_option("probesize", "2048")
        .input_format(Some(InputFormat::with_name("matroska")));
    assert_eq!(b.input_format.as_ref().unwrap().name(), "matroska");
}

#[test]
fn stream_metadata_shadows_older_entries() {
    let mut s = stream(0, 1, 1000, (25, 1));
    assert_eq!(s.get_metadata("language"), None);
    s.set_metadata("language", "eng");
    s.set_metadata("language", "ger");
    assert_eq!(s.get_metadata("language"), Some("ger".to_string()));
}

#[test]
fn guess_frame_rate_checks_the_index() {
    let d = two_stream_container();
    assert_eq!(d.guess_frame_rate(0).unwrap(), TimeBase::new(25, 1));
    assert_eq!(d.guess_frame_rate(9).unwrap_err(), Error::InvalidStreamIndex);
}

#[test]
fn build_fills_in_frame_rate_guesses() {
    let d = two_stream_container();
    assert_eq!(d.streams()[0].frame_rate_guess(), Some(TimeBase::new(25, 1)));
    assert_eq!(d.streams()[1].frame_rate_guess(), Some(TimeBase::new(30, 1)));
    // a zero raw denominator falls back to one
    let d2 = DemuxerBuilder::new()
        .build(vec![stream(0, 1, 1000, (24, 0))], Vec::new(), Vec::new())
        .unwrap();
    assert_eq!(d2.streams()[0].frame_rate_guess(), Some(TimeBase::new(24, 1)));
    // a zero raw numerator yields no guess
    let d3 = DemuxerBuilder::new()
        .build(vec![stream(0, 1, 1000, (0, 1))], Vec::new(), Vec::new())
        .unwrap();
    assert_eq!(d3.streams()[0].frame_rate_guess(), None);
}

#[test]
fn find_stream_info_learns_per_stream_timing() {
    let d = two_stream_container();
    let info = d.find_stream_info(None).unwrap();
    let streams = info.streams();
    assert_eq!(streams[0].frames(), Some(4));
    assert_eq!(streams[0].start_time().timestamp(), 0);
    assert_eq!(streams[0].duration().timestamp(), 120);
    assert_eq!(streams[1].frames(), Some(3));
    assert_eq!(streams[1].duration().timestamp(), 9000);
}

#[test]
fn find_stream_info_honours_the_analysis_bound() {
    let d = two_stream_container();
    // only packets within 50 ms of the first packet are analyzed
    let info = d.find_stream_info(Some(50_000)).unwrap();
    assert_eq!(info.streams()[0].frames(), Some(2));
    assert_eq!(info.streams()[1].frames(), Some(2));
    // a zero bound means unbounded
    let d = two_stream_container();
    let info = d.find_stream_info(Some(0)).unwrap();
    assert_eq!(info.streams()[0].frames(), Some(4));
}

#[test]
fn basic_stream_info_wraps_without_analysis() {
    let d = two_stream_container();
    let info = d.with_basic_stream_info().unwrap();
    assert_eq!(info.streams().len(), 2);
    assert_eq!(info.streams()[0].frames(), None);
    let mut d = info.into_demuxer();
    assert!(d.take().unwrap().is_some());
}

#[test]
fn stream_info_wrapper_reads_and_restricts() {
    let d = two_stream_container();
    let mut info = d.find_stream_info(None).unwrap();
    info.read_single_stream(1);
    while let Some(p) = info.take().unwrap() {
        assert_eq!(p.stream_index(), 1);
    }
    info.read_all_streams();
    assert_eq!(info.get_metadata("title"), Some("example".to_string()));
    info.demuxer_mut().seek_to_byte(0).unwrap();
    assert!(info.demuxer().streams().len() == 2);
}

#[test]
fn raw_seek_codes() {
    assert_eq!(SeekType::Time.into_raw(), 0);
    assert_eq!(SeekType::Byte.into_raw(), 1);
    assert_eq!(SeekType::Frame.into_raw(), 2);
    assert_eq!(SeekTarget::From.into_raw(), 0);
    assert_eq!(SeekTarget::UpTo.into_raw(), 1);
    assert_eq!(SeekTarget::Precise.into_raw(), 2);
}

#[test]
fn raw_discard_codes() {
    assert_eq!(Discard::Nothing.into_raw(), -16);
    assert_eq!(Discard::Standard.into_raw(), 0);
    assert_eq!(Discard::NonRef.into_raw(), 8);
    assert_eq!(Discard::BiDir.into_raw(), 16);
    assert_eq!(Discard::NonIntra.into_raw(), 24);
    assert_eq!(Discard::NonKey.into_raw(), 32);
    assert_eq!(Discard::All.into_raw(), 48);
}

#[test]
fn stream_accessors() {
    let s = stream(1, 1, 90000, (30, 1));
    assert_eq!(s.index(), 1);
    assert_eq!(s.time_base(), TimeBase::new(1, 90000));
    assert_eq!(s.r_frame_rate(), TimeBase::new(30, 1));
    assert!(s.start_time().timestamp() == 0);
    assert_eq!(s.codec_parameters().raw().len(), 0);
    let s0 = stream(0, 1, 1000, (24, 0));
    assert_eq!(s0.r_frame_rate(), TimeBase::new(24, 1));
}
