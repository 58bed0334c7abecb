use tabcast::format::{FormatOffer, Framerate, NegotiatedFormat, PixelFormat, RawVideoInfo, Resolution};
use tabcast::negotiation::{
    negotiate, read, Action, Event, FormatPayload, MediaSubtype, MediaType, NegotiationError,
    Negotiator, ParamKind, Phase, Reading, TimedEvent, DEFAULT_WAIT_MS,
};
use tabcast::session::TransportTarget;

fn target() -> TransportTarget {
    TransportTarget { fd: 7, node_id: 42 }
}

fn raw(format: PixelFormat, width: u32, height: u32, num: u32, denom: u32) -> RawVideoInfo {
    RawVideoInfo {
        format: Some(format),
        size: Resolution { width, height },
        framerate: Framerate { num, denom },
    }
}

fn format_event(at_ms: u64, info: RawVideoInfo) -> TimedEvent {
    TimedEvent {
        at_ms,
        event: Event::ParamChanged {
            kind: ParamKind::Format,
            payload: Some(FormatPayload {
                media: Some((MediaType::Video, MediaSubtype::Raw)),
                raw_video: Some(info),
            }),
        },
    }
}

fn event_with(at_ms: u64, kind: ParamKind, payload: Option<FormatPayload>) -> TimedEvent {
    TimedEvent { at_ms, event: Event::ParamChanged { kind, payload } }
}

fn tick(at_ms: u64) -> TimedEvent {
    TimedEvent { at_ms, event: Event::Tick }
}

fn rgba_1080p30() -> NegotiatedFormat {
    NegotiatedFormat {
        format: PixelFormat::Rgba,
        size: Resolution { width: 1920, height: 1080 },
        framerate: Framerate { num: 30, denom: 1 },
    }
}

fn two_format_offer() -> FormatOffer {
    FormatOffer::new(
        vec![PixelFormat::Rgb, PixelFormat::Rgba],
        Resolution { width: 1, height: 1 },
        Resolution { width: 4096, height: 4096 },
        Resolution { width: 320, height: 240 },
        Framerate { num: 0, denom: 1 },
        Framerate { num: 1000, denom: 1 },
        Framerate { num: 25, denom: 1 },
    )
    .expect("a valid offer")
}

#[test]
fn source_that_supports_only_rgba_1080p30_settles_on_it() {
    let events = vec![format_event(10, raw(PixelFormat::Rgba, 1920, 1080, 30, 1))];
    let result = negotiate(target(), two_format_offer(), 0, DEFAULT_WAIT_MS, &events);
    assert_eq!(result, Ok(rgba_1080p30()));
}

#[test]
fn negotiation_without_events_times_out() {
    let events: Vec<TimedEvent> = vec![];
    let result = negotiate(target(), FormatOffer::default_offer(), 0, 1000, &events);
    assert_eq!(result, Err(NegotiationError::Timeout));
}

#[test]
fn undecodable_raw_video_fails_the_negotiation() {
    let broken = event_with(
        5,
        ParamKind::Format,
        Some(FormatPayload { media: Some((MediaType::Video, MediaSubtype::Raw)), raw_video: None }),
    );
    let events = vec![broken, format_event(6, raw(PixelFormat::Rgba, 1920, 1080, 30, 1))];
    let result = negotiate(target(), FormatOffer::default_offer(), 0, 1000, &events);
    assert_eq!(result, Err(NegotiationError::ParseFailed));
}

#[test]
fn notifications_of_other_parameters_are_skipped() {
    let good = raw(PixelFormat::Rgba, 1920, 1080, 30, 1);
    let payload =
        FormatPayload { media: Some((MediaType::Video, MediaSubtype::Raw)), raw_video: Some(good) };
    let events = vec![
        event_with(1, ParamKind::Other, Some(payload)),
        event_with(2, ParamKind::EnumFormat, Some(payload)),
        event_with(3, ParamKind::Other, None),
    ];
    let result = negotiate(target(), FormatOffer::default_offer(), 0, 1000, &events);
    assert_eq!(result, Err(NegotiationError::Timeout));
}

#[test]
fn non_video_and_non_raw_notifications_never_complete() {
    let good = raw(PixelFormat::Rgba, 1920, 1080, 30, 1);
    let medias = [
        Some((MediaType::Audio, MediaSubtype::Raw)),
        Some((MediaType::Other, MediaSubtype::Raw)),
        Some((MediaType::Video, MediaSubtype::Other)),
        Some((MediaType::Audio, MediaSubtype::Other)),
        None,
    ];
    for media in medias {
        for raw_video in [Some(good), None] {
            let mut negotiator =
                Negotiator::submit(target(), FormatOffer::default_offer(), 0, 1000);
            let event = event_with(1, ParamKind::Format, Some(FormatPayload { media, raw_video }));
            assert_eq!(negotiator.step(&event), Action::Wait);
            assert_eq!(negotiator.phase(), Phase::Waiting);
            assert_eq!(negotiator.format(), None);
        }
    }
}

#[test]
fn notification_without_an_object_is_skipped() {
    let mut negotiator = Negotiator::submit(target(), FormatOffer::default_offer(), 0, 1000);
    assert_eq!(negotiator.step(&event_with(1, ParamKind::Format, None)), Action::Wait);
    assert_eq!(negotiator.phase(), Phase::Waiting);
}

#[test]
fn skipped_notifications_do_not_hinder_a_later_match() {
    let good = raw(PixelFormat::Rgba, 1920, 1080, 30, 1);
    let events = vec![
        event_with(1, ParamKind::Other, None),
        event_with(
            2,
            ParamKind::Format,
            Some(FormatPayload {
                media: Some((MediaType::Audio, MediaSubtype::Raw)),
                raw_video: None,
            }),
        ),
        tick(3),
        format_event(4, good),
    ];
    let result = negotiate(target(), FormatOffer::default_offer(), 0, 1000, &events);
    assert_eq!(result, Ok(rgba_1080p30()));
}

#[test]
fn announcement_outside_the_offer_is_not_adopted() {
    let events = vec![
        format_event(1, raw(PixelFormat::Yuy2, 1920, 1080, 30, 1)),
        format_event(2, raw(PixelFormat::Rgba, 8192, 1080, 30, 1)),
        format_event(3, raw(PixelFormat::Rgba, 1920, 1080, 2000, 1)),
        format_event(4, raw(PixelFormat::Rgba, 1920, 1080, 30, 0)),
    ];
    let result = negotiate(target(), two_format_offer(), 0, 1000, &events);
    assert_eq!(result, Err(NegotiationError::Timeout));
}

#[test]
fn announcement_outside_the_offer_leaves_room_for_one_inside() {
    let events = vec![
        format_event(1, raw(PixelFormat::Yuy2, 1920, 1080, 30, 1)),
        format_event(2, raw(PixelFormat::Rgba, 1920, 1080, 30, 1)),
    ];
    let result = negotiate(target(), two_format_offer(), 0, 1000, &events);
    assert_eq!(result, Ok(rgba_1080p30()));
}

#[test]
fn match_at_the_deadline_counts_and_after_it_does_not() {
    let good = raw(PixelFormat::Rgba, 1920, 1080, 30, 1);
    let on_time = vec![format_event(1100, good)];
    assert_eq!(
        negotiate(target(), FormatOffer::default_offer(), 100, 1000, &on_time),
        Ok(rgba_1080p30())
    );
    let late = vec![format_event(1101, good)];
    assert_eq!(
        negotiate(target(), FormatOffer::default_offer(), 100, 1000, &late),
        Err(NegotiationError::Timeout)
    );
}

#[test]
fn tick_after_the_deadline_times_out() {
    let mut negotiator = Negotiator::submit(target(), FormatOffer::default_offer(), 100, 1000);
    assert_eq!(negotiator.deadline_ms(), 1100);
    assert_eq!(negotiator.step(&tick(1100)), Action::Wait);
    assert_eq!(negotiator.step(&tick(1101)), Action::Fail(NegotiationError::Timeout));
    assert_eq!(negotiator.phase(), Phase::Failed(NegotiationError::Timeout));
    let good = raw(PixelFormat::Rgba, 1920, 1080, 30, 1);
    assert_eq!(negotiator.step(&format_event(5, good)), Action::Idle);
    assert_eq!(negotiator.finish(), Err(NegotiationError::Timeout));
}

#[test]
fn deadline_stops_at_the_end_of_the_clock() {
    let negotiator = Negotiator::submit(target(), FormatOffer::default_offer(), u64::MAX - 5, 10);
    assert_eq!(negotiator.deadline_ms(), u64::MAX);
    let exact = Negotiator::submit(target(), FormatOffer::default_offer(), u64::MAX - 5, 5);
    assert_eq!(exact.deadline_ms(), u64::MAX);
    let inside = Negotiator::submit(target(), FormatOffer::default_offer(), 5, 7);
    assert_eq!(inside.deadline_ms(), 12);
}

#[test]
fn completion_is_signalled_exactly_once() {
    let mut negotiator = Negotiator::submit(target(), two_format_offer(), 0, 1000);
    let first = raw(PixelFormat::Rgba, 1920, 1080, 30, 1);
    let second = raw(PixelFormat::Rgb, 640, 480, 25, 1);
    assert_eq!(negotiator.format(), None);
    assert_eq!(negotiator.step(&format_event(1, first)), Action::Complete(rgba_1080p30()));
    assert_eq!(negotiator.format(), Some(rgba_1080p30()));
    assert_eq!(negotiator.step(&format_event(2, second)), Action::Idle);
    assert_eq!(negotiator.step(&tick(5000)), Action::Idle);
    assert_eq!(negotiator.format(), Some(rgba_1080p30()));
    assert_eq!(negotiator.phase(), Phase::Completed(rgba_1080p30()));
    assert_eq!(negotiator.finish(), Ok(rgba_1080p30()));
}

#[test]
fn failure_is_final() {
    let mut negotiator = Negotiator::submit(target(), two_format_offer(), 0, 1000);
    let broken = event_with(
        1,
        ParamKind::Format,
        Some(FormatPayload { media: Some((MediaType::Video, MediaSubtype::Raw)), raw_video: None }),
    );
    assert_eq!(negotiator.step(&broken), Action::Fail(NegotiationError::ParseFailed));
    let good = raw(PixelFormat::Rgba, 1920, 1080, 30, 1);
    assert_eq!(negotiator.step(&format_event(2, good)), Action::Idle);
    assert_eq!(negotiator.format(), None);
    assert_eq!(negotiator.finish(), Err(NegotiationError::ParseFailed));
}

#[test]
fn negotiator_keeps_target_and_offer() {
    let negotiator = Negotiator::submit(target(), two_format_offer(), 3, DEFAULT_WAIT_MS);
    assert_eq!(negotiator.target(), target());
    assert_eq!(negotiator.offer().formats(), &vec![PixelFormat::Rgb, PixelFormat::Rgba]);
    assert_eq!(negotiator.deadline_ms(), 5003);
    assert_eq!(negotiator.phase(), Phase::Waiting);
}

#[test]
fn narrower_offer_can_be_negotiated_again() {
    let announcement = raw(PixelFormat::Rgb, 640, 480, 25, 1);
    let narrow = FormatOffer::new(
        vec![PixelFormat::Rgba],
        Resolution { width: 1, height: 1 },
        Resolution { width: 4096, height: 4096 },
        Resolution { width: 320, height: 240 },
        Framerate { num: 0, denom: 1 },
        Framerate { num: 1000, denom: 1 },
        Framerate { num: 25, denom: 1 },
    )
    .expect("a valid offer");
    let events = vec![format_event(1, announcement)];
    assert_eq!(negotiate(target(), narrow, 0, 1000, &events), Err(NegotiationError::Timeout));
    assert_eq!(
        negotiate(target(), two_format_offer(), 0, 1000, &events),
        Ok(NegotiatedFormat {
            format: PixelFormat::Rgb,
            size: Resolution { width: 640, height: 480 },
            framerate: Framerate { num: 25, denom: 1 },
        })
    );
}

#[test]
fn negotiation_error_messages() {
    assert_eq!(NegotiationError::ParseFailed.message(), "Parsing param failed");
    assert_eq!(NegotiationError::Timeout.message(), "No format was negotiated in time");
}

#[test]
fn reading_an_event() {
    let good = raw(PixelFormat::Rgba, 1920, 1080, 30, 1);
    assert_eq!(read(&tick(0).event), Reading::Skip);
    assert_eq!(read(&format_event(0, good).event), Reading::Announced(good));
    let undecodable = FormatPayload {
        media: Some((MediaType::Video, MediaSubtype::Raw)),
        raw_video: None,
    };
    assert_eq!(
        read(&event_with(0, ParamKind::Format, Some(undecodable)).event),
        Reading::Undecodable
    );
    assert_eq!(read(&event_with(0, ParamKind::Other, Some(undecodable)).event), Reading::Skip);
    let encoded = FormatPayload {
        media: Some((MediaType::Video, MediaSubtype::Other)),
        raw_video: Some(good),
    };
    assert_eq!(read(&event_with(0, ParamKind::Format, Some(encoded)).event), Reading::Skip);
}

#[test]
fn pending_events_are_taken_in_order_until_the_negotiation_ends() {
    let (sender, receiver) = async_channel::bounded::<TimedEvent>(8);
    let first = raw(PixelFormat::Rgba, 1920, 1080, 30, 1);
    let second = raw(PixelFormat::Rgb, 640, 480, 25, 1);
    sender.try_send(tick(1)).expect("room");
    sender.try_send(event_with(2, ParamKind::Other, None)).expect("room");
    sender.try_send(format_event(3, first)).expect("room");
    sender.try_send(format_event(4, second)).expect("room");
    let mut negotiator = Negotiator::submit(target(), two_format_offer(), 0, 1000);
    assert_eq!(negotiator.take_pending(&receiver, 16), Phase::Completed(rgba_1080p30()));
    assert_eq!(negotiator.format(), Some(rgba_1080p30()));
    assert_eq!(receiver.len(), 1);
    assert_eq!(receiver.try_recv(), Ok(format_event(4, second)));
}

#[test]
fn taking_from_an_empty_channel_changes_nothing() {
    let (sender, receiver) = async_channel::bounded::<TimedEvent>(8);
    let mut negotiator = Negotiator::submit(target(), two_format_offer(), 0, 1000);
    assert_eq!(negotiator.take_pending(&receiver, 16), Phase::Waiting);
    drop(sender);
    assert_eq!(negotiator.take_pending(&receiver, 16), Phase::Waiting);
    assert_eq!(negotiator.finish(), Err(NegotiationError::Timeout));
}

#[test]
fn no_more_pending_events_are_taken_than_the_limit() {
    let (sender, receiver) = async_channel::bounded::<TimedEvent>(8);
    let good = raw(PixelFormat::Rgba, 1920, 1080, 30, 1);
    sender.try_send(tick(1)).expect("room");
    sender.try_send(tick(2)).expect("room");
    sender.try_send(format_event(3, good)).expect("room");
    let mut negotiator = Negotiator::submit(target(), two_format_offer(), 0, 1000);
    assert_eq!(negotiator.take_pending(&receiver, 0), Phase::Waiting);
    assert_eq!(receiver.len(), 3);
    assert_eq!(negotiator.take_pending(&receiver, 2), Phase::Waiting);
    assert_eq!(receiver.len(), 1);
    assert_eq!(negotiator.take_pending(&receiver, 2), Phase::Completed(rgba_1080p30()));
    assert_eq!(receiver.len(), 0);
}

#[test]
fn pending_events_of_a_closed_channel_are_still_taken() {
    let (sender, receiver) = async_channel::bounded::<TimedEvent>(8);
    let undecodable = FormatPayload {
        media: Some((MediaType::Video, MediaSubtype::Raw)),
        raw_video: None,
    };
    sender.try_send(event_with(5, ParamKind::Format, Some(undecodable))).expect("room");
    drop(sender);
    let mut negotiator = Negotiator::submit(target(), two_format_offer(), 0, 1000);
    assert_eq!(
        negotiator.take_pending(&receiver, 16),
        Phase::Failed(NegotiationError::ParseFailed)
    );
}

#[test]
fn ended_negotiation_takes_no_pending_events() {
    let (sender, receiver) = async_channel::bounded::<TimedEvent>(8);
    let mut negotiator = Negotiator::submit(target(), two_format_offer(), 0, 10);
    assert_eq!(negotiator.step(&tick(11)), Action::Fail(NegotiationError::Timeout));
    sender.try_send(tick(12)).expect("room");
    assert_eq!(
        negotiator.take_pending(&receiver, 16),
        Phase::Failed(NegotiationError::Timeout)
    );
    assert_eq!(receiver.len(), 1);
}
