use mpv::{
    to_event, DecodeError, Double, Error, Event, EventData, Format, MpvEndFileReason, MpvEventId,
    MpvLogLevel, NativeValue,
};

fn payloads() -> [EventData<'static, 'static, 'static>; 5] {
    [
        EventData::Absent,
        EventData::EndFile { reason: 4, error: -13 },
        EventData::EndFile { reason: 99, error: 99 },
        EventData::Property { name: None, format: 1, data: NativeValue::Absent },
        EventData::LogMessage { prefix: None, level: None, text: None, log_level: -5 },
    ]
}

#[test]
fn the_kind_none_gives_no_event() {
    for data in payloads() {
        for error in [0, -1, -99, 7] {
            for userdata in [0u64, 5, u64::MAX] {
                assert_eq!(to_event(MpvEventId::MPV_EVENT_NONE, error, userdata, data), Ok(None));
            }
        }
    }
}

#[test]
fn shutdown_is_shutdown_whatever_the_record_holds() {
    for data in payloads() {
        for error in [0, -1, -99, 7] {
            for userdata in [0u64, 5, u64::MAX] {
                assert_eq!(
                    to_event(MpvEventId::MPV_EVENT_SHUTDOWN, error, userdata, data),
                    Ok(Some(Event::Shutdown))
                );
            }
        }
    }
}

#[test]
fn plain_kinds_map_one_to_one() {
    let plain = [
        (MpvEventId::MPV_EVENT_SHUTDOWN, Event::Shutdown),
        (MpvEventId::MPV_EVENT_START_FILE, Event::StartFile),
        (MpvEventId::MPV_EVENT_FILE_LOADED, Event::FileLoaded),
        (MpvEventId::MPV_EVENT_TRACKS_CHANGED, Event::TracksChanged),
        (MpvEventId::MPV_EVENT_TRACK_SWITCHED, Event::TrackSwitched),
        (MpvEventId::MPV_EVENT_IDLE, Event::Idle),
        (MpvEventId::MPV_EVENT_PAUSE, Event::Pause),
        (MpvEventId::MPV_EVENT_UNPAUSE, Event::Unpause),
        (MpvEventId::MPV_EVENT_TICK, Event::Tick),
        (MpvEventId::MPV_EVENT_SCRIPT_INPUT_DISPATCH, Event::Unused),
        (MpvEventId::MPV_EVENT_VIDEO_RECONFIG, Event::VideoReconfig),
        (MpvEventId::MPV_EVENT_AUDIO_RECONFIG, Event::AudioReconfig),
        (MpvEventId::MPV_EVENT_METADATA_UPDATE, Event::MetadataUpdate),
        (MpvEventId::MPV_EVENT_SEEK, Event::Seek),
        (MpvEventId::MPV_EVENT_PLAYBACK_RESTART, Event::PlaybackRestart),
        (MpvEventId::MPV_EVENT_CHAPTER_CHANGE, Event::ChapterChange),
        (MpvEventId::MPV_EVENT_QUEUE_OVERFLOW, Event::QueueOverflow),
    ];
    for (kind, event) in plain {
        for data in payloads() {
            assert_eq!(to_event(kind, -99, 3, data), Ok(Some(event)));
            assert_eq!(to_event(kind, 0, 0, data), Ok(Some(event)));
        }
    }
}

#[test]
fn a_client_message_is_refused() {
    for data in payloads() {
        assert_eq!(
            to_event(MpvEventId::MPV_EVENT_CLIENT_MESSAGE, 0, 0, data),
            Err(DecodeError::UnsupportedClientMessage)
        );
    }
}

#[test]
fn every_kind_is_decoded_without_panic() {
    for code in 0..=24 {
        let kind = MpvEventId::from_i32(code).unwrap();
        for data in payloads() {
            let _ = to_event(kind, -1, 1, data);
            let _ = to_event(kind, 0, 1, data);
            let _ = to_event(kind, -999, 1, data);
        }
    }
}

#[test]
fn decodes_a_log_message() {
    let data = EventData::LogMessage {
        prefix: Some(b"cplayer\0"),
        level: Some(b"info\0"),
        text: Some(b"Playing: a.mkv\n\0"),
        log_level: 40,
    };
    assert_eq!(
        to_event(MpvEventId::MPV_EVENT_LOG_MESSAGE, 0, 0, data),
        Ok(Some(Event::LogMessage {
            prefix: "cplayer",
            level: "info",
            text: "Playing: a.mkv\n",
            log_level: MpvLogLevel::MPV_LOG_LEVEL_INFO,
        }))
    );
}

#[test]
fn a_log_message_with_a_broken_field_is_a_fault() {
    let good: Option<&[u8]> = Some(b"x\0");
    let kind = MpvEventId::MPV_EVENT_LOG_MESSAGE;
    let data = EventData::LogMessage { prefix: None, level: good, text: good, log_level: 40 };
    assert_eq!(to_event(kind, 0, 0, data), Err(DecodeError::NullPointer));
    let data =
        EventData::LogMessage { prefix: good, level: Some(b"\xff\0"), text: good, log_level: 40 };
    assert_eq!(to_event(kind, 0, 0, data), Err(DecodeError::InvalidUtf8));
    let data =
        EventData::LogMessage { prefix: good, level: good, text: Some(b"abc"), log_level: 40 };
    assert_eq!(to_event(kind, 0, 0, data), Err(DecodeError::Unterminated));
    let data = EventData::LogMessage { prefix: good, level: good, text: good, log_level: 45 };
    assert_eq!(to_event(kind, 0, 0, data), Err(DecodeError::UnknownLogLevel));
}

#[test]
fn a_payload_of_another_shape_is_a_fault() {
    let end = EventData::EndFile { reason: 0, error: 0 };
    let property =
        EventData::Property { name: Some(b"loop\0"), format: 4, data: NativeValue::Int64(2) };
    assert_eq!(
        to_event(MpvEventId::MPV_EVENT_LOG_MESSAGE, 0, 0, end),
        Err(DecodeError::WrongPayload)
    );
    assert_eq!(
        to_event(MpvEventId::MPV_EVENT_GET_PROPERTY_REPLY, 0, 0, end),
        Err(DecodeError::WrongPayload)
    );
    assert_eq!(
        to_event(MpvEventId::MPV_EVENT_PROPERTY_CHANGE, 0, 0, end),
        Err(DecodeError::WrongPayload)
    );
    assert_eq!(
        to_event(MpvEventId::MPV_EVENT_END_FILE, 0, 0, property),
        Err(DecodeError::WrongPayload)
    );
}

#[test]
fn a_missing_payload_is_a_fault() {
    for kind in [
        MpvEventId::MPV_EVENT_LOG_MESSAGE,
        MpvEventId::MPV_EVENT_GET_PROPERTY_REPLY,
        MpvEventId::MPV_EVENT_END_FILE,
        MpvEventId::MPV_EVENT_PROPERTY_CHANGE,
    ] {
        assert_eq!(to_event(kind, 0, 0, EventData::Absent), Err(DecodeError::NullPointer));
    }
}

#[test]
fn decodes_a_property_reply() {
    let data = EventData::Property { name: Some(b"loop\0"), format: 4, data: NativeValue::Int64(2) };
    assert_eq!(
        to_event(MpvEventId::MPV_EVENT_GET_PROPERTY_REPLY, 0, 17, data),
        Ok(Some(Event::GetPropertyReply {
            name: "loop",
            result: Ok(Format::Int(2)),
            reply_userdata: 17,
        }))
    );
    let data = EventData::Property {
        name: Some(b"speed\0"),
        format: 5,
        data: NativeValue::Double(1.0f64.to_bits()),
    };
    assert_eq!(
        to_event(MpvEventId::MPV_EVENT_GET_PROPERTY_REPLY, 0, 1, data),
        Ok(Some(Event::GetPropertyReply {
            name: "speed",
            result: Ok(Format::Double(Double::from_bits(1.0f64.to_bits()))),
            reply_userdata: 1,
        }))
    );
}

#[test]
fn a_failed_property_reply_does_not_look_at_the_data() {
    let members = [
        NativeValue::Absent,
        NativeValue::Text(None),
        NativeValue::Text(Some(b"\xff")),
        NativeValue::Flag(7),
        NativeValue::Int64(2),
    ];
    for member in members {
        for format in [0, 1, 3, 4, 77] {
            let data = EventData::Property { name: Some(b"loop\0"), format, data: member };
            assert_eq!(
                to_event(MpvEventId::MPV_EVENT_GET_PROPERTY_REPLY, -10, 9, data),
                Ok(Some(Event::GetPropertyReply {
                    name: "loop",
                    result: Err(Error::MPV_ERROR_PROPERTY_UNAVAILABLE),
                    reply_userdata: 9,
                }))
            );
        }
    }
}

#[test]
fn a_property_reply_with_an_unknown_code_is_a_fault() {
    let data = EventData::Property { name: Some(b"loop\0"), format: 4, data: NativeValue::Int64(2) };
    assert_eq!(
        to_event(MpvEventId::MPV_EVENT_GET_PROPERTY_REPLY, -21, 0, data),
        Err(DecodeError::UnknownErrorCode)
    );
}

#[test]
fn a_property_reply_with_a_broken_value_is_a_fault() {
    let kind = MpvEventId::MPV_EVENT_GET_PROPERTY_REPLY;
    let data =
        EventData::Property { name: Some(b"pause\0"), format: 3, data: NativeValue::Flag(2) };
    assert_eq!(to_event(kind, 0, 0, data), Err(DecodeError::InvalidFlag));
    let data = EventData::Property { name: Some(b"pause\0"), format: 3, data: NativeValue::Absent };
    assert_eq!(to_event(kind, 0, 0, data), Err(DecodeError::NullPointer));
    let data = EventData::Property { name: None, format: 3, data: NativeValue::Flag(1) };
    assert_eq!(to_event(kind, 0, 0, data), Err(DecodeError::NullPointer));
    let data = EventData::Property { name: None, format: 3, data: NativeValue::Flag(1) };
    assert_eq!(to_event(kind, -8, 0, data), Err(DecodeError::NullPointer));
}

#[test]
fn set_property_and_command_replies_carry_the_outcome() {
    assert_eq!(
        to_event(MpvEventId::MPV_EVENT_SET_PROPERTY_REPLY, 0, 3, EventData::Absent),
        Ok(Some(Event::SetPropertyReply(Ok(()), 3)))
    );
    assert_eq!(
        to_event(MpvEventId::MPV_EVENT_SET_PROPERTY_REPLY, -9, 3, EventData::Absent),
        Ok(Some(Event::SetPropertyReply(Err(Error::MPV_ERROR_PROPERTY_FORMAT), 3)))
    );
    assert_eq!(
        to_event(MpvEventId::MPV_EVENT_COMMAND_REPLY, 4, 8, EventData::Absent),
        Ok(Some(Event::CommandReply(Ok(()), 8)))
    );
    assert_eq!(
        to_event(MpvEventId::MPV_EVENT_COMMAND_REPLY, -12, 8, EventData::Absent),
        Ok(Some(Event::CommandReply(Err(Error::MPV_ERROR_COMMAND), 8)))
    );
    assert_eq!(
        to_event(MpvEventId::MPV_EVENT_COMMAND_REPLY, -77, 8, EventData::Absent),
        Err(DecodeError::UnknownErrorCode)
    );
    assert_eq!(
        to_event(MpvEventId::MPV_EVENT_SET_PROPERTY_REPLY, i32::MIN, 8, EventData::Absent),
        Err(DecodeError::UnknownErrorCode)
    );
}

#[test]
fn the_reply_number_is_cut_to_32_bits() {
    assert_eq!(
        to_event(MpvEventId::MPV_EVENT_COMMAND_REPLY, 0, 0x1_0000_0005, EventData::Absent),
        Ok(Some(Event::CommandReply(Ok(()), 5)))
    );
    assert_eq!(
        to_event(MpvEventId::MPV_EVENT_COMMAND_REPLY, 0, u64::MAX, EventData::Absent),
        Ok(Some(Event::CommandReply(Ok(()), u32::MAX)))
    );
    assert_eq!(
        to_event(MpvEventId::MPV_EVENT_SET_PROPERTY_REPLY, 0, 0xffff_ffff, EventData::Absent),
        Ok(Some(Event::SetPropertyReply(Ok(()), 0xffff_ffff)))
    );
    let data = EventData::Property { name: Some(b"a\0"), format: 4, data: NativeValue::Int64(0) };
    assert_eq!(
        to_event(MpvEventId::MPV_EVENT_PROPERTY_CHANGE, 0, 0xabcd_0000_0001, data),
        Ok(Some(Event::PropertyChange { name: "a", change: Format::Int(0), reply_userdata: 1 }))
    );
}

#[test]
fn the_reason_error_forces_a_failure() {
    for error in [0, -1, 5] {
        let data = EventData::EndFile { reason: 4, error: -13 };
        assert_eq!(
            to_event(MpvEventId::MPV_EVENT_END_FILE, error, 0, data),
            Ok(Some(Event::EndFile(Err(Error::MPV_ERROR_LOADING_FAILED))))
        );
    }
    let data = EventData::EndFile { reason: 4, error: 0 };
    assert_eq!(
        to_event(MpvEventId::MPV_EVENT_END_FILE, 0, 0, data),
        Ok(Some(Event::EndFile(Err(Error::MPV_ERROR_SUCCESS))))
    );
    let data = EventData::EndFile { reason: 4, error: -21 };
    assert_eq!(
        to_event(MpvEventId::MPV_EVENT_END_FILE, 0, 0, data),
        Err(DecodeError::UnknownErrorCode)
    );
    let data = EventData::EndFile { reason: 4, error: 3 };
    assert_eq!(
        to_event(MpvEventId::MPV_EVENT_END_FILE, 0, 0, data),
        Err(DecodeError::UnknownErrorCode)
    );
}

#[test]
fn every_other_reason_is_a_success_that_carries_it() {
    let reasons = [
        (0, MpvEndFileReason::MPV_END_FILE_REASON_EOF),
        (2, MpvEndFileReason::MPV_END_FILE_REASON_STOP),
        (3, MpvEndFileReason::MPV_END_FILE_REASON_QUIT),
        (5, MpvEndFileReason::MPV_END_FILE_REASON_REDIRECT),
    ];
    for (code, reason) in reasons {
        for error in [0, -13, -99, 4] {
            let data = EventData::EndFile { reason: code, error };
            assert_eq!(
                to_event(MpvEventId::MPV_EVENT_END_FILE, error, 0, data),
                Ok(Some(Event::EndFile(Ok(reason))))
            );
        }
    }
}

#[test]
fn an_unknown_reason_is_a_fault() {
    for code in [1, 6, -1, 400] {
        let data = EventData::EndFile { reason: code, error: 0 };
        assert_eq!(
            to_event(MpvEventId::MPV_EVENT_END_FILE, 0, 0, data),
            Err(DecodeError::UnknownEndFileReason)
        );
    }
}

#[test]
fn a_property_change_is_always_a_value() {
    let data = EventData::Property {
        name: Some(b"pause\0"),
        format: 3,
        data: NativeValue::Flag(1),
    };
    for error in [0, -1, -99] {
        assert_eq!(
            to_event(MpvEventId::MPV_EVENT_PROPERTY_CHANGE, error, 2, data),
            Ok(Some(Event::PropertyChange {
                name: "pause",
                change: Format::Flag(true),
                reply_userdata: 2,
            }))
        );
    }
    let data = EventData::Property {
        name: Some(b"media-title\0"),
        format: 1,
        data: NativeValue::Text(Some(b"a.mkv\0")),
    };
    assert_eq!(
        to_event(MpvEventId::MPV_EVENT_PROPERTY_CHANGE, 0, 2, data),
        Ok(Some(Event::PropertyChange {
            name: "media-title",
            change: Format::Str("a.mkv"),
            reply_userdata: 2,
        }))
    );
    let data = EventData::Property {
        name: Some(b"time-pos\0"),
        format: 2,
        data: NativeValue::Text(Some(b"00:00:01\0")),
    };
    assert_eq!(
        to_event(MpvEventId::MPV_EVENT_PROPERTY_CHANGE, 0, 2, data),
        Ok(Some(Event::PropertyChange {
            name: "time-pos",
            change: Format::OsdStr("00:00:01"),
            reply_userdata: 2,
        }))
    );
}

#[test]
fn a_property_without_typed_value_changes_to_a_false_flag() {
    for format in [0, 6, 7, 8, 9, 10, -1, 1000] {
        let data = EventData::Property { name: Some(b"x\0"), format, data: NativeValue::Absent };
        assert_eq!(
            to_event(MpvEventId::MPV_EVENT_PROPERTY_CHANGE, 0, 0, data),
            Ok(Some(Event::PropertyChange {
                name: "x",
                change: Format::Flag(false),
                reply_userdata: 0,
            }))
        );
    }
}
