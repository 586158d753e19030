use mpv::{
    ret_to_result, to_event, Double, Error, Event, EventData, MpvEventId, MpvFormat,
    MpvInternalFormat, NativeValue,
};

/// Stands for the player: takes an option or a property as text and accepts
/// it.
fn accept_text(expected: &[u8], tag: MpvInternalFormat, value: &NativeValue) -> i32 {
    assert_eq!(tag, MpvInternalFormat::MPV_FORMAT_STRING);
    assert_eq!(*value, NativeValue::Text(Some(expected)));
    0
}

#[test]
fn setting_the_option_sid_to_no_succeeds() {
    let tag = <&str as MpvFormat>::get_mpv_format();
    let ret = "no".call_as_c_void(|n: &NativeValue| accept_text(b"no\0", tag, n));
    assert_eq!(ret_to_result(ret, ()), Ok(Ok(())));
}

#[test]
fn a_loop_set_as_text_is_read_as_an_integer() {
    let tag = <&str as MpvFormat>::get_mpv_format();
    let ret = "2".call_as_c_void(|n: &NativeValue| accept_text(b"2\0", tag, n));
    assert_eq!(ret_to_result(ret, ()), Ok(Ok(())));

    assert_eq!(<i64 as MpvFormat>::get_mpv_format(), MpvInternalFormat::MPV_FORMAT_INT64);
    let loops = <i64 as MpvFormat>::get_from_c_void(|slot| {
        assert_eq!(slot, NativeValue::Int64(0));
        NativeValue::Int64(2)
    });
    assert_eq!(ret_to_result(0, loops.unwrap()), Ok(Ok(2)));
}

#[test]
fn setting_the_speed_to_a_double_succeeds() {
    let speed = Double::from_bits(1.0f64.to_bits());
    assert_eq!(<Double as MpvFormat>::get_mpv_format(), MpvInternalFormat::MPV_FORMAT_DOUBLE);
    let ret = speed.call_as_c_void(|n: &NativeValue| match n {
        NativeValue::Double(bits) if f64::from_bits(*bits) == 1.0 => 0,
        _ => -9,
    });
    assert_eq!(ret_to_result(ret, ()), Ok(Ok(())));
}

#[test]
fn a_refused_property_is_a_failure_of_its_kind() {
    let ret = true.call_as_c_void(|_n: &NativeValue| -8);
    assert_eq!(ret_to_result(ret, ()), Ok(Err(Error::MPV_ERROR_PROPERTY_NOT_FOUND)));
}

#[test]
fn an_empty_queue_gives_no_event() {
    assert_eq!(to_event(MpvEventId::MPV_EVENT_NONE, 0, 0, EventData::Absent), Ok(None));
}

#[test]
fn a_failed_read_of_a_property_carries_the_failure() {
    let data = EventData::Property {
        name: Some(b"loop\0"),
        format: 4,
        data: NativeValue::Absent,
    };
    assert_eq!(
        to_event(MpvEventId::MPV_EVENT_GET_PROPERTY_REPLY, -8, 42, data),
        Ok(Some(Event::GetPropertyReply {
            name: "loop",
            result: Err(Error::MPV_ERROR_PROPERTY_NOT_FOUND),
            reply_userdata: 42,
        }))
    );
}

#[test]
fn the_loop_ends_on_shutdown() {
    let records = [
        MpvEventId::MPV_EVENT_START_FILE,
        MpvEventId::MPV_EVENT_FILE_LOADED,
        MpvEventId::MPV_EVENT_SHUTDOWN,
        MpvEventId::MPV_EVENT_IDLE,
    ];
    let mut seen = 0;
    for kind in records {
        seen += 1;
        if to_event(kind, 0, 0, EventData::Absent) == Ok(Some(Event::Shutdown)) {
            break;
        }
    }
    assert_eq!(seen, 3);
}
