use fa_control::{
    Answer, AudioError, Command, Device, Handle, Next, Platform, Reply, Request, Session, StreamEntry,
    Target, WaitMode, NORMAL_VOLUME,
};

fn stream(index: u32, pid: Option<&str>, level: u32, muted: bool) -> StreamEntry {
    StreamEntry {
        index,
        process_id: pid.map(|p| p.to_string()),
        name: Some(format!("stream {}", index)),
        channels: vec![level, level],
        muted,
    }
}

fn begin(command: Command) -> (Session, Next) {
    Session::begin(Platform::Linux, command)
}

#[test]
fn out_of_range_volume_is_refused_before_any_request() {
    for units in [-1i64, -6554, NORMAL_VOLUME as i64 + 1, 98304] {
        for t in [Target::Device(Device::Output), Target::Device(Device::Input), Target::App(42)] {
            let (_, next) = begin(Command::SetVolume(t, units));
            assert!(matches!(next, Next::Finish(Err(AudioError::InvalidArgument))));
        }
        let (_, next) = Session::begin(Platform::Unsupported, Command::SetVolume(Target::App(1), units));
        assert!(matches!(next, Next::Finish(Err(AudioError::InvalidArgument))));
    }
}

#[test]
fn set_then_get_master_volume() {
    let (s, next) = begin(Command::SetVolume(Target::Device(Device::Output), 32768));
    assert!(matches!(next, Next::Issue(Request::FirstDevice(Device::Output))));
    let (s, next) = s.advance(Reply::DeviceName("sink0".to_string(), 2));
    let written = match next {
        Next::Issue(Request::WriteVolume(Handle::Device(Device::Output, ref n), level, 2)) if n == "sink0" => level,
        _ => panic!("expected a volume write"),
    };
    assert_eq!(written, 32768);
    let (_, next) = s.advance(Reply::Applied);
    assert!(matches!(next, Next::Finish(Ok(Answer::Done))));

    let (s, _) = begin(Command::GetVolume(Target::Device(Device::Output)));
    let (s, next) = s.advance(Reply::DeviceName("sink0".to_string(), 2));
    assert!(matches!(next, Next::Issue(Request::Read(Handle::Device(Device::Output, _)))));
    let (_, next) = s.advance(Reply::Levels(fa_control::uniform_levels(written, 2), false));
    assert!(matches!(next, Next::Finish(Ok(Answer::Volume(32768)))));
}

#[test]
fn toggle_twice_restores_mute() {
    let mut muted = false;
    for expected in [true, false] {
        let (s, _) = begin(Command::ToggleMute(Target::Device(Device::Input)));
        let (s, _) = s.advance(Reply::DeviceName("mic".to_string(), 1));
        let (s, next) = s.advance(Reply::Levels(vec![100], muted));
        match next {
            Next::Issue(Request::WriteMute(Handle::Device(Device::Input, _), m)) => {
                assert_eq!(m, expected);
                muted = m;
            }
            _ => panic!("expected a mute write"),
        }
        let (_, next) = s.advance(Reply::Applied);
        assert!(matches!(next, Next::Finish(Ok(Answer::Muted(m))) if m == expected));
    }
    assert!(!muted);
}

#[test]
fn unknown_app_is_not_found() {
    let (s, next) = begin(Command::SetVolume(Target::App(999999), 32768));
    assert!(matches!(next, Next::Issue(Request::ListStreams)));
    let streams = vec![stream(1, Some("1200"), 100, false), stream(2, None, 200, false)];
    let (_, next) = s.advance(Reply::Streams(streams));
    assert!(matches!(next, Next::Finish(Err(AudioError::NotFound))));
}

#[test]
fn stream_without_pid_is_controlled_by_index() {
    let streams = || vec![stream(3, Some("1200"), 100, false), stream(7, None, 49152, false)];
    let (s, _) = begin(Command::ListApps);
    let (_, next) = s.advance(Reply::Streams(streams()));
    let apps = match next {
        Next::Finish(Ok(Answer::Apps(apps))) => apps,
        _ => panic!("expected a listing"),
    };
    assert_eq!(apps[1].pid, 7);

    let (s, _) = begin(Command::GetVolume(Target::App(apps[1].pid)));
    let (s, next) = s.advance(Reply::Streams(streams()));
    assert!(matches!(next, Next::Issue(Request::Read(Handle::Stream(7)))));
    let (_, next) = s.advance(Reply::Levels(vec![49152, 49152], false));
    assert!(matches!(next, Next::Finish(Ok(Answer::Volume(49152)))));
}

#[test]
fn app_mute_by_pid() {
    let streams = vec![stream(3, Some("1200"), 100, true)];
    let (s, _) = begin(Command::SetMute(Target::App(1200), false));
    let (s, next) = s.advance(Reply::Streams(streams));
    assert!(matches!(next, Next::Issue(Request::WriteMute(Handle::Stream(3), false))));
    let (_, next) = s.advance(Reply::Applied);
    assert!(matches!(next, Next::Finish(Ok(Answer::Done))));

    let (s, _) = begin(Command::GetMute(Target::App(1200)));
    let (s, _) = s.advance(Reply::Streams(vec![stream(3, Some("1200"), 100, true)]));
    let (_, next) = s.advance(Reply::Levels(vec![100, 100], true));
    assert!(matches!(next, Next::Finish(Ok(Answer::Muted(true)))));
}

#[test]
fn no_streams_lists_nothing() {
    let (s, next) = begin(Command::ListApps);
    assert!(matches!(next, Next::Issue(Request::ListStreams)));
    let (_, next) = s.advance(Reply::Streams(Vec::new()));
    assert!(matches!(next, Next::Finish(Ok(Answer::Apps(ref apps))) if apps.is_empty()));
}

#[test]
fn unsupported_platform_fails_everything() {
    let commands = [
        Command::GetVolume(Target::Device(Device::Output)),
        Command::SetVolume(Target::Device(Device::Output), 10),
        Command::GetMute(Target::App(5)),
        Command::SetMute(Target::App(5), true),
        Command::ToggleMute(Target::Device(Device::Input)),
        Command::GetLevel(Target::Device(Device::Output)),
        Command::ListApps,
    ];
    for c in commands {
        let (_, next) = Session::begin(Platform::Unsupported, c);
        assert!(matches!(next, Next::Finish(Err(AudioError::PlatformUnsupported))));
    }
}

#[test]
fn metering_is_unavailable() {
    for t in [Target::Device(Device::Output), Target::Device(Device::Input), Target::App(9)] {
        let (_, next) = Session::begin(Platform::Windows, Command::GetLevel(t));
        assert!(matches!(next, Next::Finish(Err(AudioError::Unavailable))));
    }
}

#[test]
fn failures_and_stray_replies_end_the_operation() {
    let (s, _) = begin(Command::GetVolume(Target::Device(Device::Output)));
    let (_, next) = s.advance(Reply::Failed(AudioError::Timeout));
    assert!(matches!(next, Next::Finish(Err(AudioError::Timeout))));

    let (s, _) = begin(Command::GetVolume(Target::Device(Device::Output)));
    let (_, next) = s.advance(Reply::Applied);
    assert!(matches!(next, Next::Finish(Err(AudioError::ConnectionError))));
}

#[test]
fn wait_modes_of_requests() {
    assert_eq!(Request::FirstDevice(Device::Output).wait_mode(), WaitMode::FirstResult);
    assert_eq!(Request::ListStreams.wait_mode(), WaitMode::AllResults);
    assert_eq!(Request::Read(Handle::Stream(1)).wait_mode(), WaitMode::FirstResult);
    assert_eq!(Request::WriteVolume(Handle::Stream(1), 5, 2).wait_mode(), WaitMode::Completion);
    assert_eq!(Request::WriteMute(Handle::Stream(1), true).wait_mode(), WaitMode::Completion);
}

#[test]
fn volume_write_covers_every_channel_of_the_target() {
    let (s, _) = begin(Command::SetVolume(Target::Device(Device::Output), 1000));
    let (_, next) = s.advance(Reply::DeviceName("surround".to_string(), 6));
    assert!(matches!(next, Next::Issue(Request::WriteVolume(Handle::Device(Device::Output, _), 1000, 6))));

    let (s, _) = begin(Command::SetVolume(Target::Device(Device::Input), 1000));
    let (_, next) = s.advance(Reply::DeviceName("mono mic".to_string(), 1));
    assert!(matches!(next, Next::Issue(Request::WriteVolume(Handle::Device(Device::Input, _), 1000, 1))));

    let mut mono = stream(8, Some("4000"), 100, false);
    mono.channels = vec![100];
    let (s, _) = begin(Command::SetVolume(Target::App(4000), 2000));
    let (_, next) = s.advance(Reply::Streams(vec![stream(2, Some("77"), 5, false), mono]));
    assert!(matches!(next, Next::Issue(Request::WriteVolume(Handle::Stream(8), 2000, 1))));
}

#[test]
fn unwritable_channel_count_fails() {
    for count in [0usize, 33] {
        let (s, _) = begin(Command::SetVolume(Target::Device(Device::Output), 1000));
        let (_, next) = s.advance(Reply::DeviceName("odd".to_string(), count));
        assert!(matches!(next, Next::Finish(Err(AudioError::ConnectionError))));
    }
}

#[test]
fn loud_levels_are_shown_at_most_full() {
    let (s, _) = begin(Command::ListApps);
    let (_, next) = s.advance(Reply::Streams(vec![stream(1, None, NORMAL_VOLUME + 1, false)]));
    assert!(matches!(next, Next::Finish(Ok(Answer::Apps(ref apps))) if apps[0].volume == NORMAL_VOLUME));

    let (s, _) = begin(Command::GetVolume(Target::Device(Device::Output)));
    let (s, _) = s.advance(Reply::DeviceName("sink0".to_string(), 2));
    let (_, next) = s.advance(Reply::Levels(vec![98304, 98304], false));
    assert!(matches!(next, Next::Finish(Ok(Answer::Volume(v))) if v == NORMAL_VOLUME));
}
