//! The steps of one audio operation, from the command to its answer.
//!
//! An operation first resolves what it acts on (the first device of a kind, or
//! the stream an application identifier names), then reads or writes it. Each
//! step is one `Request`; the caller carries it out against the audio service,
//! with a `Driver` per request, and hands back the `Reply`.
use crate::driver::WaitMode;
use crate::error::AudioError;
use crate::platform::Platform;
use crate::stream::{
    describes, effective_id, find_stream, has_stream, list_apps, AppInfo, StreamEntry,
};
use crate::volume::{
    check_level, lemma_shown_level_bounds, lemma_uniform_average, level_in_range, shown_level, shown_volume, writable_channels,
    MAX_CHANNELS, NORMAL_VOLUME,
};
use vstd::prelude::*;

verus! {

/// A kind of device.
#[derive(Clone, Copy, Debug, PartialEq, Eq, Structural)]
pub enum Device {
    /// Playback: the output the master controls act on.
    Output,
    /// Capture: the microphone.
    Input,
}

/// What an operation acts on.
#[derive(Clone, Copy, Debug, PartialEq, Eq, Structural)]
pub enum Target {
    /// The default device of a kind.
    Device(Device),
    /// The stream known by this application identifier.
    App(u32),
}

/// An operation a caller asks for.
#[derive(Clone, Copy, Debug, PartialEq, Eq, Structural)]
pub enum Command {
    GetVolume(Target),
    /// Set the volume to a native level; the level is checked before anything
    /// else happens.
    SetVolume(Target, i64),
    GetMute(Target),
    SetMute(Target, bool),
    /// Read the mute flag, write its negation, answer the new flag.
    ToggleMute(Target),
    /// Read the instantaneous signal level (metering).
    GetLevel(Target),
    ListApps,
}

/// A resolved device or stream.
#[derive(Debug)]
pub enum Handle {
    /// A device, by the name the service gave it.
    Device(Device, String),
    /// A stream, by the service's index.
    Stream(u32),
}

impl Handle {
    /// A copy of this handle.
    pub fn duplicate(&self) -> (r: Handle)
        ensures
            r == *self,
    {
        match self {
            Handle::Device(d, n) => Handle::Device(*d, n.clone()),
            Handle::Stream(i) => Handle::Stream(*i),
        }
    }
}

/// One request to the audio service.
#[derive(Debug)]
pub enum Request {
    /// Enumerate the devices of a kind and give the first one's name.
    FirstDevice(Device),
    /// Enumerate every stream.
    ListStreams,
    /// Give the channel levels and mute flag of a device or stream.
    Read(Handle),
    /// Set a device's or stream's level on each of its channels, of which it
    /// has this many.
    WriteVolume(Handle, u32, usize),
    /// Set a device's or stream's mute flag.
    WriteMute(Handle, bool),
}

/// What the wait for a request ends on.
pub open spec fn wait_mode_of(r: Request) -> WaitMode {
    match r {
        Request::FirstDevice(_) => WaitMode::FirstResult,
        Request::ListStreams => WaitMode::AllResults,
        Request::Read(_) => WaitMode::FirstResult,
        Request::WriteVolume(_, _, _) => WaitMode::Completion,
        Request::WriteMute(_, _) => WaitMode::Completion,
    }
}

impl Request {
    /// What the driver of this request waits for.
    pub fn wait_mode(&self) -> (r: WaitMode)
        ensures
            r == wait_mode_of(*self),
    {
        match self {
            Request::FirstDevice(_) => WaitMode::FirstResult,
            Request::ListStreams => WaitMode::AllResults,
            Request::Read(_) => WaitMode::FirstResult,
            Request::WriteVolume(_, _, _) => WaitMode::Completion,
            Request::WriteMute(_, _) => WaitMode::Completion,
        }
    }
}

/// What a request brought back.
pub enum Reply {
    /// The first device's name and how many channels it has.
    DeviceName(String, usize),
    /// Every stream the enumeration gave, in its order.
    Streams(Vec<StreamEntry>),
    /// A device's or stream's channel levels and mute flag.
    Levels(Vec<u32>, bool),
    /// A write completed.
    Applied,
    /// The request failed.
    Failed(AudioError),
}

/// What an operation answers.
pub enum Answer {
    /// A level, in native units.
    Volume(u32),
    /// A mute flag.
    Muted(bool),
    /// A write took place.
    Done,
    /// The listing of the active streams.
    Apps(Vec<AppInfo>),
}

/// Where an operation stands.
#[derive(Debug)]
pub enum Phase {
    /// The target is being resolved.
    Resolving,
    /// A read of the resolved target is in flight.
    Reading(Handle),
    /// A write is in flight; for a toggle, the flag it writes.
    Writing(Option<bool>),
    /// The operation has ended.
    Ended,
}

/// One operation in progress.
#[derive(Debug)]
pub struct Session {
    pub command: Command,
    pub phase: Phase,
}

/// What the caller does next.
pub enum Next {
    /// Carry out this request and hand back its reply.
    Issue(Request),
    /// The operation is over, with this outcome.
    Finish(Result<Answer, AudioError>),
}

/// The target of a command; a listing has none.
pub open spec fn target_of(c: Command) -> Option<Target> {
    match c {
        Command::GetVolume(t) => Some(t),
        Command::SetVolume(t, _) => Some(t),
        Command::GetMute(t) => Some(t),
        Command::SetMute(t, _) => Some(t),
        Command::ToggleMute(t) => Some(t),
        Command::GetLevel(t) => Some(t),
        Command::ListApps => None,
    }
}

/// The session `s` once it has ended.
pub open spec fn ended(s: Session) -> Session {
    Session { command: s.command, phase: Phase::Ended }
}

/// How an operation starts.
pub open spec fn begin_spec(p: Platform, c: Command) -> (Session, Next) {
    let stop = Session { command: c, phase: Phase::Ended };
    let go = Session { command: c, phase: Phase::Resolving };
    if c matches Command::SetVolume(_, units) && !level_in_range(units as int) {
        (stop, Next::Finish(Err(AudioError::InvalidArgument)))
    } else if p == Platform::Unsupported {
        (stop, Next::Finish(Err(AudioError::PlatformUnsupported)))
    } else if c is GetLevel {
        (stop, Next::Finish(Err(AudioError::Unavailable)))
    } else {
        match target_of(c) {
            Some(Target::Device(d)) => (go, Next::Issue(Request::FirstDevice(d))),
            _ => (go, Next::Issue(Request::ListStreams)),
        }
    }
}

/// What an operation does once its target is resolved to `h`, which has
/// `channels` channels.
///
/// A volume write covers every channel of the target; a target whose channel
/// count cannot be written ends the operation with a connection error.
pub open spec fn act_spec(c: Command, h: Handle, channels: usize) -> (Session, Next) {
    match c {
        Command::SetVolume(_, units) => if writable_channels(channels as int) {
            (
                Session { command: c, phase: Phase::Writing(None) },
                Next::Issue(Request::WriteVolume(h, units as u32, channels)),
            )
        } else {
            (
                Session { command: c, phase: Phase::Ended },
                Next::Finish(Err(AudioError::ConnectionError)),
            )
        },
        Command::SetMute(_, m) => (
            Session { command: c, phase: Phase::Writing(None) },
            Next::Issue(Request::WriteMute(h, m)),
        ),
        Command::GetVolume(_) | Command::GetMute(_) | Command::ToggleMute(_) => (
            Session { command: c, phase: Phase::Reading(h) },
            Next::Issue(Request::Read(h)),
        ),
        _ => (
            Session { command: c, phase: Phase::Ended },
            Next::Finish(Err(AudioError::ConnectionError)),
        ),
    }
}

/// `r` is how session `s` goes on after `reply`.
///
/// A reply that does not answer the request in flight ends the operation with a
/// connection error.
pub open spec fn advance_spec(s: Session, reply: Reply, r: (Session, Next)) -> bool {
    let broken = (ended(s), Next::Finish(Err(AudioError::ConnectionError)));
    match reply {
        Reply::Failed(e) => r == (ended(s), Next::Finish(Err(e))),
        _ => match s.phase {
            Phase::Resolving => match (s.command, target_of(s.command), reply) {
                (Command::ListApps, _, Reply::Streams(list)) => {
                    &&& r.0 == ended(s)
                    &&& r.1 matches Next::Finish(Ok(Answer::Apps(v)))
                    &&& v@.len() == list@.len()
                    &&& forall|i: int| 0 <= i < v@.len() ==> describes(#[trigger] v@[i], list@[i])
                },
                (_, Some(Target::Device(d)), Reply::DeviceName(n, count)) => r == act_spec(
                    s.command,
                    Handle::Device(d, n),
                    count,
                ),
                (_, Some(Target::App(id)), Reply::Streams(list)) => {
                    if has_stream(list@, id) {
                        exists|i: int|
                            0 <= i < list@.len() && effective_id(list@[i]) == id
                                && (forall|j: int|
                                0 <= j < i ==> effective_id(#[trigger] list@[j])
                                    != id) && r == act_spec(
                                s.command,
                                Handle::Stream(list@[i].index),
                                list@[i].channels@.len() as usize,
                            )
                    } else {
                        r == (ended(s), Next::Finish(Err(AudioError::NotFound)))
                    }
                },
                _ => r == broken,
            },
            Phase::Reading(h) => match (s.command, reply) {
                (Command::GetVolume(_), Reply::Levels(ch, _)) => r == (
                    ended(s),
                    Next::Finish(Ok(Answer::Volume(shown_level(ch@) as u32))),
                ),
                (Command::GetMute(_), Reply::Levels(_, m)) => r == (
                    ended(s),
                    Next::Finish(Ok(Answer::Muted(m))),
                ),
                (Command::ToggleMute(_), Reply::Levels(_, m)) => r == (
                    Session { command: s.command, phase: Phase::Writing(Some(!m)) },
                    Next::Issue(Request::WriteMute(h, !m)),
                ),
                _ => r == broken,
            },
            Phase::Writing(flag) => match reply {
                Reply::Applied => r == (
                    ended(s),
                    Next::Finish(
                        Ok(
                            match flag {
                                Some(m) => Answer::Muted(m),
                                None => Answer::Done,
                            },
                        ),
                    ),
                ),
                _ => r == broken,
            },
            Phase::Ended => r == broken,
        },
    }
}

impl Session {
    /// Starts `command` on platform `p`.
    ///
    /// A volume outside the range from silent to normal is refused before
    /// anything else; on an unsupported platform every other command fails;
    /// metering is never available.
    pub fn begin(p: Platform, command: Command) -> (r: (Session, Next))
        ensures
            r == begin_spec(p, command),
    {
        let stop = Session { command, phase: Phase::Ended };
        if let Command::SetVolume(_, units) = command {
            if let Err(e) = check_level(units) {
                return (stop, Next::Finish(Err(e)));
            }
        }
        if !p.is_supported() {
            return (stop, Next::Finish(Err(AudioError::PlatformUnsupported)));
        }
        let go = Session { command, phase: Phase::Resolving };
        match command {
            Command::GetLevel(_) => (stop, Next::Finish(Err(AudioError::Unavailable))),
            Command::GetVolume(Target::Device(d))
            | Command::SetVolume(Target::Device(d), _)
            | Command::GetMute(Target::Device(d))
            | Command::SetMute(Target::Device(d), _)
            | Command::ToggleMute(Target::Device(d)) => (
                go,
                Next::Issue(Request::FirstDevice(d)),
            ),
            _ => (go, Next::Issue(Request::ListStreams)),
        }
    }

    fn act(command: Command, h: Handle, channels: usize) -> (r: (Session, Next))
        ensures
            r == act_spec(command, h, channels),
    {
        match command {
            Command::SetVolume(_, units) => if 1 <= channels && channels <= MAX_CHANNELS {
                (
                    Session { command, phase: Phase::Writing(None) },
                    Next::Issue(Request::WriteVolume(h, units as u32, channels)),
                )
            } else {
                (
                    Session { command, phase: Phase::Ended },
                    Next::Finish(Err(AudioError::ConnectionError)),
                )
            },
            Command::SetMute(_, m) => (
                Session { command, phase: Phase::Writing(None) },
                Next::Issue(Request::WriteMute(h, m)),
            ),
            Command::GetVolume(_) | Command::GetMute(_) | Command::ToggleMute(_) => {
                let read = h.duplicate();
                (Session { command, phase: Phase::Reading(h) }, Next::Issue(Request::Read(read)))
            },
            _ => (
                Session { command, phase: Phase::Ended },
                Next::Finish(Err(AudioError::ConnectionError)),
            ),
        }
    }

    /// Takes in the reply to the request in flight and says what comes next.
    pub fn advance(self, reply: Reply) -> (r: (Session, Next))
        ensures
            advance_spec(self, reply, r),
    {
        let command = self.command;
        let stop = Session { command, phase: Phase::Ended };
        let broken = Next::Finish(Err(AudioError::ConnectionError));
        if let Reply::Failed(e) = reply {
            return (stop, Next::Finish(Err(e)));
        }
        match self.phase {
            Phase::Resolving => match (command, reply) {
                (Command::ListApps, Reply::Streams(list)) => {
                    let apps = list_apps(&list);
                    (stop, Next::Finish(Ok(Answer::Apps(apps))))
                },
                (Command::ListApps, _) => (stop, broken),
                (Command::GetVolume(t), reply)
                | (Command::SetVolume(t, _), reply)
                | (Command::GetMute(t), reply)
                | (Command::SetMute(t, _), reply)
                | (Command::ToggleMute(t), reply)
                | (Command::GetLevel(t), reply) => match (t, reply) {
                    (Target::Device(d), Reply::DeviceName(n, count)) => Session::act(
                        command,
                        Handle::Device(d, n),
                        count,
                    ),
                    (Target::App(id), Reply::Streams(list)) => match find_stream(&list, id) {
                        Some(i) => Session::act(
                            command,
                            Handle::Stream(list[i].index),
                            list[i].channels.len(),
                        ),
                        None => (stop, Next::Finish(Err(AudioError::NotFound))),
                    },
                    _ => (stop, broken),
                },
            },
            Phase::Reading(h) => match (command, reply) {
                (Command::GetVolume(_), Reply::Levels(ch, _)) => {
                    let level = shown_volume(&ch);
                    (stop, Next::Finish(Ok(Answer::Volume(level))))
                },
                (Command::GetMute(_), Reply::Levels(_, m)) => (
                    stop,
                    Next::Finish(Ok(Answer::Muted(m))),
                ),
                (Command::ToggleMute(_), Reply::Levels(_, m)) => (
                    Session { command, phase: Phase::Writing(Some(!m)) },
                    Next::Issue(Request::WriteMute(h, !m)),
                ),
                _ => (stop, broken),
            },
            Phase::Writing(flag) => match reply {
                Reply::Applied => {
                    let answer = match flag {
                        Some(m) => Answer::Muted(m),
                        None => Answer::Done,
                    };
                    (stop, Next::Finish(Ok(answer)))
                },
                _ => (stop, broken),
            },
            Phase::Ended => (stop, broken),
        }
    }
}

/// A command that reads or writes its resolved target.
pub open spec fn acts_on_target(c: Command) -> bool {
    c is GetVolume || c is SetVolume || c is GetMute || c is SetMute || c is ToggleMute
}

/// Setting a device's volume to a level in range and then reading it gives that
/// level back: the write puts the level on every one of the device's channels,
/// and a read of those channels answers their average.
pub proof fn lemma_set_then_get(
    p: Platform,
    d: Device,
    units: i64,
    name: String,
    channels: usize,
    h: Handle,
    written: Vec<u32>,
    muted: bool,
)
    requires
        p != Platform::Unsupported,
        level_in_range(units as int),
        writable_channels(channels as int),
        written@ == Seq::new(channels as nat, |_i: int| units as u32),
    ensures
        begin_spec(p, Command::SetVolume(Target::Device(d), units)).1 == Next::Issue(
            Request::FirstDevice(d),
        ),
        forall|r: (Session, Next)|
            advance_spec(
                begin_spec(p, Command::SetVolume(Target::Device(d), units)).0,
                Reply::DeviceName(name, channels),
                r,
            ) ==> r.1 == Next::Issue(
                Request::WriteVolume(Handle::Device(d, name), units as u32, channels),
            ),
        forall|r: (Session, Next)|
            advance_spec(
                Session { command: Command::GetVolume(Target::Device(d)), phase: Phase::Reading(h) },
                Reply::Levels(written, muted),
                r,
            ) ==> r.1 == Next::Finish(Ok::<Answer, AudioError>(Answer::Volume(units as u32))),
{
    lemma_uniform_average(units as u32, channels as nat);
}

/// A volume outside the range from silent to normal is refused with an invalid
/// argument before any request reaches the audio service, whatever the target
/// and platform.
pub proof fn lemma_out_of_range_refused(p: Platform, t: Target, units: i64)
    requires
        !level_in_range(units as int),
    ensures
        begin_spec(p, Command::SetVolume(t, units)) == (
            Session { command: Command::SetVolume(t, units), phase: Phase::Ended },
            Next::Finish(Err::<Answer, AudioError>(AudioError::InvalidArgument)),
        ),
{
}

/// Toggling twice in a row restores the mute flag: the first toggle writes the
/// negation of the flag it read, and a second toggle that reads what the first
/// wrote writes the first flag back. Each toggle answers the flag it wrote.
pub proof fn lemma_toggle_twice_restores(
    t: Target,
    h1: Handle,
    h2: Handle,
    ch1: Vec<u32>,
    ch2: Vec<u32>,
    m: bool,
    first: (Session, Next),
    second: (Session, Next),
)
    requires
        advance_spec(
            Session { command: Command::ToggleMute(t), phase: Phase::Reading(h1) },
            Reply::Levels(ch1, m),
            first,
        ),
        first.1 matches Next::Issue(Request::WriteMute(_, w)) && advance_spec(
            Session { command: Command::ToggleMute(t), phase: Phase::Reading(h2) },
            Reply::Levels(ch2, w),
            second,
        ),
    ensures
        first.1 == Next::Issue(Request::WriteMute(h1, !m)),
        second.1 == Next::Issue(Request::WriteMute(h2, m)),
        forall|r: (Session, Next)|
            advance_spec(first.0, Reply::Applied, r) ==> r.1 == Next::Finish(
                Ok::<Answer, AudioError>(Answer::Muted(!m)),
            ),
        forall|r: (Session, Next)|
            advance_spec(second.0, Reply::Applied, r) ==> r.1 == Next::Finish(
                Ok::<Answer, AudioError>(Answer::Muted(m)),
            ),
{
}

/// Over one enumeration of the streams, an operation on the application
/// identifier `id` resolves its stream exactly when `id` is among the
/// identifiers the listing shows; otherwise it fails with not-found.
pub proof fn lemma_resolves_iff_listed(
    c: Command,
    id: u32,
    list: Vec<StreamEntry>,
    listing: (Session, Next),
    r: (Session, Next),
)
    requires
        acts_on_target(c),
        target_of(c) == Some(Target::App(id)),
        advance_spec(
            Session { command: Command::ListApps, phase: Phase::Resolving },
            Reply::Streams(list),
            listing,
        ),
        advance_spec(Session { command: c, phase: Phase::Resolving }, Reply::Streams(list), r),
    ensures
        listing.1 matches Next::Finish(Ok(Answer::Apps(apps))) && ((r.1 != Next::Finish(
            Err::<Answer, AudioError>(AudioError::NotFound),
        )) <==> exists|i: int| 0 <= i < apps@.len() && (#[trigger] apps@[i]).pid == id),
{
    let apps = match listing.1 {
        Next::Finish(Ok(Answer::Apps(v))) => v,
        _ => arbitrary(),
    };
    if has_stream(list@, id) {
        let i = choose|i: int| 0 <= i < list@.len() && effective_id(list@[i]) == id;
        assert(describes(apps@[i], list@[i]));
    }
    if exists|i: int| 0 <= i < apps@.len() && (#[trigger] apps@[i]).pid == id {
        let i = choose|i: int| 0 <= i < apps@.len() && (#[trigger] apps@[i]).pid == id;
        assert(describes(apps@[i], list@[i]));
        assert(has_stream(list@, id));
    }
}

/// Listing the streams when there are none gives an empty listing, not an error.
pub proof fn lemma_no_streams_empty_listing(list: Vec<StreamEntry>, r: (Session, Next))
    requires
        list@.len() == 0,
        advance_spec(
            Session { command: Command::ListApps, phase: Phase::Resolving },
            Reply::Streams(list),
            r,
        ),
    ensures
        r.1 matches Next::Finish(Ok(Answer::Apps(apps))) && apps@.len() == 0,
{
}

/// On an unsupported platform every command fails with platform-unsupported and
/// nothing is requested, but for an out-of-range volume, which is refused first.
pub proof fn lemma_unsupported_platform_fails(c: Command)
    requires
        !(c matches Command::SetVolume(_, units) && !level_in_range(units as int)),
    ensures
        begin_spec(Platform::Unsupported, c).1 == Next::Finish(
            Err::<Answer, AudioError>(AudioError::PlatformUnsupported),
        ),
{
}

/// Metering is never available: on a supported platform every level reading
/// fails with unavailable and nothing is requested.
pub proof fn lemma_metering_unavailable(p: Platform, t: Target)
    requires
        p != Platform::Unsupported,
    ensures
        begin_spec(p, Command::GetLevel(t)).1 == Next::Finish(
            Err::<Answer, AudioError>(AudioError::Unavailable),
        ),
{
}

/// How many more requests an operation in phase `p` can issue at most.
pub open spec fn requests_left(p: Phase) -> nat {
    match p {
        Phase::Resolving => 3,
        Phase::Reading(_) => 2,
        Phase::Writing(_) => 1,
        Phase::Ended => 0,
    }
}

/// Every operation ends: a reply either finishes it, leaving it ended, or moves
/// it to a phase with fewer requests left; so no operation issues more than three
/// requests after the one it starts with.
pub proof fn lemma_operation_progresses(s: Session, reply: Reply, r: (Session, Next))
    requires
        advance_spec(s, reply, r),
    ensures
        r.1 is Finish ==> r.0.phase is Ended,
        r.1 is Issue ==> requests_left(r.0.phase) < requests_left(s.phase),
        r.1 is Issue ==> !(r.0.phase is Ended),
{
}

/// An operation's first step: it either ends at once or issues a request and
/// starts resolving its target.
pub proof fn lemma_begin_starts(p: Platform, c: Command)
    ensures
        begin_spec(p, c).1 is Finish ==> begin_spec(p, c).0.phase is Ended,
        begin_spec(p, c).1 is Issue ==> begin_spec(p, c).0.phase is Resolving,
        begin_spec(p, c).0.command == c,
{
}

/// Every level an operation answers, and every volume a listing shows, is at
/// most normal: shown levels never exceed 100%.
pub proof fn lemma_answered_levels_capped(s: Session, reply: Reply, r: (Session, Next))
    requires
        advance_spec(s, reply, r),
    ensures
        r.1 matches Next::Finish(Ok(Answer::Volume(v))) ==> v <= NORMAL_VOLUME,
        r.1 matches Next::Finish(Ok(Answer::Apps(apps))) ==> forall|i: int|
            0 <= i < apps@.len() ==> (#[trigger] apps@[i]).volume <= NORMAL_VOLUME,
{
    if let Reply::Levels(ch, _) = reply {
        lemma_shown_level_bounds(ch@);
    }
}

/// Setting an application's volume writes the level to every channel of the
/// first stream known by that identifier, and to nothing else.
pub proof fn lemma_app_volume_write(
    id: u32,
    units: i64,
    list: Vec<StreamEntry>,
    i: int,
    r: (Session, Next),
)
    requires
        level_in_range(units as int),
        0 <= i < list@.len(),
        effective_id(list@[i]) == id,
        forall|j: int| 0 <= j < i ==> effective_id(#[trigger] list@[j]) != id,
        writable_channels(list@[i].channels@.len() as int),
        advance_spec(
            Session { command: Command::SetVolume(Target::App(id), units), phase: Phase::Resolving },
            Reply::Streams(list),
            r,
        ),
    ensures
        r.1 == Next::Issue(
            Request::WriteVolume(
                Handle::Stream(list@[i].index),
                units as u32,
                list@[i].channels@.len() as usize,
            ),
        ),
{
    let k = choose|k: int|
        0 <= k < list@.len() && effective_id(list@[k]) == id && (forall|j: int|
            0 <= j < k ==> effective_id(#[trigger] list@[j]) != id) && r == act_spec(
            Command::SetVolume(Target::App(id), units),
            Handle::Stream(list@[k].index),
            list@[k].channels@.len() as usize,
        );
    if k < i {
        assert(effective_id(list@[k]) != id);
    } else if k > i {
        assert(effective_id(list@[i]) != id);
    }
}

} // verus!
