use mpv::{
    c_string, command_buffer, decode_text, loadfile_command, mpv_err, CommandArgs, DoubleBits,
    Error, FileState, Format, GetData, LoadSession, MpvStr, NativeData, SetData, Startup,
    StartupCall, StartupEvent, MPV_CLIENT_API_VERSION, MPV_FORMAT_DOUBLE, MPV_FORMAT_FLAG,
    MPV_FORMAT_INT64, MPV_FORMAT_STRING,
};
use std::cell::Cell;
use std::rc::Rc;

fn round_trip<T: SetData + GetData>(v: T) -> T {
    let staged = v.to_native().unwrap();
    T::from_native(staged).unwrap()
}

#[test]
fn format_is_stable_and_codes_are_distinct() {
    for _ in 0..3 {
        assert_eq!(<i64 as GetData>::get_format(), Format::Int64);
        assert_eq!(<i64 as SetData>::get_format(), Format::Int64);
        assert_eq!(<bool as GetData>::get_format(), Format::Flag);
        assert_eq!(<bool as SetData>::get_format(), Format::Flag);
        assert_eq!(<String as GetData>::get_format(), Format::String);
        assert_eq!(<String as SetData>::get_format(), Format::String);
        assert_eq!(<&str as SetData>::get_format(), Format::String);
        assert_eq!(<DoubleBits as GetData>::get_format(), Format::Double);
        assert_eq!(<DoubleBits as SetData>::get_format(), Format::Double);
    }
    let all = [Format::String, Format::Flag, Format::Int64, Format::Double];
    let codes: Vec<u32> = all.iter().map(|f| f.as_mpv_format()).collect();
    assert_eq!(codes, vec![MPV_FORMAT_STRING, MPV_FORMAT_FLAG, MPV_FORMAT_INT64, MPV_FORMAT_DOUBLE]);
    assert_eq!(codes, vec![1, 3, 4, 5]);
    for i in 0..4 {
        for j in 0..4 {
            assert_eq!(codes[i] == codes[j], i == j);
        }
    }
}

#[test]
fn int64_round_trips_at_the_edges() {
    for v in [0i64, -1, 1, i64::MAX, i64::MIN] {
        assert_eq!(round_trip(v), v);
        assert_eq!(v.to_native(), Ok(NativeData::Int64(v)));
    }
}

#[test]
fn double_round_trips_bit_for_bit() {
    for v in [0.0f64, -0.0, -1.0, f64::MAX, f64::MIN, f64::NAN, f64::INFINITY] {
        let back = round_trip(DoubleBits(v.to_bits()));
        assert_eq!(back.0, v.to_bits());
        let x = f64::from_bits(back.0);
        assert!(x == v || (x.is_nan() && v.is_nan()));
    }
}

#[test]
fn flag_is_widened_and_round_trips() {
    assert_eq!(true.to_native(), Ok(NativeData::Flag(1)));
    assert_eq!(false.to_native(), Ok(NativeData::Flag(0)));
    assert!(round_trip(true));
    assert!(!round_trip(false));
    assert_eq!(bool::from_native(NativeData::Flag(7)), Ok(true));
}

#[test]
fn string_round_trips_and_nul_is_refused() {
    for s in ["", "hello", "path with spaces", "ünïcödé ✓"] {
        assert_eq!(round_trip(s.to_string()), s);
        let staged = s.to_native().unwrap();
        let mut expected = s.as_bytes().to_vec();
        expected.push(0);
        assert_eq!(staged, NativeData::String(expected));
    }
    assert_eq!("a\0b".to_native(), Err(Error::Null));
    assert_eq!("a\0b".to_string().to_native(), Err(Error::Null));
}

#[test]
fn invalid_native_text_is_refused() {
    let bad = NativeData::String(vec![0xff, 0xfe, 0]);
    assert_eq!(String::from_native(bad), Err(Error::InvalidUtf8));
    assert_eq!(decode_text(&[0xc3, 0x28]), Err(Error::InvalidUtf8));
    assert_eq!(decode_text(&[0xc3, 0xbc]), Ok("ü"));
}

#[test]
fn c_string_terminates_or_refuses() {
    assert_eq!(c_string(b"abc"), Ok(b"abc\0".to_vec()));
    assert_eq!(c_string(b""), Ok(vec![0]));
    assert_eq!(c_string(b"a\0"), Err(Error::Null));
}

#[test]
fn status_codes_become_errors() {
    assert_eq!(mpv_err(5, 0), Ok(5));
    assert_eq!(mpv_err((), -8), Err::<(), Error>(Error::Raw(-8)));
    assert_eq!(Error::from(-3), Error::Raw(-3));
}

#[test]
fn property_requests_carry_name_code_and_value() {
    let w = mpv::set_property_request("volume", 50i64).unwrap();
    assert_eq!(w.name, b"volume\0".to_vec());
    assert_eq!(w.format, MPV_FORMAT_INT64);
    assert_eq!(w.data, NativeData::Int64(50));
    let w = mpv::set_property_request("pause", true).unwrap();
    assert_eq!((w.format, w.data), (MPV_FORMAT_FLAG, NativeData::Flag(1)));
    assert!(matches!(mpv::set_property_request("bad\0name", 1i64), Err(Error::Null)));
    assert!(matches!(mpv::set_property_request("title", "x\0y"), Err(Error::Null)));
    let q = mpv::get_property_request::<String>("media-title").unwrap();
    assert_eq!((q.name, q.format), (b"media-title\0".to_vec(), MPV_FORMAT_STRING));
    assert!(matches!(mpv::get_property_request::<i64>("a\0"), Err(Error::Null)));
}

struct FakeNative {
    loaded: u64,
    created: bool,
    init_status: i32,
    calls: Cell<usize>,
    log: std::cell::RefCell<Vec<StartupCall>>,
}

impl FakeNative {
    fn answer(&self, call: StartupCall) -> StartupEvent {
        self.calls.set(self.calls.get() + 1);
        self.log.borrow_mut().push(call);
        match call {
            StartupCall::ClientApiVersion => StartupEvent::ApiVersion(self.loaded),
            StartupCall::Create => StartupEvent::Created(self.created),
            StartupCall::Initialize => StartupEvent::Initialized(self.init_status),
            StartupCall::TerminateDestroy => StartupEvent::Destroyed,
        }
    }

    fn start(&self) -> Result<(), Error> {
        let mut s = Startup::begin();
        while let Some(call) = s.next_call() {
            s = s.step(self.answer(call));
        }
        s.outcome().unwrap()
    }
}

fn fake(loaded: u64, created: bool, init_status: i32) -> FakeNative {
    FakeNative { loaded, created, init_status, calls: Cell::new(0), log: Default::default() }
}

#[test]
fn version_mismatch_makes_no_other_call() {
    let n = fake(MPV_CLIENT_API_VERSION + 1, true, 0);
    assert_eq!(
        n.start(),
        Err(Error::VersionMismatch {
            linked: MPV_CLIENT_API_VERSION,
            loaded: MPV_CLIENT_API_VERSION + 1
        })
    );
    assert_eq!(n.calls.get(), 1);
}

#[test]
fn start_succeeds_and_failures_clean_up() {
    let n = fake(MPV_CLIENT_API_VERSION, true, 0);
    assert_eq!(n.start(), Ok(()));
    assert_eq!(
        *n.log.borrow(),
        vec![StartupCall::ClientApiVersion, StartupCall::Create, StartupCall::Initialize]
    );
    let n = fake(MPV_CLIENT_API_VERSION, false, 0);
    assert_eq!(n.start(), Err(Error::Null));
    assert_eq!(n.calls.get(), 2);
    let n = fake(MPV_CLIENT_API_VERSION, true, -1);
    assert_eq!(n.start(), Err(Error::Raw(-1)));
    assert_eq!(n.log.borrow().last(), Some(&StartupCall::TerminateDestroy));
    assert_eq!(n.calls.get(), 4);
}

fn load_batch(n: usize, failing: Option<usize>) -> (Vec<usize>, Result<(), Error>) {
    let mut session = LoadSession::new(n);
    let mut sent = Vec::new();
    while let Some(i) = session.pending() {
        sent.push(i);
        let ret = if Some(i) == failing { Err(Error::Raw(-13)) } else { Ok(()) };
        session.record(ret);
    }
    (sent, session.outcome().unwrap())
}

#[test]
fn batch_load_stops_at_first_failure() {
    let (sent, out) = load_batch(5, Some(2));
    assert_eq!(sent, vec![0, 1, 2]);
    assert_eq!(out, Err(Error::Loadfiles { index: 2, error: Rc::new(Error::Raw(-13)) }));
    let (sent, out) = load_batch(4, None);
    assert_eq!(sent, vec![0, 1, 2, 3]);
    assert_eq!(out, Ok(()));
    let (sent, out) = load_batch(0, None);
    assert!(sent.is_empty());
    assert_eq!(out, Ok(()));
    let (sent, out) = load_batch(3, Some(0));
    assert_eq!(sent, vec![0]);
    assert_eq!(out, Err(Error::Loadfiles { index: 0, error: Rc::new(Error::Raw(-13)) }));
}

struct Release(Rc<Cell<u32>>);

impl Drop for Release {
    fn drop(&mut self) {
        self.0.set(self.0.get() + 1);
    }
}

#[test]
fn native_string_is_released_exactly_once() {
    let count = Rc::new(Cell::new(0));
    {
        let s = MpvStr::new(b"mpv text", Release(count.clone())).unwrap();
        assert_eq!(s.as_str(), "mpv text");
        assert_eq!(count.get(), 0);
    }
    assert_eq!(count.get(), 1);
    let count = Rc::new(Cell::new(0));
    let r = MpvStr::new(&[0xff, 0x00], Release(count.clone()));
    assert!(matches!(r, Err(Error::InvalidUtf8)));
    assert_eq!(count.get(), 1);
    drop(r);
    assert_eq!(count.get(), 1);
}

#[test]
fn command_line_is_joined_by_single_spaces() {
    assert_eq!(command_buffer("seek", &["5", "relative"]), Ok(b"seek 5 relative\0".to_vec()));
    assert_eq!(command_buffer("playlist-clear", &[]), Ok(b"playlist-clear\0".to_vec()));
    assert_eq!(command_buffer("show-text", &["a\0b"]), Err(Error::Null));
    let mut c = CommandArgs::new("seek");
    c.arg("5");
    c.arg("relative");
    assert_eq!(c.text(), b"seek 5 relative".to_vec());
}

#[test]
fn numbers_and_quotes_in_commands() {
    assert_eq!(CommandArgs::add_property("volume", -5).text(), b"add volume -5".to_vec());
    assert_eq!(
        CommandArgs::add_property("x", isize::MIN).text(),
        format!("add x {}", isize::MIN).into_bytes()
    );
    assert_eq!(
        CommandArgs::multiply_property("speed", usize::MAX).text(),
        format!("multiply speed {}", usize::MAX).into_bytes()
    );
    assert_eq!(CommandArgs::cycle_property("mute", false).text(), b"cycle mute down".to_vec());
    assert_eq!(CommandArgs::seek_percent(0).text(), b"seek 0 relative-percent".to_vec());
    assert_eq!(
        CommandArgs::seek_percent_absolute(50).text(),
        b"seek 50 absolute-percent".to_vec()
    );
    assert_eq!(CommandArgs::playlist_move(1, 10).text(), b"playlist-move 1 10".to_vec());
    assert_eq!(CommandArgs::subtitle_step(-12).text(), b"sub-step -12".to_vec());
    assert_eq!(CommandArgs::subtitle_remove(None).text(), b"sub-remove".to_vec());
    assert_eq!(CommandArgs::subtitle_reload(Some(3)).text(), b"sub-reload 3".to_vec());
    assert_eq!(
        CommandArgs::screenshot_window(Some("/tmp/a b.png")).text(),
        b"screenshot \"/tmp/a b.png\" window".to_vec()
    );
    assert_eq!(CommandArgs::screenshot_video(None).text(), b"screenshot video".to_vec());
    assert_eq!(
        CommandArgs::playlist_load_list("l.m3u", false).buffer(),
        Ok(b"loadlist \"l.m3u\" append\0".to_vec())
    );
}

#[test]
fn subtitle_and_loadfile_commands() {
    assert_eq!(
        CommandArgs::subtitle_add_select("s.srt", Some("Eng"), Some("en")).text(),
        b"sub-add \"s.srt\" select Eng en".to_vec()
    );
    assert_eq!(
        CommandArgs::subtitle_add_auto("s.srt", Some("Eng"), None).text(),
        b"sub-add \"s.srt\" auto Eng".to_vec()
    );
    assert_eq!(
        CommandArgs::subtitle_add_cached("s.srt").text(),
        b"sub-add \"s.srt\" cached".to_vec()
    );
    assert_eq!(FileState::AppendPlay.val(), "append-play");
    assert_eq!(FileState::Replace.val(), "replace");
    assert_eq!(FileState::Append.val(), "append");
    assert_eq!(
        loadfile_command("a.mkv", FileState::Append, Some("start=5")).text(),
        b"loadfile \"a.mkv\" append start=5".to_vec()
    );
    assert_eq!(
        loadfile_command("a.mkv", FileState::Replace, None).text(),
        b"loadfile \"a.mkv\" replace ".to_vec()
    );
}

#[test]
fn event_id_lists() {
    assert_eq!(mpv::deprecated_event_ids(), vec![9, 10, 12, 13, 15, 19, 23]);
    let enabled: Vec<u32> =
        (1..9).chain(11..12).chain(14..15).chain(16..19).chain(20..23).chain(23..26).collect();
    assert_eq!(mpv::enabled_event_ids(), enabled);
    assert_eq!(mpv::all_event_ids(), (1..26).collect::<Vec<u32>>());
}
