use kty::auth::{code_confirmed, code_reply, publickey_checked, waiting_reply, AuthReply, InteractiveStep, State};
use kty::dashboard::{loop_step, route, screen_area, window_size, Broadcast, Event, LoopStep, Mode, Route, WindowSize};
use kty::events::{Input, Keypress};
use kty::io::WriteBuffer;
use kty::wipe::Area;
use kty::identity::Identity;
use kty::requests::{
    direct_request, egress_ended, egress_opened, forward_request, ingress_ended, pty_open, pty_request,
    remember_forward, subsystem_request, ChannelError, Channels, DirectDecision, ForwardDecision, Opening,
    PtyDecision, PtyOutcome, SubsystemDecision,
};
use kty::serve::{enabled, AddrError, Features, ListenAddr};
use kty::sftp::{close_reply, SftpState, SftpStatus};
use kty::tunnel::{Error, Kind, Lifecycle, StreamMetrics, Tunnel};

type Login = State<&'static str, u32, &'static str>;

fn who() -> Identity {
    Identity::new("dev@example.com".to_string(), vec!["admins".to_string(), "ops".to_string()])
}

fn all_features() -> Vec<Features> {
    vec![Features::Pty, Features::IngressTunnel, Features::EgressTunnel, Features::Sftp]
}

fn logged_in() -> Login {
    let mut s: Login = State::default();
    s.authenticated("client", "publickey".to_string());
    s
}

#[test]
fn code_round_trip_returns_to_the_offered_key() {
    let mut s: Login = State::default();
    assert_eq!(s.name(), "Unauthenticated");
    s.key_offered("ssh-ed25519 AAAA");
    s.code_sent(7);
    assert!(matches!(s, State::CodeSent(7, Some("ssh-ed25519 AAAA"))));
    s.code_used();
    assert!(matches!(s, State::KeyOffered("ssh-ed25519 AAAA")));
}

#[test]
fn key_survives_a_refused_identity() {
    let mut s: Login = State::default();
    s.key_offered("key");
    s.code_sent(1);
    s.code_used();
    s.invalid_identity(who());
    assert_eq!(s.name(), "InvalidIdentity");
    assert_eq!(
        s.preface(),
        "\nAuthenticated ID is invalid:\n- name: dev@example.com\n- groups: admins, ops\n--------------------\n"
    );
    s.code_sent(2);
    s.code_used();
    assert!(matches!(s, State::KeyOffered("key")));
}

#[test]
fn code_used_without_a_code_starts_over() {
    let mut s: Login = State::default();
    s.key_offered("key");
    s.code_used();
    assert!(matches!(s, State::Unauthenticated));
    let mut t: Login = State::default();
    t.code_sent(3);
    t.code_used();
    assert!(matches!(t, State::Unauthenticated));
}

#[test]
fn keyboard_interactive_steps() {
    let mut s: Login = State::default();
    assert!(matches!(s.interactive_step(), InteractiveStep::SendCode));
    assert_eq!(s.preface(), "");
    s.code_sent(1);
    assert!(matches!(s.interactive_step(), InteractiveStep::CheckCode));
    assert!(matches!(logged_in().interactive_step(), InteractiveStep::Unexpected));
    assert_eq!(logged_in().name(), "Authenticated");
}

#[test]
fn public_keys_log_in_or_offer_a_code() {
    let mut s: Login = State::default();
    let r = publickey_checked(&mut s, "key", None, "publickey".to_string());
    assert!(matches!(r, AuthReply::Reject { interactive: true }));
    assert!(matches!(s, State::KeyOffered("key")));
    let r = publickey_checked(&mut s, "key", Some("client"), "publickey".to_string());
    assert!(matches!(r, AuthReply::Accept));
    assert!(matches!(&s, State::Authenticated("client", m) if m == "publickey"));
}

#[test]
fn confirmed_codes_decide_the_login() {
    let mut s: Login = State::default();
    assert!(code_confirmed(&mut s, who(), Some("client"), "code".to_string()).is_none());
    assert!(matches!(s, State::Unauthenticated));
    s.key_offered("key");
    s.code_sent(1);
    let r = code_confirmed(&mut s, who(), None, "code".to_string());
    assert!(matches!(r, Some((AuthReply::Reject { interactive: false }, None))));
    assert!(matches!(&s, State::InvalidIdentity(id, Some("key")) if id.name == "dev@example.com"));
    s.code_sent(2);
    let r = code_confirmed(&mut s, who(), Some("client"), "code".to_string());
    assert!(matches!(r, Some((AuthReply::Accept, Some("key")))));
    assert!(matches!(&s, State::Authenticated("client", m) if m == "code"));
}

#[test]
fn replies_while_logging_in() {
    match waiting_reply(Some(403)) {
        Some(AuthReply::Partial { name, instructions, prompt }) => {
            assert_eq!(name, "");
            assert_eq!(instructions, "Waiting for activation, please try again.");
            assert_eq!(prompt, "Press Enter to continue");
        },
        _ => panic!("403 waits"),
    }
    assert!(waiting_reply(Some(500)).is_none());
    assert!(waiting_reply(None).is_none());
    match code_reply("", "QR", "https://login/x") {
        AuthReply::Partial { name, instructions, prompt } => {
            assert_eq!(name, "Welcome to KubeRift");
            assert_eq!(instructions, "\nLogin or scan the QRCode below to validate your identity:\n");
            assert_eq!(prompt, "\nQR\n\nhttps://login/x\n\nPress Enter to continue");
        },
        _ => panic!("a code asks for more"),
    }
}

#[test]
fn identities_read_with_their_groups() {
    assert_eq!(who().to_text(), "dev@example.com<groups: admins, ops>");
    assert_eq!(Identity::new("a".to_string(), vec![]).to_text(), "a<groups: >");
}

#[test]
fn channels_are_handed_out_once() {
    let mut ch: Channels<&str> = Channels::new();
    ch.opened(1, "terminal");
    ch.opened(2, "sftp");
    assert_eq!(ch.take(1), Ok("terminal"));
    assert_eq!(ch.take(1), Err(ChannelError::NotFound));
    assert!(!ch.end_of_input(1));
    assert_eq!(ch.take_for_subsystem(2), Ok("sftp"));
    assert_eq!(ch.take_for_subsystem(2), Err(ChannelError::Consumed));
    assert!(!ch.end_of_input(2));
    ch.opened(3, "sftp");
    assert_eq!(ch.take_for_subsystem(3), Ok("sftp"));
    assert!(ch.end_of_input(3));
    assert!(!ch.end_of_input(3));
}

#[test]
fn remote_forwards() {
    let f = all_features();
    let s = logged_in();
    assert!(matches!(forward_request(&vec![Features::Pty], &s, "default/web", 80), ForwardDecision::Disabled));
    assert!(matches!(forward_request(&f, &Login::default(), "default/web", 80), ForwardDecision::Unexpected));
    assert!(matches!(forward_request(&f, &s, "default/web", 70_000), ForwardDecision::BadPort));
    match forward_request(&f, &s, "localhost", 8080) {
        ForwardDecision::Localhost(t) => {
            assert_eq!(t.host(), "localhost");
            assert_eq!(t.port(), 8080);
            assert_eq!(t.kind(), Kind::Egress);
            assert_eq!(t.lifecycle(), Lifecycle::Listening);
        },
        _ => panic!("localhost is refused"),
    }
    assert!(matches!(forward_request(&f, &s, "web", 80), ForwardDecision::BadAddress(_)));
    match forward_request(&f, &s, "default/web/extra", 80) {
        ForwardDecision::Start { meta, namespace, name, port } => {
            assert_eq!(namespace, "default");
            assert_eq!(name, "web/extra");
            assert_eq!(port, 80);
            assert_eq!(meta.addr(), "default/web/extra:80");
        },
        _ => panic!("a service is published"),
    }
}

#[test]
fn local_forwards_terminals_and_subsystems() {
    let f = all_features();
    let s = logged_in();
    assert!(matches!(direct_request(&vec![], &s, "pods/default/web", 80), DirectDecision::Disabled));
    assert!(matches!(direct_request(&f, &Login::default(), "pods/default/web", 80), DirectDecision::Unexpected));
    assert!(matches!(direct_request(&f, &s, "pods/default/web", 65_536), DirectDecision::BadPort));
    match direct_request(&f, &s, "pods/default/web", 65_535) {
        DirectDecision::Open(t) => {
            assert_eq!(t.kind(), Kind::Ingress);
            assert_eq!(t.lifecycle(), Lifecycle::Active);
            assert_eq!(t.port(), 65_535);
        },
        _ => panic!("opens"),
    }
    assert!(matches!(pty_request(&vec![Features::Sftp], &s), PtyDecision::Disabled));
    assert!(matches!(pty_request(&f, &Login::default()), PtyDecision::Unexpected));
    assert!(matches!(pty_request(&f, &s), PtyDecision::Start));
    assert!(matches!(subsystem_request(&f, &Login::default(), "sftp"), SubsystemDecision::Unexpected));
    match subsystem_request(&f, &s, "scp") {
        SubsystemDecision::Unsupported(reason) => assert_eq!(reason, "unsupported subsystem: scp"),
        _ => panic!("only sftp"),
    }
    assert!(matches!(subsystem_request(&vec![Features::Pty], &s, "sftp"), SubsystemDecision::Disabled));
    assert!(matches!(subsystem_request(&f, &s, "sftp"), SubsystemDecision::Start));
}

#[test]
fn tunnel_events() {
    let meta = Tunnel::new("default/web".to_string(), 80, Kind::Egress, Lifecycle::Listening);
    assert_eq!(egress_opened(&meta).lifecycle(), Lifecycle::Active);
    assert!(matches!(egress_ended(&meta, true, 3), Some(Err(t)) if t.lifecycle() == Lifecycle::Error));
    assert!(matches!(egress_ended(&meta, false, 0), Some(Ok(t)) if t.lifecycle() == Lifecycle::Listening));
    assert!(egress_ended(&meta, false, 1).is_none());
    let ing = Tunnel::new("pods/default/web".to_string(), 80, Kind::Ingress, Lifecycle::Active);
    assert!(matches!(ingress_ended(&ing, false), Ok(t) if t.lifecycle() == Lifecycle::Inactive));
    assert!(matches!(ingress_ended(&ing, true), Err(t) if t.lifecycle() == Lifecycle::Inactive));
}

#[test]
fn tunnels_are_named_by_kind_and_address() {
    let t = Tunnel::new("localhost".to_string(), 8080, Kind::Ingress, Lifecycle::Active);
    assert_eq!(t.addr(), "localhost:8080");
    assert_eq!(t.to_text(), "Ingress<localhost:8080>");
    assert_eq!(t.row(), vec!["ingress", "localhost:8080", "Active"]);
    let same = t.copy().into_error();
    assert!(t == same);
    let other = Tunnel::new("localhost".to_string(), 8081, Kind::Ingress, Lifecycle::Active);
    assert!(t != other);
    let e = Error::with_message("refused".to_string(), t.copy());
    assert_eq!(e.message(), "refused");
    assert_eq!(e.to_text(), "Ingress<localhost:8080>: refused");
    let report = Error::new(&eyre::Report::msg("boom"), t.copy());
    assert!(report.message().contains("boom"));
    let m = StreamMetrics { resource: "pod", direction: "ingress" };
    assert_eq!(m.values(), ["pod", "ingress"]);
}

#[test]
fn listen_addresses_split_at_the_last_colon() {
    let a = ListenAddr::parse("127.0.0.1:2222").ok().unwrap();
    assert_eq!((a.ip.as_str(), a.port), ("127.0.0.1", 2222));
    let v6 = ListenAddr::parse("[::1]:22").ok().unwrap();
    assert_eq!(v6.ip, "[::1]");
    assert_eq!(ListenAddr::parse("nocolon").err(), Some(AddrError::Format));
    assert_eq!(ListenAddr::parse("host:http").err(), Some(AddrError::Port { port: "http".to_string() }));
    assert_eq!(ListenAddr::parse("0.0.0.0:22").ok().unwrap().into_parts(), ("0.0.0.0".to_string(), 22));
    assert!(enabled(&all_features(), Features::Sftp));
    assert!(!enabled(&vec![Features::Pty], Features::Sftp));
}

#[test]
fn keys_from_terminal_bytes() {
    assert_eq!(Keypress::from_bytes(b"\x1b[A"), Keypress::CursorUp);
    assert_eq!(Keypress::from_bytes(b"\x1b"), Keypress::Escape);
    assert_eq!(Keypress::from_bytes(b"\x1b[Z"), Keypress::Unknown(b"\x1b[Z".to_vec()));
    assert_eq!(Keypress::from_bytes(b"\r"), Keypress::Enter);
    assert_eq!(Keypress::from_bytes(b"\x02"), Keypress::Control('b'));
    assert_eq!(Keypress::from_bytes("é".as_bytes()), Keypress::Printable('é'));
    assert_eq!(Keypress::try_from_bytes(b""), None);
    let i = Input::from_bytes(b"q");
    assert_eq!(i.key(), &Keypress::Printable('q'));
    assert_eq!(i.raw(), b"q");
}

#[test]
fn dashboard_routes_and_modes() {
    assert_eq!(route(&Event::Input(Input::from_bytes(b"q"))), Route::Widget);
    assert_eq!(route(&Event::Render), Route::Ignore);
    assert_eq!(route(&Event::Shutdown), Route::Widget);
    let size = WindowSize { columns: 80, rows: 24, width: 0, height: 0 };
    assert_eq!(route(&Event::Resize(size)), Route::Widget);
    assert!(Event::Render.key().is_none());
    assert!(matches!(loop_step::<u8>(Broadcast::Exited), LoopStep::Stop));
    assert!(matches!(loop_step(Broadcast::Raw(5u8)), LoopStep::EnterRaw(5)));
    assert!(matches!(loop_step::<u8>(Broadcast::Consumed), LoopStep::Redraw));
    assert!(matches!(loop_step::<u8>(Broadcast::Ignored), LoopStep::Wait));
    let m: Mode<&str, u8> = Mode::UI("apex");
    let raw = m.raw(1);
    assert!(matches!(raw, Mode::Raw(1, "apex")));
    assert!(matches!(raw.raw(2), Mode::Raw(2, "apex")));
    assert!(matches!(Mode::<&str, u8>::Raw(1, "apex").ui(), Mode::UI("apex")));
}

#[test]
fn sftp_reads_once_per_open() {
    let mut s = SftpState::default();
    assert_eq!(s.read(), Err(SftpStatus::Eof));
    s.open();
    assert_eq!(s.read(), Ok(()));
    assert_eq!(s.read(), Err(SftpStatus::Eof));
    s.opendir();
    assert_eq!(s.read(), Err(SftpStatus::Eof));
    assert_eq!(s.readdir(), Ok(()));
    assert_eq!(s.readdir(), Err(SftpStatus::Eof));
    let r = close_reply(9);
    assert_eq!((r.id, r.status, r.message.as_str(), r.language.as_str()), (9, SftpStatus::Done, "Ok", "en-US"));
}

#[test]
fn window_sizes_keep_sixteen_bits() {
    let w = window_size(80, 24, 0, 70_000);
    assert_eq!(w, WindowSize { columns: 80, rows: 24, width: 0, height: 4_464 });
}

#[test]
fn the_screen_is_the_whole_window() {
    let a = screen_area(WindowSize { columns: 120, rows: 40, width: 1, height: 2 });
    assert_eq!(a, Area { x: 0, y: 0, width: 120, height: 40 });
}

#[test]
fn flushes_send_what_was_written() {
    let mut w = WriteBuffer::new();
    assert_eq!(w.write(b"ab"), 2);
    assert_eq!(w.write(b""), 0);
    assert_eq!(w.write(b"cd"), 2);
    assert_eq!(w.flush(), b"abcd".to_vec());
    assert!(w.flush().is_empty());
}

#[test]
fn egress_to_a_service_as_documented() {
    match forward_request(&all_features(), &logged_in(), "default/kty", 8080) {
        ForwardDecision::Start { namespace, name, port, .. } => {
            assert_eq!((namespace.as_str(), name.as_str(), port), ("default", "kty", 8080));
        },
        _ => panic!("the service is published"),
    }
}

#[test]
fn a_new_terminal_gets_its_size_then_the_pending_tunnel() {
    let f = all_features();
    let s = logged_in();
    let mut pending: Option<Tunnel> = None;
    remember_forward(&forward_request(&f, &s, "default/web", 8080), &mut pending);
    assert_eq!(pending.as_ref().map(|t| t.addr()), Some("default/web:8080".to_string()));
    remember_forward(&forward_request(&f, &s, "default/web", 70_000), &mut pending);
    assert_eq!(pending.as_ref().map(|t| t.addr()), Some("default/web:8080".to_string()));

    let mut ch: Channels<&str> = Channels::new();
    ch.opened(1, "terminal");
    assert!(matches!(pty_open(&vec![Features::Sftp], &s, &mut ch, &mut pending, 1, 80, 24, 0, 0), PtyOutcome::Disabled));
    assert!(matches!(pty_open(&f, &Login::default(), &mut ch, &mut pending, 1, 80, 24, 0, 0), PtyOutcome::Unexpected));
    assert!(matches!(pty_open(&f, &s, &mut ch, &mut pending, 9, 80, 24, 0, 0), PtyOutcome::Channel(ChannelError::NotFound)));
    assert!(pending.is_some());
    match pty_open(&f, &s, &mut ch, &mut pending, 1, 80, 24, 70_000, 5) {
        PtyOutcome::Start { channel, events } => {
            assert_eq!(channel, "terminal");
            assert_eq!(events.len(), 2);
            assert!(matches!(events[0], Opening::Resize(WindowSize { columns: 80, rows: 24, width: 4_464, height: 5 })));
            assert!(matches!(&events[1], Opening::Tunnel(t) if t.addr() == "default/web:8080"));
        },
        _ => panic!("the dashboard starts"),
    }
    assert!(pending.is_none());
    ch.opened(2, "second");
    match pty_open(&f, &s, &mut ch, &mut pending, 2, 100, 40, 0, 0) {
        PtyOutcome::Start { events, .. } => {
            assert_eq!(events.len(), 1);
            assert!(matches!(events[0], Opening::Resize(WindowSize { columns: 100, rows: 40, .. })));
        },
        _ => panic!("the dashboard starts"),
    }
}
