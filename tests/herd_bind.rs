use herd_bind::address::{Address, Family};
use herd_bind::bind_loop::{BindLoop, LoopAction, LoopEnd, LoopEvent, Phase};
use herd_bind::herd::{Herd, Report, HERD_SIZE};
use herd_bind::opener::{open_socket, OpenStage};
use herd_bind::resolver::{interface_index, PREFERRED_INTERFACE};
use herd_bind::strategy::{
    startup_message, strategy_for_args, RuntimeConfig, Strategy, DIRECT_MESSAGE,
    OFFLOADED_MESSAGE,
};
use socket2::Domain;

fn is_loopback_open(a: LoopAction) -> bool {
    match a {
        LoopAction::Open(Address::V4 { octets, port }) => octets == [127, 0, 0, 1] && port == 0,
        _ => false,
    }
}

#[test]
fn no_argument_selects_direct() {
    let s = strategy_for_args(1);
    assert_eq!(s, Strategy::Direct);
    assert_eq!(startup_message(s), "Opening socket without tokio::task::spawn_blocking");
    assert_eq!(strategy_for_args(0), Strategy::Direct);
}

#[test]
fn one_argument_selects_offloaded() {
    let s = strategy_for_args(2);
    assert_eq!(s, Strategy::Offloaded);
    assert_eq!(startup_message(s), "Opening socket with tokio::task::spawn_blocking");
    assert_eq!(strategy_for_args(5), Strategy::Offloaded);
    assert_ne!(DIRECT_MESSAGE, OFFLOADED_MESSAGE);
}

#[test]
fn runtime_has_two_workers_and_one_blocking_slot() {
    let c = RuntimeConfig::benchmark();
    assert_eq!(c.worker_threads, 2);
    assert_eq!(c.max_blocking_threads, 1);
}

#[test]
fn zero_index_means_no_interface() {
    assert_eq!(interface_index(0), None);
    assert_eq!(interface_index(3), Some(3));
    assert_eq!(interface_index(u32::MAX), Some(u32::MAX));
    assert_eq!(PREFERRED_INTERFACE, "en0");
}

#[test]
fn loopback_address_has_port_zero() {
    let a = Address::loopback_ephemeral();
    assert_eq!(a, Address::V4 { octets: [127, 0, 0, 1], port: 0 });
    assert_eq!(a.family(), Family::V4);
    assert_eq!(a.port(), 0);
    let b = Address::V6 { segments: [0, 0, 0, 0, 0, 0, 0, 1], port: 9 };
    assert_eq!(b.family(), Family::V6);
    assert_eq!(b.port(), 9);
}

#[test]
fn opens_nonblocking_datagram_socket_without_interface() {
    let addr = Address::loopback_ephemeral();
    let socket = open_socket(&addr, None).expect("socket opens without an interface");
    assert!(socket.nonblocking().unwrap());
    assert_eq!(socket.domain().unwrap(), Domain::IPV4);
}

#[test]
fn missing_interface_fails_at_device_binding() {
    let addr = Address::loopback_ephemeral();
    match open_socket(&addr, Some(u32::MAX - 7)) {
        Ok(_) => panic!("binding to a missing interface succeeded"),
        Err(f) => {
            assert_eq!(f.stage, OpenStage::BindDevice);
            let e = f.into_io_error();
            assert!(e.raw_os_error().is_some());
        }
    }
}

#[test]
fn resolved_absence_skips_binding_and_still_opens() {
    let device = interface_index(0);
    assert_eq!(device, None);
    let addr = Address::loopback_ephemeral();
    for _ in 0..64 {
        let socket = open_socket(&addr, device).expect("absence of the interface is not fatal");
        assert!(socket.nonblocking().unwrap());
    }
}

#[test]
fn capped_loop_completes_its_cycles() {
    let mut m = BindLoop::new(Some(3));
    let mut opens = 1;
    assert!(is_loopback_open(m.first_action()));
    for cycle in 0..3u64 {
        assert_eq!(m.step(LoopEvent::Opened), LoopAction::Adopt);
        assert_eq!(m.step(LoopEvent::Adopted), LoopAction::Release);
        let next = m.step(LoopEvent::Released);
        assert_eq!(m.completed, cycle + 1);
        if cycle < 2 {
            assert!(is_loopback_open(next));
            opens += 1;
        } else {
            assert_eq!(next, LoopAction::Stop(LoopEnd::CapReached));
        }
    }
    assert_eq!(opens, 3);
    assert_eq!(m.phase, Phase::Terminated(LoopEnd::CapReached));
}

#[test]
fn capped_loop_with_real_sockets_does_not_leak() {
    let cycles: u64 = 4096;
    let mut m = BindLoop::new(Some(cycles));
    let mut action = m.first_action();
    let mut opened = None;
    let mut adopted = None;
    loop {
        let event = match action {
            LoopAction::Open(addr) => match open_socket(&addr, None) {
                Ok(s) => {
                    opened = Some(s);
                    LoopEvent::Opened
                }
                Err(_) => LoopEvent::OpenFailed,
            },
            LoopAction::Adopt => {
                adopted = opened.take();
                LoopEvent::Adopted
            }
            LoopAction::Release => {
                drop(adopted.take());
                LoopEvent::Released
            }
            LoopAction::Stop(end) => {
                assert_eq!(end, LoopEnd::CapReached);
                break;
            }
            LoopAction::Ignore => panic!("event out of phase"),
        };
        action = m.step(event);
    }
    assert_eq!(m.completed, cycles);
}

#[test]
fn open_failure_stops_the_loop() {
    let mut m = BindLoop::new(None);
    assert_eq!(m.step(LoopEvent::OpenFailed), LoopAction::Stop(LoopEnd::OpenFailed));
    assert_eq!(m.phase, Phase::Terminated(LoopEnd::OpenFailed));
    assert_eq!(m.step(LoopEvent::Opened), LoopAction::Ignore);
    assert_eq!(m.first_action(), LoopAction::Stop(LoopEnd::OpenFailed));
}

#[test]
fn adopt_failure_stops_the_loop() {
    let mut m = BindLoop::new(None);
    assert_eq!(m.step(LoopEvent::Opened), LoopAction::Adopt);
    assert_eq!(m.step(LoopEvent::AdoptFailed), LoopAction::Stop(LoopEnd::AdoptFailed));
    assert_eq!(m.completed, 0);
}

#[test]
fn uncapped_loop_keeps_opening() {
    let mut m = BindLoop::new(None);
    for _ in 0..1000 {
        m.step(LoopEvent::Opened);
        m.step(LoopEvent::Adopted);
        assert!(is_loopback_open(m.step(LoopEvent::Released)));
    }
    assert_eq!(m.completed, 1000);
    assert_eq!(m.phase, Phase::Opening);
}

#[test]
fn out_of_phase_events_are_ignored() {
    let mut m = BindLoop::new(Some(2));
    assert_eq!(m.step(LoopEvent::Released), LoopAction::Ignore);
    assert_eq!(m.step(LoopEvent::Adopted), LoopAction::Ignore);
    assert_eq!(m.phase, Phase::Opening);
    assert_eq!(m.completed, 0);
}

#[test]
fn zero_cap_stops_at_once() {
    let m = BindLoop::new(Some(0));
    assert_eq!(m.first_action(), LoopAction::Stop(LoopEnd::CapReached));
}

#[test]
fn first_report_decides_the_herd() {
    let mut h = Herd::new();
    assert_eq!(h.size, HERD_SIZE);
    assert_eq!(HERD_SIZE, 1024);
    assert_eq!(h.outcome(), None);
    assert!(!h.report(1024, LoopEnd::OpenFailed));
    assert_eq!(h.outcome(), None);
    assert!(h.report(17, LoopEnd::OpenFailed));
    assert!(!h.report(3, LoopEnd::CapReached));
    assert!(!h.report(17, LoopEnd::AdoptFailed));
    assert_eq!(h.winner, Some(Report { member: 17, end: LoopEnd::OpenFailed }));
    assert_eq!(h.outcome(), Some(false));
}

#[test]
fn herd_succeeds_when_first_loop_reaches_cap() {
    let mut h = Herd::new();
    assert!(h.report(1023, LoopEnd::CapReached));
    assert_eq!(h.outcome(), Some(true));
}
