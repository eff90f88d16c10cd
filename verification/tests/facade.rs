use packet_ring::afpacket::afpacket::{
    RingDirection, State, TPacket, TPacketVersion, PACKET_RX_RING, PACKET_STATISTICS,
    PACKET_TX_RING, PACKET_VERSION,
};
use packet_ring::afpacket::error::Error;
use packet_ring::afpacket::kernel::{Answer, Reply, Request, Step};
use packet_ring::afpacket::ring::{Mapping, RingOptions, RingRequest, TPacketReq, TPacketReq3};
use packet_ring::afpacket::stats::Statistics;
use std::cell::{Cell, RefCell};
use std::time::Duration;

const FD: i32 = 11;
const ADDR: i64 = 0x7f12_3456_7000;
const EINVAL: i32 = 22;
const ENOMEM: i32 = 12;

fn returned(ret: i64) -> Reply {
    Reply { ret, errno: 0, words: vec![] }
}

fn failed(errno: i32) -> Reply {
    Reply { ret: -1, errno, words: vec![] }
}

fn counted(words: [u32; 3]) -> Reply {
    Reply { ret: 0, errno: 0, words: words.to_vec() }
}

/// Runs an operation to its end against `kernel`, and writes down every
/// request that it makes.
fn drive<T>(
    mut operation: impl FnMut(Option<Answer>) -> Step<T>,
    kernel: impl Fn(&Request) -> Reply,
    log: &RefCell<Vec<Request>>,
) -> Result<T, Error> {
    let mut event = None;
    loop {
        match operation(event) {
            Step::Call(request) => {
                log.borrow_mut().push(request.clone());
                let reply = kernel(&request);
                event = Some(Answer { request, reply });
            }
            Step::Done(result) => return result,
        }
    }
}

fn facade() -> TPacket {
    let log = RefCell::new(Vec::new());
    let facade = drive(TPacket::new, |_| returned(FD as i64), &log).unwrap();
    assert_eq!(*log.borrow(), vec![Request::Socket]);
    facade
}

fn facade_under(version: TPacketVersion) -> TPacket {
    let mut facade = facade();
    let log = RefCell::new(Vec::new());
    assert_eq!(drive(|event| facade.set_version(version, event), |_| returned(0), &log), Ok(version));
    facade
}

/// A kernel that knows the versions up to `ceiling` and refuses the others.
fn kernel_up_to(ceiling: i32) -> impl Fn(&Request) -> Reply {
    move |request: &Request| match request {
        Request::SetOption { fd, option, value } => {
            assert_eq!((*fd, *option), (FD, PACKET_VERSION));
            assert_eq!(value.len(), 1);
            if value[0] as i32 <= ceiling {
                returned(0)
            } else {
                failed(EINVAL)
            }
        }
        other => panic!("not asked for: {:?}", other),
    }
}

fn version_request(version: TPacketVersion) -> Request {
    Request::SetOption { fd: FD, option: PACKET_VERSION, value: vec![version.code() as u32] }
}

#[test]
fn option_numbers() {
    assert_eq!(PACKET_RX_RING, 5);
    assert_eq!(PACKET_STATISTICS, 6);
    assert_eq!(PACKET_VERSION, 10);
    assert_eq!(PACKET_TX_RING, 13);
    assert_eq!(RingDirection::RX.option(), 5);
    assert_eq!(RingDirection::TX.option(), 13);
    assert_eq!(TPacketVersion::V1.code(), 0);
    assert_eq!(TPacketVersion::V2.code(), 1);
    assert_eq!(TPacketVersion::V3.code(), 2);
}

#[test]
fn fallback_goes_one_version_down() {
    assert_eq!(TPacketVersion::V3.fallback(), Some(TPacketVersion::V2));
    assert_eq!(TPacketVersion::V2.fallback(), Some(TPacketVersion::V1));
    assert_eq!(TPacketVersion::V1.fallback(), None);
}

#[test]
fn new_facade_starts_under_version_one() {
    let facade = facade();
    assert_eq!(facade.fd(), FD);
    assert_eq!(facade.version(), TPacketVersion::V1);
    assert_eq!(facade.timeout(), Duration::from_millis(64));
    assert_eq!(facade.mapping(), None);
    assert_eq!(facade.state(), State::Created);
}

#[test]
fn new_facade_needs_its_socket() {
    let log = RefCell::new(Vec::new());
    let refused = drive(TPacket::new, |_| failed(1), &log);
    assert!(matches!(refused, Err(Error::Os(1))));
    assert_eq!(*log.borrow(), vec![Request::Socket]);
    let stray = Answer { request: Request::Close { fd: 1 }, reply: returned(1) };
    assert!(matches!(TPacket::new(Some(stray.clone())), Step::Done(Err(Error::InvalidInput))));
}

#[test]
fn accepted_version_is_tracked() {
    let mut facade = facade();
    let log = RefCell::new(Vec::new());
    let result = drive(|event| facade.set_version(TPacketVersion::V2, event), |_| returned(0), &log);
    assert_eq!(result, Ok(TPacketVersion::V2));
    assert_eq!(facade.version(), TPacketVersion::V2);
    assert_eq!(*log.borrow(), vec![version_request(TPacketVersion::V2)]);
}

#[test]
fn refused_version_changes_nothing() {
    let mut facade = facade_under(TPacketVersion::V2);
    let log = RefCell::new(Vec::new());
    let result =
        drive(|event| facade.set_version(TPacketVersion::V3, event), |_| failed(EINVAL), &log);
    assert_eq!(result, Err(Error::Os(EINVAL)));
    assert_eq!(facade.version(), TPacketVersion::V2);
    assert_eq!(*log.borrow(), vec![version_request(TPacketVersion::V3)]);
    let stray = Answer { request: Request::Socket, reply: returned(0) };
    assert_eq!(
        facade.set_version(TPacketVersion::V3, Some(stray.clone())),
        Step::Done(Err(Error::InvalidInput))
    );
    assert_eq!(facade.version(), TPacketVersion::V2);
}

#[test]
fn negotiation_takes_the_newest_version() {
    let mut facade = facade();
    let log = RefCell::new(Vec::new());
    let result = drive(|event| facade.set_highest_version(event), kernel_up_to(2), &log);
    assert_eq!(result, Ok(TPacketVersion::V3));
    assert_eq!(facade.version(), TPacketVersion::V3);
    assert_eq!(*log.borrow(), vec![version_request(TPacketVersion::V3)]);
}

#[test]
fn negotiation_stops_at_the_ceiling() {
    let ceilings = [TPacketVersion::V1, TPacketVersion::V2, TPacketVersion::V3];
    for ceiling in ceilings {
        let mut facade = facade();
        let log = RefCell::new(Vec::new());
        let result =
            drive(|event| facade.set_highest_version(event), kernel_up_to(ceiling.code()), &log);
        assert_eq!(result, Ok(ceiling));
        assert_eq!(facade.version(), ceiling);
    }
}

#[test]
fn negotiation_degrades_in_order() {
    let mut facade = facade();
    let log = RefCell::new(Vec::new());
    let result = drive(|event| facade.set_highest_version(event), kernel_up_to(0), &log);
    assert_eq!(result, Ok(TPacketVersion::V1));
    assert_eq!(
        *log.borrow(),
        vec![
            version_request(TPacketVersion::V3),
            version_request(TPacketVersion::V2),
            version_request(TPacketVersion::V1),
        ]
    );
    let mut facade = facade_under(TPacketVersion::V1);
    let log = RefCell::new(Vec::new());
    let result = drive(|event| facade.set_highest_version(event), kernel_up_to(1), &log);
    assert_eq!(result, Ok(TPacketVersion::V2));
    assert_eq!(
        *log.borrow(),
        vec![version_request(TPacketVersion::V3), version_request(TPacketVersion::V2)]
    );
}

#[test]
fn negotiation_fails_with_the_last_error() {
    let mut facade = facade_under(TPacketVersion::V2);
    let log = RefCell::new(Vec::new());
    let kernel = |request: &Request| match request {
        Request::SetOption { value, .. } => failed(100 + value[0] as i32),
        other => panic!("not asked for: {:?}", other),
    };
    let result = drive(|event| facade.set_highest_version(event), kernel, &log);
    assert_eq!(result, Err(Error::Os(100)));
    assert_eq!(facade.version(), TPacketVersion::V2);
    assert_eq!(log.borrow().len(), 3);
}

#[test]
fn negotiation_ignores_what_older_versions_would_say() {
    let mut facade = facade();
    let log = RefCell::new(Vec::new());
    let kernel = |request: &Request| match request {
        Request::SetOption { value, .. } if value[..] == [2] => returned(0),
        _ => failed(EINVAL),
    };
    assert_eq!(
        drive(|event| facade.set_highest_version(event), kernel, &log),
        Ok(TPacketVersion::V3)
    );
    assert_eq!(log.borrow().len(), 1);
}

#[test]
fn version_takes_only_the_answer_to_its_own_request() {
    let mut facade = facade();
    let other = Answer { request: version_request(TPacketVersion::V3), reply: returned(0) };
    assert_eq!(
        facade.set_version(TPacketVersion::V2, Some(other.clone())),
        Step::Done(Err(Error::InvalidInput))
    );
    assert_eq!(facade.version(), TPacketVersion::V1);
    let elsewhere = Request::SetOption { fd: FD + 1, option: PACKET_VERSION, value: vec![2] };
    assert_eq!(
        facade.set_highest_version(Some(Answer { request: elsewhere.clone(), reply: returned(0) })),
        Step::Done(Err(Error::InvalidInput))
    );
    assert_eq!(facade.version(), TPacketVersion::V1);
}

#[test]
fn negotiation_does_not_fall_back_on_what_is_no_status() {
    let mut facade = facade();
    let log = RefCell::new(Vec::new());
    let result = drive(|event| facade.set_highest_version(event), |_| returned(1 << 40), &log);
    assert_eq!(result, Err(Error::InvalidInput));
    assert_eq!(*log.borrow(), vec![version_request(TPacketVersion::V3)]);
    assert_eq!(facade.version(), TPacketVersion::V1);
}

#[test]
fn negotiation_refuses_a_stray_answer() {
    let mut facade = facade();
    let stray = Answer { request: Request::MapRing { fd: FD, length: 1 }, reply: returned(0) };
    assert_eq!(facade.set_highest_version(Some(stray.clone())), Step::Done(Err(Error::InvalidInput)));
    assert_eq!(facade.version(), TPacketVersion::V1);
}

#[test]
fn statistics_under_version_three() {
    let facade = facade_under(TPacketVersion::V3);
    let log = RefCell::new(Vec::new());
    let result = drive(|event| facade.get_statistics(event), |_| counted([100, 5, 2]), &log);
    assert_eq!(result, Ok(Statistics { packets: 100, drops: 5, queue_freezes: 2 }));
    assert_eq!(
        *log.borrow(),
        vec![Request::GetOption { fd: FD, option: PACKET_STATISTICS, words: 3 }]
    );
}

#[test]
fn statistics_under_older_versions() {
    for version in [TPacketVersion::V1, TPacketVersion::V2] {
        let facade = facade_under(version);
        let log = RefCell::new(Vec::new());
        let result = drive(|event| facade.get_statistics(event), |_| counted([100, 5, 0]), &log);
        assert_eq!(result, Ok(Statistics { packets: 100, drops: 5, queue_freezes: 0 }));
        let result = drive(|event| facade.get_statistics(event), |_| counted([100, 5, 9]), &log);
        assert_eq!(result, Ok(Statistics { packets: 100, drops: 5, queue_freezes: 0 }));
        assert_eq!(
            log.borrow()[0],
            Request::GetOption { fd: FD, option: PACKET_STATISTICS, words: 2 }
        );
    }
}

#[test]
fn statistics_read_can_fail() {
    let facade = facade();
    let log = RefCell::new(Vec::new());
    let result = drive(|event| facade.get_statistics(event), |_| failed(9), &log);
    assert_eq!(result, Err(Error::Os(9)));
    let stray = Answer { request: Request::Socket, reply: counted([1, 2, 3]) };
    assert_eq!(facade.get_statistics(Some(stray.clone())), Step::Done(Err(Error::InvalidInput)));
}

#[test]
fn statistics_are_read_anew_each_time() {
    let facade = facade_under(TPacketVersion::V3);
    let packets = Cell::new(40);
    let kernel = |_: &Request| {
        let reply = counted([packets.get(), 0, 0]);
        packets.set(0);
        reply
    };
    let log = RefCell::new(Vec::new());
    let first = drive(|event| facade.get_statistics(event), kernel, &log).unwrap();
    let second = drive(|event| facade.get_statistics(event), kernel, &log).unwrap();
    assert_eq!(first.packets, 40);
    assert_eq!(second.packets, 0);
    assert_eq!(log.borrow().len(), 2);
}

#[test]
fn ring_under_version_three_is_mapped() {
    let mut facade = facade_under(TPacketVersion::V3);
    let options = RingOptions::default();
    let log = RefCell::new(Vec::new());
    let kernel = |request: &Request| match request {
        Request::MapRing { .. } => returned(ADDR),
        Request::GetOption { .. } => counted([3, 1, 0]),
        _ => returned(0),
    };
    let result = drive(|event| facade.setup_ring(RingDirection::RX, &options, event), kernel, &log);
    assert_eq!(result, Ok(()));
    assert_eq!(
        *log.borrow(),
        vec![
            Request::SetOption {
                fd: FD,
                option: PACKET_RX_RING,
                value: vec![2048, 160000, 262144, 128, 64, 0, 0],
            },
            Request::MapRing { fd: FD, length: 33554432 },
            Request::GetOption { fd: FD, option: PACKET_STATISTICS, words: 3 },
        ]
    );
    assert_eq!(facade.mapping(), Some(Mapping { addr: ADDR as usize, length: 33554432 }));
    assert_eq!(facade.state(), State::Mapped);
}

#[test]
fn ring_under_older_versions_is_only_configured() {
    for version in [TPacketVersion::V1, TPacketVersion::V2] {
        let mut facade = facade_under(version);
        let options = RingOptions::default();
        let log = RefCell::new(Vec::new());
        let result =
            drive(|event| facade.setup_ring(RingDirection::TX, &options, event), |_| returned(0), &log);
        assert_eq!(result, Ok(()));
        assert_eq!(
            *log.borrow(),
            vec![Request::SetOption {
                fd: FD,
                option: PACKET_TX_RING,
                value: vec![262144, 128, 2048, 160000],
            }]
        );
        assert_eq!(facade.mapping(), None);
        assert_eq!(facade.state(), State::Configured);
    }
}

#[test]
fn refused_ring_request_leaves_the_facade_as_created() {
    for version in [TPacketVersion::V1, TPacketVersion::V3] {
        let mut facade = facade_under(version);
        let options = RingOptions::default();
        let log = RefCell::new(Vec::new());
        let result = drive(
            |event| facade.setup_ring(RingDirection::RX, &options, event),
            |_| failed(EINVAL),
            &log,
        );
        assert_eq!(result, Err(Error::Os(EINVAL)));
        assert_eq!(log.borrow().len(), 1);
        assert_eq!(facade.state(), State::Created);
        assert_eq!(facade.mapping(), None);
    }
}

#[test]
fn failed_mapping_is_not_rolled_back() {
    let mut facade = facade_under(TPacketVersion::V3);
    let options = RingOptions::default();
    let log = RefCell::new(Vec::new());
    let kernel = |request: &Request| match request {
        Request::MapRing { .. } => failed(ENOMEM),
        Request::GetOption { .. } => counted([100, 5, 2]),
        _ => returned(0),
    };
    let result = drive(|event| facade.setup_ring(RingDirection::RX, &options, event), kernel, &log);
    assert_eq!(result, Err(Error::Os(ENOMEM)));
    assert_eq!(log.borrow().len(), 2);
    assert!(matches!(log.borrow()[0], Request::SetOption { option: PACKET_RX_RING, .. }));
    assert!(matches!(log.borrow()[1], Request::MapRing { .. }));
    assert_eq!(facade.state(), State::Configured);
    assert_eq!(facade.mapping(), None);
    assert_eq!(facade.version(), TPacketVersion::V3);
    let statistics = drive(|event| facade.get_statistics(event), kernel, &log);
    assert_eq!(statistics, Ok(Statistics { packets: 100, drops: 5, queue_freezes: 2 }));
}

#[test]
fn failed_baseline_read_keeps_the_mapping() {
    let mut facade = facade_under(TPacketVersion::V3);
    let options = RingOptions::default();
    let log = RefCell::new(Vec::new());
    let kernel = |request: &Request| match request {
        Request::MapRing { .. } => returned(ADDR),
        Request::GetOption { .. } => failed(5),
        _ => returned(0),
    };
    let result = drive(|event| facade.setup_ring(RingDirection::RX, &options, event), kernel, &log);
    assert_eq!(result, Err(Error::Os(5)));
    assert_eq!(log.borrow().len(), 3);
    assert_eq!(facade.state(), State::Mapped);
    assert_eq!(facade.mapping(), Some(Mapping { addr: ADDR as usize, length: 33554432 }));
}

#[test]
fn setup_refuses_a_stray_answer() {
    let mut facade = facade_under(TPacketVersion::V3);
    let options = RingOptions::default();
    let stray = Answer { request: Request::Socket, reply: returned(0) };
    assert_eq!(
        facade.setup_ring(RingDirection::RX, &options, Some(stray.clone())),
        Step::Done(Err(Error::InvalidInput))
    );
    assert_eq!(facade.state(), State::Created);
}

#[test]
fn closing_unmaps_before_it_closes() {
    let mut facade = facade_under(TPacketVersion::V3);
    let options = RingOptions::default();
    let log = RefCell::new(Vec::new());
    let kernel = |request: &Request| match request {
        Request::MapRing { .. } => returned(ADDR),
        _ => returned(0),
    };
    drive(|event| facade.setup_ring(RingDirection::RX, &options, event), kernel, &log).unwrap();
    log.borrow_mut().clear();
    assert_eq!(drive(|event| facade.close(event), kernel, &log), Ok(()));
    assert_eq!(
        *log.borrow(),
        vec![
            Request::UnmapRing { addr: ADDR as usize, length: 33554432 },
            Request::Close { fd: FD },
        ]
    );
    assert_eq!(facade.mapping(), None);
    assert_eq!(facade.state(), State::Closed);
    assert_eq!(facade.fd(), -1);
    log.borrow_mut().clear();
    assert_eq!(drive(|event| facade.close(event), kernel, &log), Ok(()));
    assert!(log.borrow().is_empty());
}

#[test]
fn closing_without_a_ring_closes_the_socket() {
    let mut facade = facade();
    let log = RefCell::new(Vec::new());
    assert_eq!(drive(|event| facade.close(event), |_| failed(5), &log), Err(Error::Os(5)));
    assert_eq!(*log.borrow(), vec![Request::Close { fd: FD }]);
    assert_eq!(facade.state(), State::Closed);
}

#[test]
fn failed_unmapping_closes_nothing() {
    let mut facade = facade_under(TPacketVersion::V3);
    let options = RingOptions::default();
    let log = RefCell::new(Vec::new());
    let kernel = |request: &Request| match request {
        Request::MapRing { .. } => returned(ADDR),
        Request::UnmapRing { .. } => failed(EINVAL),
        _ => returned(0),
    };
    drive(|event| facade.setup_ring(RingDirection::RX, &options, event), kernel, &log).unwrap();
    log.borrow_mut().clear();
    assert_eq!(drive(|event| facade.close(event), kernel, &log), Err(Error::Os(EINVAL)));
    assert_eq!(log.borrow().len(), 1);
    assert_eq!(facade.state(), State::Mapped);
    assert_eq!(facade.fd(), FD);
    let early = Answer { request: Request::Close { fd: FD }, reply: returned(0) };
    assert_eq!(facade.close(Some(early.clone())), Step::Done(Err(Error::InvalidInput)));
    assert_eq!(facade.fd(), FD);
    assert!(facade.mapping().is_some());
}

fn ring_request(version: TPacketVersion, options: &RingOptions) -> Request {
    let request = match version {
        TPacketVersion::V3 => RingRequest::Newer(TPacketReq3::from(options)),
        _ => RingRequest::Older(TPacketReq::from(options)),
    };
    Request::SetOption { fd: FD, option: PACKET_RX_RING, value: request.words() }
}

#[test]
fn mapping_answer_counts_only_under_version_three() {
    let options = RingOptions::default();
    let mapped =
        Answer { request: Request::MapRing { fd: FD, length: 33554432 }, reply: returned(ADDR) };
    let read = Answer {
        request: Request::GetOption { fd: FD, option: PACKET_STATISTICS, words: 2 },
        reply: counted([1, 2, 0]),
    };
    for version in [TPacketVersion::V1, TPacketVersion::V2] {
        let mut facade = facade_under(version);
        for event in [mapped.clone(), read.clone()] {
            assert_eq!(
                facade.setup_ring(RingDirection::RX, &options, Some(event.clone())),
                Step::Done(Err(Error::InvalidInput))
            );
            assert_eq!(facade.state(), State::Created);
            assert_eq!(facade.mapping(), None);
        }
        let accepted = Answer { request: ring_request(version, &options), reply: returned(0) };
        assert_eq!(
            facade.setup_ring(RingDirection::RX, &options, Some(accepted.clone())),
            Step::Done(Ok(()))
        );
        for event in [mapped.clone(), read.clone()] {
            assert_eq!(
                facade.setup_ring(RingDirection::RX, &options, Some(event.clone())),
                Step::Done(Err(Error::InvalidInput))
            );
            assert_eq!(facade.state(), State::Configured);
            assert_eq!(facade.mapping(), None);
        }
    }
}

#[test]
fn mapping_answer_counts_only_after_the_ring_request() {
    let options = RingOptions::default();
    let mut facade = facade_under(TPacketVersion::V3);
    let map = Request::MapRing { fd: FD, length: 33554432 };
    let read = Request::GetOption { fd: FD, option: PACKET_STATISTICS, words: 3 };
    let mapped = Answer { request: map.clone(), reply: returned(ADDR) };
    let counters = Answer { request: read.clone(), reply: counted([1, 2, 3]) };
    for event in [mapped.clone(), counters.clone()] {
        assert_eq!(
            facade.setup_ring(RingDirection::RX, &options, Some(event.clone())),
            Step::Done(Err(Error::InvalidInput))
        );
        assert_eq!(facade.state(), State::Created);
    }
    let accepted =
        Answer { request: ring_request(TPacketVersion::V3, &options), reply: returned(0) };
    assert_eq!(facade.setup_ring(RingDirection::RX, &options, Some(accepted.clone())), Step::Call(map.clone()));
    assert_eq!(
        facade.setup_ring(RingDirection::RX, &options, Some(counters.clone())),
        Step::Done(Err(Error::InvalidInput))
    );
    assert_eq!(facade.state(), State::Configured);
    assert_eq!(facade.setup_ring(RingDirection::RX, &options, Some(mapped.clone())), Step::Call(read.clone()));
    assert_eq!(facade.state(), State::Mapped);
    assert_eq!(
        facade.setup_ring(RingDirection::RX, &options, Some(counters.clone())),
        Step::Done(Ok(()))
    );
}

#[test]
fn setup_takes_only_the_answer_to_its_own_ring_request() {
    let options = RingOptions::default();
    let mut facade = facade_under(TPacketVersion::V3);
    let strays = [
        version_request(TPacketVersion::V3),
        ring_request(TPacketVersion::V1, &options),
        Request::SetOption {
            fd: FD,
            option: PACKET_TX_RING,
            value: RingRequest::Newer(TPacketReq3::from(&options)).words(),
        },
        Request::MapRing { fd: FD, length: 4096 },
    ];
    for request in strays {
        assert_eq!(
            facade.setup_ring(
                RingDirection::RX,
                &options,
                Some(Answer { request: request.clone(), reply: returned(0) })
            ),
            Step::Done(Err(Error::InvalidInput))
        );
        assert_eq!(facade.state(), State::Created);
    }
}

#[test]
fn failed_mapping_returns_its_error_on_a_closed_facade_too() {
    let mut facade = facade_under(TPacketVersion::V3);
    let options = RingOptions::default();
    let log = RefCell::new(Vec::new());
    drive(|event| facade.close(event), |_| returned(0), &log).unwrap();
    assert_eq!(facade.state(), State::Closed);
    log.borrow_mut().clear();
    let kernel = |request: &Request| match request {
        Request::MapRing { .. } => failed(ENOMEM),
        _ => returned(0),
    };
    let result = drive(|event| facade.setup_ring(RingDirection::RX, &options, event), kernel, &log);
    assert_eq!(result, Err(Error::Os(ENOMEM)));
    assert_eq!(log.borrow().len(), 2);
    assert_eq!(log.borrow()[1], Request::MapRing { fd: -1, length: 33554432 });
    assert_eq!(facade.mapping(), None);
}

#[test]
fn closed_facade_takes_no_mapping() {
    let mut facade = facade_under(TPacketVersion::V3);
    let options = RingOptions::default();
    let log = RefCell::new(Vec::new());
    drive(|event| facade.close(event), |_| returned(0), &log).unwrap();
    log.borrow_mut().clear();
    let kernel = |request: &Request| match request {
        Request::MapRing { .. } => returned(ADDR),
        _ => returned(0),
    };
    let result = drive(|event| facade.setup_ring(RingDirection::RX, &options, event), kernel, &log);
    assert_eq!(result, Err(Error::InvalidInput));
    assert_eq!(log.borrow().len(), 2);
    assert_eq!(facade.mapping(), None);
    assert_eq!(facade.state(), State::Closed);
}

#[test]
fn closing_takes_only_the_answer_for_its_own_mapping() {
    let mut facade = facade_under(TPacketVersion::V3);
    let options = RingOptions::default();
    let log = RefCell::new(Vec::new());
    let kernel = |request: &Request| match request {
        Request::MapRing { .. } => returned(ADDR),
        _ => returned(0),
    };
    drive(|event| facade.setup_ring(RingDirection::RX, &options, event), kernel, &log).unwrap();
    let other = Request::UnmapRing { addr: ADDR as usize + 4096, length: 33554432 };
    assert_eq!(
        facade.close(Some(Answer { request: other.clone(), reply: returned(0) })),
        Step::Done(Err(Error::InvalidInput))
    );
    assert_eq!(facade.state(), State::Mapped);
    let own = Request::UnmapRing { addr: ADDR as usize, length: 33554432 };
    assert_eq!(
        facade.close(Some(Answer { request: own.clone(), reply: returned(0) })),
        Step::Call(Request::Close { fd: FD })
    );
    assert_eq!(facade.mapping(), None);
    assert_eq!(facade.state(), State::Configured);
}
