use rpcx_server::{
    worker_group_size, AcceptAction, AcceptEvent, BindOutcome, ErrorKind, Lifecycle,
    SerializeFormat, Server, ServerError,
};

type Handler = fn(&[u8], SerializeFormat) -> Result<Vec<u8>, ServerError>;

fn one(_: &[u8], _: SerializeFormat) -> Result<Vec<u8>, ServerError> {
    Ok(vec![1])
}

fn two(_: &[u8], _: SerializeFormat) -> Result<Vec<u8>, ServerError> {
    Ok(vec![2])
}

fn server(n: u32) -> Server<Handler> {
    Server::new("127.0.0.1:8972".to_string(), n)
}

#[test]
fn worker_group_size_is_the_configured_number() {
    assert_eq!(worker_group_size(1, 8), 1);
    assert_eq!(worker_group_size(3, 4), 3);
    assert_eq!(worker_group_size(u32::MAX, 1), u32::MAX);
    assert_eq!(worker_group_size(5, 0), 5);
}

#[test]
fn worker_group_size_defaults_to_twice_the_cpus() {
    assert_eq!(worker_group_size(0, 1), 2);
    assert_eq!(worker_group_size(0, 4), 8);
    assert_eq!(worker_group_size(0, 64), 128);
    assert_eq!(worker_group_size(0, 0), 0);
}

#[test]
fn worker_group_size_stops_at_the_largest_number() {
    assert_eq!(worker_group_size(0, 0x7fff_ffff), 0xffff_fffe);
    assert_eq!(worker_group_size(0, 0x8000_0000), u32::MAX);
    assert_eq!(worker_group_size(0, usize::MAX), u32::MAX);
}

#[test]
fn a_new_server_has_its_address_and_nothing_else() {
    let s = server(4);
    assert_eq!(s.addr, "127.0.0.1:8972");
    assert_eq!(s.thread_number(), 4);
    assert_eq!(s.lifecycle(), Lifecycle::Created);
    assert_eq!(s.raw_fd(), None);
    assert!(s.services.is_empty());
    assert!(s.get_fn("Calc".to_string(), "Add".to_string()).is_none());
}

#[test]
fn a_new_server_defaults_to_twice_the_cpus_of_this_machine() {
    let s = server(0);
    assert_eq!(s.thread_number() as usize, 2 * num_cpus::get());
    assert!(s.thread_number() >= 2);
}

#[test]
fn register_fn_and_get_fn_go_through_the_registry() {
    let mut s = server(1);
    s.register_fn("Calc".to_string(), "Add".to_string(), String::new(), one);
    s.register_fn("Calc".to_string(), "Mul".to_string(), String::new(), two);
    let add = s.get_fn("Calc".to_string(), "Add".to_string()).unwrap();
    let mul = s.get_fn("Calc".to_string(), "Mul".to_string()).unwrap();
    assert_eq!(add(&[], SerializeFormat::JSON).unwrap(), vec![1]);
    assert_eq!(mul(&[], SerializeFormat::JSON).unwrap(), vec![2]);
    assert!(s.get_fn("Calc".to_string(), "MissingMethod".to_string()).is_none());
    assert_eq!(s.services.len(), 2);
}

#[test]
fn register_fn_overwrites_the_handler_of_the_same_pair() {
    let mut s = server(1);
    s.register_fn("Calc".to_string(), "Add".to_string(), String::new(), one);
    s.register_fn("Calc".to_string(), "Add".to_string(), String::new(), two);
    let add = s.get_fn("Calc".to_string(), "Add".to_string()).unwrap();
    assert_eq!(add(&[], SerializeFormat::JSON).unwrap(), vec![2]);
    assert_eq!(s.services.len(), 1);
}

#[test]
fn start_records_the_handle_and_listens() {
    let mut s = server(1);
    assert_eq!(s.start(BindOutcome::Bound(7)), Ok(()));
    assert_eq!(s.lifecycle(), Lifecycle::Listening);
    assert_eq!(s.raw_fd(), Some(7));
}

#[test]
fn start_reports_an_address_that_does_not_parse() {
    let mut s = server(1);
    let r = s.start(BindOutcome::InvalidAddress("invalid socket address syntax".to_string()));
    assert_eq!(
        r,
        Err(ServerError::new(ErrorKind::Other, "invalid socket address syntax".to_string()))
    );
    assert_eq!(s.lifecycle(), Lifecycle::Created);
    assert_eq!(s.raw_fd(), None);
}

#[test]
fn start_reports_an_address_that_cannot_be_bound() {
    let mut s = server(1);
    let r = s.start(BindOutcome::BindFailed("address in use".to_string()));
    assert_eq!(r, Err(ServerError::new(ErrorKind::IO, "address in use".to_string())));
    assert_eq!(s.lifecycle(), Lifecycle::Created);
    assert_eq!(s.start(BindOutcome::Bound(3)), Ok(()));
}

#[test]
fn start_is_refused_on_a_server_that_listens_or_is_closed() {
    let mut s = server(1);
    s.start(BindOutcome::Bound(7)).unwrap();
    let again = s.start(BindOutcome::Bound(8)).unwrap_err();
    assert_eq!(again.kind(), ErrorKind::Server);
    assert_eq!(again.message(), "server was started or closed before");
    assert_eq!(s.raw_fd(), Some(7));
    assert_eq!(s.lifecycle(), Lifecycle::Listening);

    s.close();
    let late = s.start(BindOutcome::InvalidAddress("x".to_string())).unwrap_err();
    assert_eq!(late.kind(), ErrorKind::Server);
    assert_eq!(s.lifecycle(), Lifecycle::Closed);
}

#[test]
fn close_gives_the_handle_back_once() {
    let mut s = server(1);
    s.start(BindOutcome::Bound(11)).unwrap();
    assert_eq!(s.close(), Some(11));
    assert_eq!(s.lifecycle(), Lifecycle::Closed);
    assert_eq!(s.raw_fd(), None);
    assert_eq!(s.close(), None);
    assert_eq!(s.close(), None);
    assert_eq!(s.lifecycle(), Lifecycle::Closed);
}

#[test]
fn close_of_a_server_that_never_listened_gives_nothing_back() {
    let mut s = server(1);
    assert_eq!(s.close(), None);
    assert_eq!(s.lifecycle(), Lifecycle::Closed);
}

#[test]
fn close_keeps_the_registry() {
    let mut s = server(1);
    s.register_fn("Calc".to_string(), "Add".to_string(), String::new(), one);
    s.start(BindOutcome::Bound(4)).unwrap();
    s.close();
    assert!(s.get_fn("Calc".to_string(), "Add".to_string()).is_some());
    assert_eq!(s.thread_number(), 1);
}

#[test]
fn an_accepted_connection_is_served_with_the_configured_workers() {
    let s = server(6);
    assert_eq!(s.on_accept(AcceptEvent::Accepted), AcceptAction::Serve { workers: 6 });
}

#[test]
fn a_failed_accept_stops_the_loop_with_a_network_error() {
    let s = server(6);
    let action = s.on_accept(AcceptEvent::Failed("too many open files".to_string()));
    assert_eq!(
        action,
        AcceptAction::Stop(ServerError::new(ErrorKind::Network, "too many open files".to_string()))
    );
}

#[test]
fn server_error_exposes_kind_and_message() {
    let e = ServerError::new(ErrorKind::Protocol, "bad magic".to_string());
    assert_eq!(e.kind(), ErrorKind::Protocol);
    assert_eq!(e.message(), "bad magic");
    assert_eq!(e.kind, ErrorKind::Protocol);
    assert_eq!(e.message, "bad magic");
}
