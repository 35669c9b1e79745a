use rpcx_server::{
    ConnectPlugin, ErrorKind, RegisterPlugin, SerializeFormat, Server, ServerError,
};
use std::sync::{Arc, Mutex};

type Handler = fn(&[u8], SerializeFormat) -> Result<Vec<u8>, ServerError>;

fn one(_: &[u8], _: SerializeFormat) -> Result<Vec<u8>, ServerError> {
    Ok(vec![1])
}

fn two(_: &[u8], _: SerializeFormat) -> Result<Vec<u8>, ServerError> {
    Ok(vec![2])
}

struct Recorder {
    name: &'static str,
    fails: bool,
    log: Arc<Mutex<Vec<String>>>,
}

impl Recorder {
    fn boxed(name: &'static str, fails: bool, log: &Arc<Mutex<Vec<String>>>) -> Box<Recorder> {
        Box::new(Recorder { name, fails, log: log.clone() })
    }

    fn answer(&self) -> Result<(), ServerError> {
        if self.fails {
            Err(ServerError::new(ErrorKind::Other, format!("{} refused", self.name)))
        } else {
            Ok(())
        }
    }
}

impl RegisterPlugin<Handler> for Recorder {
    fn register_fn(
        &mut self,
        service_path: &str,
        service_method: &str,
        meta: String,
        f: Handler,
    ) -> Result<(), ServerError> {
        let out = f(&[], SerializeFormat::SerializeNone).unwrap();
        self.log.lock().unwrap().push(format!(
            "{}: {}.{} [{}] {:?}",
            self.name, service_path, service_method, meta, out
        ));
        self.answer()
    }
}

impl ConnectPlugin for Recorder {
    fn on_connect(&mut self, peer: &str) -> Result<(), ServerError> {
        self.log.lock().unwrap().push(format!("{}: {}", self.name, peer));
        self.answer()
    }
}

fn refusal(name: &str) -> Result<(), ServerError> {
    Err(ServerError::new(ErrorKind::Other, format!("{} refused", name)))
}

#[test]
fn register_plugins_run_in_order_once_each_even_if_one_fails() {
    let log = Arc::new(Mutex::new(Vec::new()));
    let mut server: Server<Handler> = Server::new("127.0.0.1:0".to_string(), 2);
    server.add_register_plugin(Recorder::boxed("first", false, &log));
    server.add_register_plugin(Recorder::boxed("second", true, &log));
    server.add_register_plugin(Recorder::boxed("third", false, &log));

    let outcomes = server.register_fn(
        "Calc".to_string(),
        "Add".to_string(),
        "group=test".to_string(),
        one,
    );

    assert_eq!(
        *log.lock().unwrap(),
        vec![
            "first: Calc.Add [group=test] [1]".to_string(),
            "second: Calc.Add [group=test] [1]".to_string(),
            "third: Calc.Add [group=test] [1]".to_string(),
        ]
    );
    assert_eq!(outcomes, vec![Ok(()), refusal("second"), Ok(())]);
}

#[test]
fn a_failing_plugin_does_not_stop_the_registration() {
    let log = Arc::new(Mutex::new(Vec::new()));
    let mut server: Server<Handler> = Server::new("127.0.0.1:0".to_string(), 2);
    server.add_register_plugin(Recorder::boxed("only", true, &log));
    let outcomes = server.register_fn("Calc".to_string(), "Add".to_string(), String::new(), two);
    assert_eq!(outcomes, vec![refusal("only")]);
    let f = server.get_fn("Calc".to_string(), "Add".to_string()).unwrap();
    assert_eq!(f(&[], SerializeFormat::JSON).unwrap(), vec![2]);
}

#[test]
fn every_registration_runs_the_whole_chain_again() {
    let log = Arc::new(Mutex::new(Vec::new()));
    let mut server: Server<Handler> = Server::new("127.0.0.1:0".to_string(), 2);
    server.add_register_plugin(Recorder::boxed("a", false, &log));
    server.add_register_plugin(Recorder::boxed("b", false, &log));
    server.register_fn("S".to_string(), "x".to_string(), String::new(), one);
    server.register_fn("S".to_string(), "y".to_string(), String::new(), two);
    assert_eq!(
        *log.lock().unwrap(),
        vec![
            "a: S.x [] [1]".to_string(),
            "b: S.x [] [1]".to_string(),
            "a: S.y [] [2]".to_string(),
            "b: S.y [] [2]".to_string(),
        ]
    );
}

#[test]
fn a_server_without_plugins_reports_no_outcome() {
    let mut server: Server<Handler> = Server::new("127.0.0.1:0".to_string(), 2);
    let outcomes = server.register_fn("S".to_string(), "x".to_string(), String::new(), one);
    assert!(outcomes.is_empty());
    assert!(server.on_connect("10.0.0.1:5000").is_empty());
}

#[test]
fn connect_plugins_run_in_order_once_each_even_if_one_fails() {
    let log = Arc::new(Mutex::new(Vec::new()));
    let mut server: Server<Handler> = Server::new("127.0.0.1:0".to_string(), 2);
    server.add_connect_plugin(Recorder::boxed("first", true, &log));
    server.add_connect_plugin(Recorder::boxed("second", false, &log));
    let outcomes = server.on_connect("10.0.0.1:5000");
    assert_eq!(outcomes, vec![refusal("first"), Ok(())]);
    assert_eq!(
        *log.lock().unwrap(),
        vec!["first: 10.0.0.1:5000".to_string(), "second: 10.0.0.1:5000".to_string()]
    );
}

#[test]
fn the_two_chains_are_independent() {
    let log = Arc::new(Mutex::new(Vec::new()));
    let mut server: Server<Handler> = Server::new("127.0.0.1:0".to_string(), 2);
    server.add_register_plugin(Recorder::boxed("reg", false, &log));
    server.add_connect_plugin(Recorder::boxed("conn", false, &log));
    server.on_connect("peer");
    assert_eq!(*log.lock().unwrap(), vec!["conn: peer".to_string()]);
    server.register_fn("S".to_string(), "x".to_string(), String::new(), one);
    assert_eq!(log.lock().unwrap().len(), 2);
    assert_eq!(log.lock().unwrap()[1], "reg: S.x [] [1]");
}
