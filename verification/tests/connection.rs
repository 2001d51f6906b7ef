use std::cell::{Cell, RefCell};
use std::collections::VecDeque;
use std::io::ErrorKind;
use std::rc::Rc;

use gipc::connection::{Connection, Lifecycle, Listener};
use gipc::message::Message;
use gipc::transport::{ConnectionImpl, ListenerImpl};
use gipc::Error;

type Queue = Rc<RefCell<VecDeque<u8>>>;

/// One end of an in-memory duplex stream. Counts every call that reaches it.
struct Pipe {
    incoming: Queue,
    outgoing: Queue,
    calls: Rc<Cell<usize>>,
    closes: Rc<Cell<usize>>,
    broken: Rc<Cell<bool>>,
    events: Rc<RefCell<Vec<&'static str>>>,
}

impl Pipe {
    fn touch(&self, event: &'static str) {
        self.calls.set(self.calls.get() + 1);
        self.events.borrow_mut().push(event);
    }
}

impl ConnectionImpl for Pipe {
    fn read_exact(&mut self, len: u64) -> Result<Vec<u8>, std::io::Error> {
        self.touch("read");
        let mut queue = self.incoming.borrow_mut();
        if (queue.len() as u64) < len {
            queue.clear();
            return Err(std::io::Error::from(ErrorKind::UnexpectedEof));
        }
        Ok(queue.drain(..len as usize).collect())
    }

    fn write_all(&mut self, bytes: &[u8]) -> Result<(), std::io::Error> {
        self.touch("write");
        if self.broken.get() {
            return Err(std::io::Error::from(ErrorKind::BrokenPipe));
        }
        self.outgoing.borrow_mut().extend(bytes.iter().copied());
        Ok(())
    }

    fn flush(&mut self) -> Result<(), std::io::Error> {
        self.touch("flush");
        if self.broken.get() {
            return Err(std::io::Error::from(ErrorKind::BrokenPipe));
        }
        Ok(())
    }

    fn close(&mut self) {
        self.touch("close");
        self.closes.set(self.closes.get() + 1);
    }
}

/// What a test can see of one end after the connection has taken it over.
struct Probe {
    calls: Rc<Cell<usize>>,
    closes: Rc<Cell<usize>>,
    broken: Rc<Cell<bool>>,
    outgoing: Queue,
    events: Rc<RefCell<Vec<&'static str>>>,
}

fn pipe(incoming: Queue, outgoing: Queue) -> (Pipe, Probe) {
    let calls = Rc::new(Cell::new(0));
    let closes = Rc::new(Cell::new(0));
    let broken = Rc::new(Cell::new(false));
    let events = Rc::new(RefCell::new(Vec::new()));
    let probe = Probe {
        calls: calls.clone(),
        closes: closes.clone(),
        broken: broken.clone(),
        outgoing: outgoing.clone(),
        events: events.clone(),
    };
    (Pipe { incoming, outgoing, calls, closes, broken, events }, probe)
}

fn pair() -> ((Pipe, Probe), (Pipe, Probe)) {
    let up: Queue = Rc::new(RefCell::new(VecDeque::new()));
    let down: Queue = Rc::new(RefCell::new(VecDeque::new()));
    (pipe(down.clone(), up.clone()), pipe(up, down))
}

/// A listening transport that hands out the ends it was given.
struct Acceptor {
    waiting: VecDeque<Pipe>,
    calls: Rc<Cell<usize>>,
    fail_close: bool,
}

impl ListenerImpl for Acceptor {
    type Stream = Pipe;

    fn accept(&mut self) -> Result<Pipe, Error> {
        self.calls.set(self.calls.get() + 1);
        match self.waiting.pop_front() {
            Some(stream) => Ok(stream),
            None => Err(Error::Io(std::io::Error::from(ErrorKind::WouldBlock))),
        }
    }

    fn close(&mut self) -> Result<(), Error> {
        self.calls.set(self.calls.get() + 1);
        if self.fail_close {
            Err(Error::Io(std::io::Error::from(ErrorKind::Other)))
        } else {
            Ok(())
        }
    }
}

fn encode(text: &str) -> Vec<u8> {
    let mut bytes = Vec::new();
    ciborium::ser::into_writer(&text, &mut bytes).unwrap();
    bytes
}

fn decode(bytes: &[u8]) -> String {
    ciborium::de::from_reader(bytes).unwrap()
}

fn wire_of(message: Message<Vec<u8>>) -> Vec<u8> {
    gipc::message::raw::serialised_vec(&message.to_bytes())
}

#[test]
fn happy_path() {
    let ((client_end, _), (server_end, _)) = pair();
    let calls = Rc::new(Cell::new(0));
    let mut listener = Listener::new(Acceptor {
        waiting: VecDeque::from(vec![server_end]),
        calls,
        fail_close: false,
    });
    let mut client = Connection::new(client_end);
    let mut server = listener.accept().unwrap();

    server.send(&encode("Hello, client!")).unwrap();
    assert_eq!(decode(&client.receive().unwrap()), "Hello, client!");
    client.send(&encode("Hello, server!")).unwrap();
    assert_eq!(decode(&server.receive().unwrap()), "Hello, server!");

    client.close();
    server.close();
    listener.close().unwrap();
    assert!(client.is_closed());
    assert!(server.is_closed());
    assert!(listener.is_closed());
}

#[test]
fn request_and_response() {
    let ((client_end, _), (server_end, server_probe)) = pair();
    let mut client = Connection::new(client_end);
    let mut server = Connection::new(server_end);

    // the reply is on the wire before the client starts waiting for it
    server.send(&encode("sunny")).unwrap();
    let reply = client.send_and_receive(&encode("What's the weather like today?")).unwrap();
    assert_eq!(decode(&reply), "sunny");
    assert_eq!(decode(&server.receive().unwrap()), "What's the weather like today?");
    assert!(!client.is_closed());
    assert!(!server.is_closed());
    assert!(server_probe.outgoing.borrow().is_empty());
}

#[test]
fn malformed_frame_fails_the_receive_with_io() {
    let ((client_end, _), (_server_end, server_probe)) = pair();
    server_probe.outgoing.borrow_mut().extend([0u8, 0, 0, 0, 0, 0, 0, 5, 1, 2, 3]);
    let mut client = Connection::new(client_end);
    match client.receive() {
        Err(Error::Io(e)) => assert_eq!(e.kind(), ErrorKind::UnexpectedEof),
        other => panic!("expected an I/O error, got {:?}", other),
    }
    assert!(!client.is_closed());
}

#[test]
fn new_connection_is_open() {
    let ((end, probe), _) = pair();
    let connection = Connection::new(end);
    assert!(!connection.is_closed());
    assert_eq!(probe.calls.get(), 0);
}

#[test]
fn send_puts_one_frame_on_the_wire() {
    let ((end, probe), _) = pair();
    let mut connection = Connection::new(end);
    connection.send(&vec![0x05]).unwrap();
    let wire: Vec<u8> = probe.outgoing.borrow().iter().copied().collect();
    assert_eq!(wire, vec![0, 0, 0, 0, 0, 0, 0, 7, 0xa1, 0x64, b'D', b'a', b't', b'a', 0x05]);
    assert_eq!(wire, wire_of(Message::Data(vec![0x05])));
}

#[test]
fn two_sends_leave_two_whole_frames_in_order() {
    let ((end, probe), (peer_end, _)) = pair();
    let mut connection = Connection::new(end);
    let x = encode("first");
    let y = encode("second message");
    connection.send(&x).unwrap();
    connection.send(&y).unwrap();
    let wire: Vec<u8> = probe.outgoing.borrow().iter().copied().collect();
    let mut expected = wire_of(Message::Data(x.clone()));
    expected.extend(wire_of(Message::Data(y.clone())));
    assert_eq!(wire, expected);
    let mut peer = Connection::new(peer_end);
    assert_eq!(peer.receive().unwrap(), x);
    assert_eq!(peer.receive().unwrap(), y);
}

#[test]
fn close_is_idempotent() {
    let ((end, probe), _) = pair();
    let mut connection = Connection::new(end);
    connection.close();
    assert!(connection.is_closed());
    let calls = probe.calls.get();
    let wire: Vec<u8> = probe.outgoing.borrow().iter().copied().collect();
    assert_eq!(probe.closes.get(), 1);
    for _ in 0..3 {
        connection.close();
        assert!(connection.is_closed());
    }
    assert_eq!(probe.calls.get(), calls);
    assert_eq!(probe.closes.get(), 1);
    assert_eq!(probe.outgoing.borrow().iter().copied().collect::<Vec<u8>>(), wire);
}

#[test]
fn close_sends_the_shutdown_signal() {
    let ((end, probe), _) = pair();
    let mut connection = Connection::new(end);
    connection.close();
    let wire: Vec<u8> = probe.outgoing.borrow().iter().copied().collect();
    assert_eq!(wire, wire_of(Message::ClosingConnection));
    assert_eq!(wire.len(), 26);
    assert_eq!(&wire[..9], &[0, 0, 0, 0, 0, 0, 0, 18, 0x71]);
    assert_eq!(&wire[9..], b"ClosingConnection");
}

#[test]
fn close_closes_even_if_the_signal_cannot_be_sent() {
    let ((end, probe), _) = pair();
    probe.broken.set(true);
    let mut connection = Connection::new(end);
    connection.close();
    assert!(connection.is_closed());
    assert_eq!(probe.closes.get(), 1);
    assert!(probe.outgoing.borrow().is_empty());
}

#[test]
fn listener_close_is_not_idempotent() {
    let calls = Rc::new(Cell::new(0));
    let mut listener = Listener::new(Acceptor {
        waiting: VecDeque::new(),
        calls: calls.clone(),
        fail_close: false,
    });
    assert!(!listener.is_closed());
    assert!(listener.close().is_ok());
    assert!(listener.is_closed());
    assert_eq!(calls.get(), 1);
    assert!(matches!(listener.close(), Err(Error::Closed(false))));
    assert!(matches!(listener.close(), Err(Error::Closed(false))));
    assert!(listener.is_closed());
    assert_eq!(calls.get(), 1);
}

#[test]
fn listener_close_reports_the_transport_error_and_closes() {
    let calls = Rc::new(Cell::new(0));
    let mut listener = Listener::new(Acceptor { waiting: VecDeque::new(), calls, fail_close: true });
    assert!(matches!(listener.close(), Err(Error::Io(_))));
    assert!(listener.is_closed());
    assert!(matches!(listener.close(), Err(Error::Closed(false))));
}

#[test]
fn send_and_receive_after_close_do_not_touch_the_transport() {
    let ((end, probe), (_peer_end, peer_probe)) = pair();
    peer_probe.outgoing.borrow_mut().extend(wire_of(Message::Data(vec![1])));
    let mut connection = Connection::new(end);
    connection.close();
    let calls = probe.calls.get();
    assert!(matches!(connection.send(&vec![1, 2, 3]), Err(Error::Closed(false))));
    assert!(matches!(connection.receive(), Err(Error::Closed(false))));
    assert!(matches!(connection.send_and_receive(&vec![1, 2, 3]), Err(Error::Closed(false))));
    assert_eq!(probe.calls.get(), calls);
    assert_eq!(peer_probe.outgoing.borrow().len(), 8 + 6 + 1);
}

#[test]
fn accept_after_close_does_not_touch_the_transport() {
    let ((_, _), (server_end, _)) = pair();
    let calls = Rc::new(Cell::new(0));
    let mut listener = Listener::new(Acceptor {
        waiting: VecDeque::from(vec![server_end]),
        calls: calls.clone(),
        fail_close: false,
    });
    listener.close().unwrap();
    let before = calls.get();
    assert!(matches!(listener.accept(), Err(Error::Closed(false))));
    assert_eq!(calls.get(), before);
}

#[test]
fn accept_hands_out_open_connections() {
    let ((_, _), (first, _)) = pair();
    let ((_, _), (second, _)) = pair();
    let calls = Rc::new(Cell::new(0));
    let mut listener = Listener::new(Acceptor {
        waiting: VecDeque::from(vec![first, second]),
        calls,
        fail_close: false,
    });
    assert!(!listener.accept().unwrap().is_closed());
    assert!(!listener.accept().unwrap().is_closed());
    assert!(matches!(listener.accept(), Err(Error::Io(_))));
    assert!(!listener.is_closed());
}

#[test]
fn peer_close_is_received_as_closed_by_operation() {
    let ((a_end, _), (b_end, b_probe)) = pair();
    let mut a = Connection::new(a_end);
    let mut b = Connection::new(b_end);
    a.close();
    match b.receive() {
        Err(e) => assert_eq!(e.closed_by_operation(), Some(true)),
        Ok(data) => panic!("the shutdown signal came through as data: {:?}", data),
    }
    assert!(b.is_closed());
    assert_eq!(b_probe.closes.get(), 1);
    assert!(matches!(b.receive(), Err(Error::Closed(false))));
    assert!(matches!(b.send(&vec![1]), Err(Error::Closed(false))));
}

#[test]
fn data_before_the_signal_is_still_delivered() {
    let ((a_end, _), (b_end, _)) = pair();
    let mut a = Connection::new(a_end);
    let mut b = Connection::new(b_end);
    a.send(&encode("last words")).unwrap();
    a.close();
    assert_eq!(decode(&b.receive().unwrap()), "last words");
    assert!(!b.is_closed());
    assert!(matches!(b.receive(), Err(Error::Closed(true))));
    assert!(b.is_closed());
}

#[test]
fn failed_send_is_reported_and_does_not_close() {
    let ((end, probe), _) = pair();
    probe.broken.set(true);
    let mut connection = Connection::new(end);
    assert!(matches!(connection.send(&vec![1]), Err(Error::Io(_))));
    assert!(!connection.is_closed());
    assert_eq!(probe.closes.get(), 0);
    probe.broken.set(false);
    assert!(connection.send(&vec![1]).is_ok());
}

#[test]
fn failed_send_skips_the_receive() {
    let ((end, probe), (_peer_end, peer_probe)) = pair();
    peer_probe.outgoing.borrow_mut().extend(wire_of(Message::Data(vec![1])));
    probe.broken.set(true);
    let mut connection = Connection::new(end);
    assert!(matches!(connection.send_and_receive(&vec![2]), Err(Error::Io(_))));
    assert_eq!(peer_probe.outgoing.borrow().len(), 15);
    assert_eq!(probe.calls.get(), 1);
}

#[test]
fn frame_without_envelope_fails_the_receive_and_does_not_close() {
    let ((end, _), (_peer_end, peer_probe)) = pair();
    peer_probe.outgoing.borrow_mut().extend([0u8, 0, 0, 0, 0, 0, 0, 2, 0xf6, 0xf6]);
    let mut connection = Connection::new(end);
    assert!(matches!(connection.receive(), Err(Error::Deserialise(_))));
    assert!(!connection.is_closed());
}

#[test]
fn lifecycle_starts_open_and_closes_for_good() {
    let mut state = Lifecycle::new();
    assert!(!state.is_closed());
    assert!(state.check_open().is_ok());
    assert!(state.close());
    assert!(state.is_closed());
    assert!(matches!(state.check_open(), Err(Error::Closed(false))));
    assert!(!state.close());
    assert!(state.is_closed());
}

#[test]
fn lifecycle_closes_once_for_a_listener() {
    let mut state = Lifecycle::new();
    assert!(state.close_once().is_ok());
    assert!(state.is_closed());
    assert!(matches!(state.close_once(), Err(Error::Closed(false))));
    assert!(state.is_closed());
}

#[test]
fn lifecycle_delivers_data_and_stays_open() {
    let mut state = Lifecycle::new();
    assert_eq!(state.deliver(Message::Data(42u32)).unwrap(), 42);
    assert!(!state.is_closed());
}

#[test]
fn lifecycle_closes_on_the_signal() {
    let mut state = Lifecycle::new();
    let signal: Message<u32> = Message::ClosingConnection;
    assert!(matches!(state.deliver(signal), Err(Error::Closed(true))));
    assert!(state.is_closed());
}

#[test]
fn welcome_wraps_a_stream_and_hands_an_error_on() {
    let ((_, _), (end, probe)) = pair();
    let connection = Listener::<Acceptor>::welcome(Ok(end)).unwrap();
    assert!(!connection.is_closed());
    assert_eq!(probe.calls.get(), 0);
    let refused = Error::Io(std::io::Error::from(ErrorKind::ConnectionRefused));
    match Listener::<Acceptor>::welcome(Err(refused)) {
        Err(Error::Io(e)) => assert_eq!(e.kind(), ErrorKind::ConnectionRefused),
        _ => panic!("expected the error to come back"),
    }
    assert!(matches!(
        Listener::<Acceptor>::welcome(Err(Error::Closed(true))),
        Err(Error::Closed(true))
    ));
}

#[test]
fn accept_hands_the_error_of_the_transport_on() {
    let calls = Rc::new(Cell::new(0));
    let mut listener = Listener::new(Acceptor { waiting: VecDeque::new(), calls, fail_close: false });
    match listener.accept() {
        Err(Error::Io(e)) => assert_eq!(e.kind(), ErrorKind::WouldBlock),
        _ => panic!("expected the error of the transport"),
    }
}

#[test]
fn send_hands_the_error_of_the_transport_on() {
    let ((end, probe), _) = pair();
    probe.broken.set(true);
    let mut connection = Connection::new(end);
    match connection.send(&vec![1]) {
        Err(Error::Io(e)) => assert_eq!(e.kind(), ErrorKind::BrokenPipe),
        other => panic!("expected the error of the transport, got {:?}", other),
    }
}

#[test]
fn check_open_follows_the_state() {
    let ((end, _), _) = pair();
    let mut connection = Connection::new(end);
    assert!(connection.check_open().is_ok());
    connection.close();
    assert!(matches!(connection.check_open(), Err(Error::Closed(false))));
}

fn round_trip<T>(value: &T) -> T
where
    T: serde::Serialize + serde::de::DeserializeOwned,
{
    let ((a_end, _), (b_end, _)) = pair();
    let mut a = Connection::new(a_end);
    let mut b = Connection::new(b_end);
    let mut payload = Vec::new();
    ciborium::ser::into_writer(value, &mut payload).unwrap();
    a.send(&payload).unwrap();
    let received = b.receive().unwrap();
    assert_eq!(received, payload);
    ciborium::de::from_reader(&received[..]).unwrap()
}

#[test]
fn payloads_of_many_kinds_come_back_unchanged() {
    assert_eq!(round_trip(&0u8), 0u8);
    assert_eq!(round_trip(&u64::MAX), u64::MAX);
    assert_eq!(round_trip(&-12345i32), -12345i32);
    assert_eq!(round_trip(&true), true);
    assert_eq!(round_trip(&String::new()), String::new());
    assert_eq!(round_trip(&"ClosingConnection".to_string()), "ClosingConnection");
    assert_eq!(round_trip(&"Data".to_string()), "Data");
    assert_eq!(round_trip(&vec![1u16, 2, 3]), vec![1u16, 2, 3]);
    assert_eq!(round_trip(&(7u8, "seven".to_string())), (7u8, "seven".to_string()));
    assert_eq!(round_trip(&Some(vec!["a".to_string()])), Some(vec!["a".to_string()]));
    assert_eq!(round_trip(&None::<u8>), None);
    assert_eq!(round_trip(&()), ());
}

#[test]
fn large_payload_comes_back_unchanged() {
    let ((a_end, _), (b_end, _)) = pair();
    let mut a = Connection::new(a_end);
    let mut b = Connection::new(b_end);
    let payload: Vec<u8> = (0..70_000u32).map(|i| (i % 251) as u8).collect();
    a.send(&payload).unwrap();
    assert_eq!(b.receive().unwrap(), payload);
}

#[test]
fn empty_payload_comes_back_unchanged() {
    let ((a_end, _), (b_end, _)) = pair();
    let mut a = Connection::new(a_end);
    let mut b = Connection::new(b_end);
    a.send(&Vec::new()).unwrap();
    assert_eq!(b.receive().unwrap(), Vec::<u8>::new());
}

#[test]
fn close_sends_the_signal_and_then_closes_the_transport_once() {
    let ((end, probe), _) = pair();
    let mut connection = Connection::new(end);
    connection.close();
    assert_eq!(*probe.events.borrow(), vec!["write", "flush", "close"]);
    connection.close();
    connection.close();
    assert_eq!(*probe.events.borrow(), vec!["write", "flush", "close"]);
    assert_eq!(probe.closes.get(), 1);
    let wire: Vec<u8> = probe.outgoing.borrow().iter().copied().collect();
    assert_eq!(wire, wire_of(Message::ClosingConnection));
}

#[test]
fn close_with_every_write_failing_closes_the_transport_once() {
    let ((end, probe), _) = pair();
    probe.broken.set(true);
    let mut connection = Connection::new(end);
    connection.close();
    assert!(connection.is_closed());
    assert_eq!(*probe.events.borrow(), vec!["write", "close"]);
    assert_eq!(probe.closes.get(), 1);
}

#[test]
fn send_is_one_write_and_one_flush() {
    let ((end, probe), _) = pair();
    let mut connection = Connection::new(end);
    connection.send(&vec![1, 2, 3]).unwrap();
    assert_eq!(*probe.events.borrow(), vec!["write", "flush"]);
    probe.broken.set(true);
    assert!(connection.send(&vec![1, 2, 3]).is_err());
    assert_eq!(*probe.events.borrow(), vec!["write", "flush", "write"]);
}

#[test]
fn receive_is_two_reads() {
    let ((a_end, _), (b_end, b_probe)) = pair();
    let mut a = Connection::new(a_end);
    let mut b = Connection::new(b_end);
    a.send(&vec![9]).unwrap();
    assert_eq!(b.receive().unwrap(), vec![9]);
    assert_eq!(*b_probe.events.borrow(), vec!["read", "read"]);
    assert!(matches!(b.receive(), Err(Error::Io(_))));
    assert_eq!(*b_probe.events.borrow(), vec!["read", "read", "read"]);
}

#[test]
fn receive_of_the_signal_closes_the_transport_once_and_writes_nothing() {
    let ((a_end, _), (b_end, b_probe)) = pair();
    let mut a = Connection::new(a_end);
    let mut b = Connection::new(b_end);
    a.close();
    assert!(matches!(b.receive(), Err(Error::Closed(true))));
    assert!(b.is_closed());
    assert_eq!(*b_probe.events.borrow(), vec!["read", "read", "close"]);
    assert_eq!(b_probe.closes.get(), 1);
    assert!(b_probe.outgoing.borrow().is_empty());
    b.close();
    assert_eq!(*b_probe.events.borrow(), vec!["read", "read", "close"]);
}

#[test]
fn signal_with_a_trailing_byte_does_not_close_the_receiver() {
    let ((end, probe), (_peer_end, peer_probe)) = pair();
    let signal: Message<Vec<u8>> = Message::ClosingConnection;
    let mut body = signal.to_bytes();
    body.push(0x00);
    peer_probe.outgoing.borrow_mut().extend(gipc::message::raw::serialised_vec(&body));
    let mut connection = Connection::new(end);
    assert!(matches!(connection.receive(), Err(Error::Deserialise(_))));
    assert!(!connection.is_closed());
    assert_eq!(probe.closes.get(), 0);
}

#[test]
fn tagged_signal_does_not_close_the_receiver() {
    let ((end, probe), (_peer_end, peer_probe)) = pair();
    let signal: Message<Vec<u8>> = Message::ClosingConnection;
    let mut body = vec![0xd9, 0xd9, 0xf7];
    body.extend(signal.to_bytes());
    peer_probe.outgoing.borrow_mut().extend(gipc::message::raw::serialised_vec(&body));
    let mut connection = Connection::new(end);
    assert!(matches!(connection.receive(), Err(Error::Deserialise(_))));
    assert!(!connection.is_closed());
    assert_eq!(probe.closes.get(), 0);
}

#[test]
fn listener_asks_its_transport_to_close_once() {
    let calls = Rc::new(Cell::new(0));
    let mut listener = Listener::new(Acceptor {
        waiting: VecDeque::new(),
        calls: calls.clone(),
        fail_close: true,
    });
    assert!(matches!(listener.close(), Err(Error::Io(_))));
    assert_eq!(calls.get(), 1);
    for _ in 0..3 {
        assert!(matches!(listener.close(), Err(Error::Closed(false))));
    }
    assert_eq!(calls.get(), 1);
}

#[test]
fn receive_frame_hands_the_envelope_out_unopened() {
    let ((a_end, _), (b_end, b_probe)) = pair();
    let mut a = Connection::new(a_end);
    let mut b = Connection::new(b_end);
    a.send(&encode("sunny")).unwrap();
    let body = b.receive_frame().unwrap();
    assert_eq!(body, Message::Data(encode("sunny")).to_bytes());
    assert_eq!(*b_probe.events.borrow(), vec!["read", "read"]);
    assert!(!b.is_closed());
}

#[test]
fn receive_frame_after_close_does_not_touch_the_transport() {
    let ((end, probe), (_peer_end, peer_probe)) = pair();
    peer_probe.outgoing.borrow_mut().extend(wire_of(Message::Data(vec![1])));
    let mut connection = Connection::new(end);
    connection.close();
    let calls = probe.calls.get();
    assert!(matches!(connection.receive_frame(), Err(Error::Closed(false))));
    assert_eq!(probe.calls.get(), calls);
}

#[test]
fn receive_frame_of_a_truncated_frame_is_an_io_error() {
    let ((end, _), (_peer_end, peer_probe)) = pair();
    peer_probe.outgoing.borrow_mut().extend([0u8, 0, 0, 0, 0, 0, 0, 5, 1, 2, 3]);
    let mut connection = Connection::new(end);
    assert!(matches!(connection.receive_frame(), Err(Error::Io(_))));
    assert!(!connection.is_closed());
}

#[test]
fn deliver_hands_data_on_and_touches_nothing() {
    let ((end, probe), _) = pair();
    let mut connection = Connection::new(end);
    assert_eq!(connection.deliver(Message::Data("kept".to_string())).unwrap(), "kept");
    assert!(!connection.is_closed());
    assert_eq!(probe.calls.get(), 0);
}

#[test]
fn deliver_of_the_signal_closes_the_transport_once() {
    let ((end, probe), _) = pair();
    let mut connection = Connection::new(end);
    let signal: Message<u8> = Message::ClosingConnection;
    assert!(matches!(connection.deliver(signal), Err(Error::Closed(true))));
    assert!(connection.is_closed());
    assert_eq!(*probe.events.borrow(), vec!["close"]);
    let again: Message<u8> = Message::ClosingConnection;
    assert!(matches!(connection.deliver(again), Err(Error::Closed(false))));
    assert!(matches!(connection.deliver(Message::Data(1u8)), Err(Error::Closed(false))));
    assert_eq!(*probe.events.borrow(), vec!["close"]);
}

/// Opens an envelope as a caller with a decoder of its own would: what reads as the text of
/// the shutdown signal is the signal, anything else is taken for data.
fn open_with_the_decoder(body: &[u8]) -> Message<Vec<u8>> {
    match ciborium::de::from_reader::<String, _>(body) {
        Ok(text) if text == "ClosingConnection" => Message::ClosingConnection,
        _ => Message::Data(body.to_vec()),
    }
}

#[test]
fn tagged_signal_closes_a_receiver_that_opens_envelopes_with_the_decoder() {
    let ((end, probe), (_peer_end, peer_probe)) = pair();
    let signal: Message<Vec<u8>> = Message::ClosingConnection;
    let mut body = vec![0xd9, 0xd9, 0xf7];
    body.extend(signal.to_bytes());
    peer_probe.outgoing.borrow_mut().extend(gipc::message::raw::serialised_vec(&body));
    let mut connection = Connection::new(end);
    let taken = connection.receive_frame().unwrap();
    assert_eq!(taken, body);
    assert!(matches!(connection.deliver(open_with_the_decoder(&taken)), Err(Error::Closed(true))));
    assert!(connection.is_closed());
    assert_eq!(*probe.events.borrow(), vec!["read", "read", "close"]);
}

#[test]
fn signal_with_a_trailing_byte_closes_a_receiver_that_opens_envelopes_with_the_decoder() {
    let ((end, probe), (_peer_end, peer_probe)) = pair();
    let signal: Message<Vec<u8>> = Message::ClosingConnection;
    let mut body = signal.to_bytes();
    body.push(0x00);
    peer_probe.outgoing.borrow_mut().extend(gipc::message::raw::serialised_vec(&body));
    let mut connection = Connection::new(end);
    let taken = connection.receive_frame().unwrap();
    assert!(matches!(connection.deliver(open_with_the_decoder(&taken)), Err(Error::Closed(true))));
    assert!(connection.is_closed());
    assert_eq!(probe.closes.get(), 1);
}

#[test]
fn receive_is_receive_frame_then_deliver() {
    let ((a_end, _), (b_end, _)) = pair();
    let ((c_end, _), (d_end, _)) = pair();
    let mut a = Connection::new(a_end);
    let mut b = Connection::new(b_end);
    let mut c = Connection::new(c_end);
    let mut d = Connection::new(d_end);
    a.send(&encode("same")).unwrap();
    c.send(&encode("same")).unwrap();
    let whole = b.receive().unwrap();
    let body = d.receive_frame().unwrap();
    let halves = d.deliver(Message::from_bytes(&body).unwrap()).unwrap();
    assert_eq!(whole, halves);
}

#[test]
fn new_connection_asks_nothing_of_its_transport() {
    let ((end, probe), _) = pair();
    let connection = Connection::new(end);
    assert!(probe.events.borrow().is_empty());
    assert!(!connection.is_closed());
}

#[test]
fn new_listener_asks_nothing_of_its_transport() {
    let calls = Rc::new(Cell::new(0));
    let listener = Listener::new(Acceptor {
        waiting: VecDeque::new(),
        calls: calls.clone(),
        fail_close: false,
    });
    assert_eq!(calls.get(), 0);
    assert!(!listener.is_closed());
}

#[test]
fn many_sends_leave_their_frames_whole_and_in_order() {
    let ((end, probe), (peer_end, _)) = pair();
    let mut connection = Connection::new(end);
    let payloads: Vec<Vec<u8>> = (0..20u8).map(|i| vec![i; i as usize]).collect();
    let mut expected = Vec::new();
    for payload in &payloads {
        connection.send(payload).unwrap();
        expected.extend(wire_of(Message::Data(payload.clone())));
    }
    let wire: Vec<u8> = probe.outgoing.borrow().iter().copied().collect();
    assert_eq!(wire, expected);
    let mut peer = Connection::new(peer_end);
    for payload in &payloads {
        assert_eq!(&peer.receive().unwrap(), payload);
    }
}
