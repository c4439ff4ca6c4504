use smart_home::devices::smartsocket::ReadWrite;
use smart_home::devices::smartsocket::SocketCommand;
use smart_home::devices::smartsocket::SocketResponse;
use smart_home::SmartHomeError;
use smart_home::SmartSocket;
use std::cell::RefCell;
use std::rc::Rc;

struct FakeSocket {
    response: SocketResponse,
}

impl ReadWrite for FakeSocket {
    fn write_all(&mut self, _buf: &[u8]) -> Result<(), std::io::Error> {
        Ok(())
    }

    fn read_exact(&mut self, buf: &mut [u8]) -> Result<(), std::io::Error> {
        let resp: [u8; 5] = self.response.into();
        buf.copy_from_slice(&resp);
        Ok(())
    }
}

impl Default for FakeSocket {
    fn default() -> Self {
        Self { response: SocketResponse::On(true) }
    }
}

#[test]
fn test_socket_command() {
    let mut smart_socket = SmartSocket::new(FakeSocket::default());
    let response = smart_socket.run_command(SocketCommand::Switch).unwrap();
    assert_eq!(response, SocketResponse::On(true));
}

/// What a scripted stream has seen: the bytes written to it and the sizes
/// of the buffers it was asked to fill.
#[derive(Default)]
struct Seen {
    written: Vec<u8>,
    reads: Vec<usize>,
}

/// A stream that records what is asked of it and answers from a script.
struct Scripted {
    seen: Rc<RefCell<Seen>>,
    answers: Vec<u8>,
    fail_write: bool,
    fail_read: bool,
}

impl Scripted {
    fn answering(answers: &[u8]) -> (Scripted, Rc<RefCell<Seen>>) {
        let seen = Rc::new(RefCell::new(Seen::default()));
        let stream = Scripted {
            seen: seen.clone(),
            answers: answers.to_vec(),
            fail_write: false,
            fail_read: false,
        };
        (stream, seen)
    }
}

impl ReadWrite for Scripted {
    fn write_all(&mut self, buf: &[u8]) -> Result<(), std::io::Error> {
        if self.fail_write {
            return Err(std::io::Error::new(std::io::ErrorKind::BrokenPipe, "write refused"));
        }
        self.seen.borrow_mut().written.extend_from_slice(buf);
        Ok(())
    }

    fn read_exact(&mut self, buf: &mut [u8]) -> Result<(), std::io::Error> {
        self.seen.borrow_mut().reads.push(buf.len());
        if self.fail_read || self.answers.len() < buf.len() {
            return Err(std::io::Error::new(std::io::ErrorKind::UnexpectedEof, "read refused"));
        }
        let rest = self.answers.split_off(buf.len());
        buf.copy_from_slice(&self.answers);
        self.answers = rest;
        Ok(())
    }
}

#[test]
fn each_operation_writes_its_byte_and_reads_one_frame() {
    let (stream, seen) = Scripted::answering(&[
        0, 1, 0, 0, 0, // answer to switch
        1, 0x44, 0x7A, 0, 0, // answer to get_power
        0, 1, 0, 0, 0, // answer to is_on
        255, 0, 0, 0, 0, // answer to an unknown command
    ]);
    let mut socket = SmartSocket::new(stream);

    socket.switch().unwrap();
    assert_eq!(seen.borrow().written, vec![0]);
    assert_eq!(seen.borrow().reads, vec![5]);

    assert_eq!(f32::from_bits(socket.get_power().unwrap()), 1000.0);
    assert_eq!(seen.borrow().written, vec![0, 2]);
    assert_eq!(seen.borrow().reads, vec![5, 5]);

    assert_eq!(socket.is_on().unwrap(), true);
    assert_eq!(seen.borrow().written, vec![0, 2, 1]);
    assert_eq!(seen.borrow().reads, vec![5, 5, 5]);

    assert_eq!(socket.run_command(SocketCommand::Unknown).unwrap(), SocketResponse::Unknown);
    assert_eq!(seen.borrow().written, vec![0, 2, 1, 255]);
    assert_eq!(seen.borrow().reads, vec![5, 5, 5, 5]);
}

#[test]
fn the_answer_is_what_the_frame_carries() {
    let (stream, _seen) = Scripted::answering(&[
        0, 0, 0, 0, 0, //
        0, 9, 0, 0, 0, //
        1, 0x41, 0xB8, 0, 0, //
        1, 0, 0, 0, 0, //
    ]);
    let mut socket = SmartSocket::new(stream);
    assert_eq!(socket.is_on().unwrap(), false);
    assert_eq!(socket.is_on().unwrap(), true);
    assert_eq!(f32::from_bits(socket.get_power().unwrap()), 23.0);
    assert_eq!(f32::from_bits(socket.get_power().unwrap()), 0.0);
}

#[test]
fn a_failed_write_is_a_connection_error_and_nothing_is_read() {
    let (mut stream, seen) = Scripted::answering(&[0, 1, 0, 0, 0]);
    stream.fail_write = true;
    let mut socket = SmartSocket::new(stream);

    match socket.switch() {
        Err(SmartHomeError::ConnectionError(failure)) => {
            assert_eq!(failure.kind(), std::io::ErrorKind::BrokenPipe)
        }
        _ => panic!("expected a connection error"),
    }
    assert!(seen.borrow().reads.is_empty());
    assert!(matches!(socket.is_on(), Err(SmartHomeError::ConnectionError(_))));
    assert!(matches!(socket.get_power(), Err(SmartHomeError::ConnectionError(_))));
    assert!(matches!(
        socket.run_command(SocketCommand::IsOn),
        Err(SmartHomeError::ConnectionError(_))
    ));
    assert!(seen.borrow().reads.is_empty());
}

#[test]
fn a_failed_read_is_a_connection_error() {
    let (mut stream, seen) = Scripted::answering(&[0, 1, 0, 0, 0]);
    stream.fail_read = true;
    let mut socket = SmartSocket::new(stream);

    match socket.is_on() {
        Err(SmartHomeError::ConnectionError(failure)) => {
            assert_eq!(failure.kind(), std::io::ErrorKind::UnexpectedEof)
        }
        _ => panic!("expected a connection error"),
    }
    assert_eq!(seen.borrow().written, vec![1]);
    assert_eq!(seen.borrow().reads, vec![5]);
}

#[test]
fn a_short_answer_is_a_connection_error() {
    let (stream, _seen) = Scripted::answering(&[0, 1, 0]);
    let mut socket = SmartSocket::new(stream);
    assert!(matches!(socket.is_on(), Err(SmartHomeError::ConnectionError(_))));
}

#[test]
fn an_answer_of_the_wrong_kind_is_a_protocol_mismatch() {
    let (stream, seen) = Scripted::answering(&[
        1, 0x44, 0x7A, 0, 0, // a power reading in answer to switch
        0, 1, 0, 0, 0, // a state in answer to get_power
        255, 0, 0, 0, 0, // nothing in answer to is_on
        255, 0, 0, 0, 0, // nothing in answer to switch
        7, 1, 2, 3, 4, // an unrecognised tag in answer to get_power
        1, 0, 0, 0, 0, // a power reading in answer to is_on
    ]);
    let mut socket = SmartSocket::new(stream);
    assert!(matches!(socket.switch(), Err(SmartHomeError::ProtocolMismatch)));
    assert!(matches!(socket.get_power(), Err(SmartHomeError::ProtocolMismatch)));
    assert!(matches!(socket.is_on(), Err(SmartHomeError::ProtocolMismatch)));
    assert!(matches!(socket.switch(), Err(SmartHomeError::ProtocolMismatch)));
    assert!(matches!(socket.get_power(), Err(SmartHomeError::ProtocolMismatch)));
    assert!(matches!(socket.is_on(), Err(SmartHomeError::ProtocolMismatch)));
    // Each of them was a full round trip all the same.
    assert_eq!(seen.borrow().written, vec![0, 2, 1, 0, 2, 1]);
    assert_eq!(seen.borrow().reads, vec![5, 5, 5, 5, 5, 5]);
}

#[test]
fn a_response_is_read_as_the_answer_it_is() {
    assert!(matches!(SocketResponse::On(true).on_state(), Ok(true)));
    assert!(matches!(SocketResponse::On(false).on_state(), Ok(false)));
    assert!(matches!(SocketResponse::Power(5).on_state(), Err(SmartHomeError::ProtocolMismatch)));
    assert!(matches!(SocketResponse::Unknown.on_state(), Err(SmartHomeError::ProtocolMismatch)));
    assert!(matches!(SocketResponse::Power(5).power_bits(), Ok(5)));
    assert!(matches!(SocketResponse::Power(0).power_bits(), Ok(0)));
    assert!(matches!(
        SocketResponse::On(true).power_bits(),
        Err(SmartHomeError::ProtocolMismatch)
    ));
    assert!(matches!(SocketResponse::Unknown.power_bits(), Err(SmartHomeError::ProtocolMismatch)));
}
