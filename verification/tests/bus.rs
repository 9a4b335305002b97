use core::cell::RefCell;
use embedded_hal::i2c::{ErrorKind, I2c, NoAcknowledgeSource, Operation};
use embedded_hal_bus::i2c::RefCellDevice;
use embedded_hal_mock::eh1::i2c::{Mock, Transaction};
use i2c_multiplexer::bus::{BusPort, MultiplexerBus};
use i2c_multiplexer::control::ControlWrite;
use i2c_multiplexer::error::MultiplexerError;
use i2c_multiplexer::relay::{Action, OperationKind, Phase, Progress, Relay};

/// A port view together with the transport that its transfers go to.
struct Port<T> {
    bus: T,
    view: BusPort,
}

impl<T: I2c> Port<T> {
    fn new(multiplexer: &MultiplexerBus, bus: T, port: u8) -> Self {
        let view = multiplexer.new_port::<T::Error>(port).unwrap();
        Port { bus, view }
    }

    /// Performs what the relay asks for until the relay has ended.
    fn perform(
        &mut self,
        kind: OperationKind,
        target: u8,
        write: &[u8],
        read: &mut [u8],
    ) -> Result<(), MultiplexerError<T::Error>> {
        let mut relay = self.view.relay(kind, target);
        loop {
            let outcome = match relay.action() {
                Action::Select(select) => self.bus.write(select.address, &[select.code]),
                Action::Forward { address, kind } => match kind {
                    OperationKind::Read => self.bus.read(address, read),
                    OperationKind::Write => self.bus.write(address, write),
                    OperationKind::WriteRead => self.bus.write_read(address, write, read),
                    OperationKind::Transaction => self.bus.transaction(
                        address,
                        &mut [Operation::Write(write), Operation::Read(read)],
                    ),
                },
            };
            match relay.resume(outcome) {
                Progress::Next(next) => relay = next,
                ended => return ended.result().unwrap(),
            }
        }
    }

    fn write(&mut self, address: u8, bytes: &[u8]) -> Result<(), MultiplexerError<T::Error>> {
        self.perform(OperationKind::Write, address, bytes, &mut [])
    }

    fn read(&mut self, address: u8, buffer: &mut [u8]) -> Result<(), MultiplexerError<T::Error>> {
        self.perform(OperationKind::Read, address, &[], buffer)
    }

    fn write_read(
        &mut self,
        address: u8,
        bytes: &[u8],
        buffer: &mut [u8],
    ) -> Result<(), MultiplexerError<T::Error>> {
        self.perform(OperationKind::WriteRead, address, bytes, buffer)
    }
}

#[test]
fn multi_port_write() {
    let multiplexer_addr = 0x01;
    let component_addr = 0x02;

    // Use port 1, 3, 2, 4 in that order
    let ports = vec![
        (0, 0b000_0001),
        (2, 0b000_0100),
        (1, 0b000_0010),
        (3, 0b000_1000),
    ];

    let expectations = [
        Transaction::write(multiplexer_addr, vec![ports[0].1]),
        Transaction::write(component_addr, vec![0x05, 0x43]),
        Transaction::write(multiplexer_addr, vec![ports[1].1]),
        Transaction::write(component_addr, vec![0x55]),
        Transaction::write(multiplexer_addr, vec![ports[2].1]),
        Transaction::write(component_addr, vec![0x07, 0x39, 0x87]),
        Transaction::write(multiplexer_addr, vec![ports[3].1]),
        Transaction::write(component_addr, vec![0x45, 0x48]),
    ];

    let i2c = RefCell::new(Mock::new(&expectations));
    let multiplexer = MultiplexerBus::new().with_address(multiplexer_addr);

    {
        let mut multiplexed_i2c_a = Port::new(&multiplexer, RefCellDevice::new(&i2c), ports[0].0);
        let mut multiplexed_i2c_b = Port::new(&multiplexer, RefCellDevice::new(&i2c), ports[1].0);
        let mut multiplexed_i2c_c = Port::new(&multiplexer, RefCellDevice::new(&i2c), ports[2].0);
        let mut multiplexed_i2c_d = Port::new(&multiplexer, RefCellDevice::new(&i2c), ports[3].0);

        assert!(multiplexed_i2c_a
            .write(component_addr, &[0x05, 0x43])
            .is_ok());
        assert!(multiplexed_i2c_b.write(component_addr, &[0x55]).is_ok());
        assert!(multiplexed_i2c_c
            .write(component_addr, &[0x07, 0x39, 0x87])
            .is_ok());
        assert!(multiplexed_i2c_d
            .write(component_addr, &[0x45, 0x48])
            .is_ok());
    }

    i2c.into_inner().done();
}

#[test]
fn multi_port_read() {
    let multiplexer_addr = 0x01;
    let component_addr = 0x02;

    // Use port 1, 3, 2, 4 in that order
    let ports = vec![
        (0, 0b000_0001),
        (2, 0b000_0100),
        (1, 0b000_0010),
        (3, 0b000_1000),
    ];

    let expectations = [
        Transaction::write(multiplexer_addr, vec![ports[0].1]),
        Transaction::read(component_addr, vec![0x05, 0x43]),
        Transaction::write(multiplexer_addr, vec![ports[1].1]),
        Transaction::read(component_addr, vec![0x55]),
        Transaction::write(multiplexer_addr, vec![ports[2].1]),
        Transaction::read(component_addr, vec![0x07, 0x39, 0x87]),
        Transaction::write(multiplexer_addr, vec![ports[3].1]),
        Transaction::read(component_addr, vec![0x45, 0x48]),
    ];

    let i2c = RefCell::new(Mock::new(&expectations));
    let multiplexer = MultiplexerBus::new().with_address(multiplexer_addr);

    {
        let mut multiplexed_i2c_a = Port::new(&multiplexer, RefCellDevice::new(&i2c), ports[0].0);
        let mut multiplexed_i2c_b = Port::new(&multiplexer, RefCellDevice::new(&i2c), ports[1].0);
        let mut multiplexed_i2c_c = Port::new(&multiplexer, RefCellDevice::new(&i2c), ports[2].0);
        let mut multiplexed_i2c_d = Port::new(&multiplexer, RefCellDevice::new(&i2c), ports[3].0);

        let mut ma = [0; 2];
        assert!(multiplexed_i2c_a.read(component_addr, &mut ma).is_ok());
        assert_eq!(ma, [0x05, 0x43]);

        let mut mb = [0; 1];
        assert!(multiplexed_i2c_b.read(component_addr, &mut mb).is_ok());
        assert_eq!(mb, [0x55]);

        let mut mc = [0; 3];
        assert!(multiplexed_i2c_c.read(component_addr, &mut mc).is_ok());
        assert_eq!(mc, [0x07, 0x39, 0x87]);

        let mut md = [0; 2];
        assert!(multiplexed_i2c_d.read(component_addr, &mut md).is_ok());
        assert_eq!(md, [0x45, 0x48]);
    }

    i2c.into_inner().done();
}

#[test]
fn multi_port_read_write() {
    let multiplexer_addr = 0x01;
    let component_addr = 0x02;

    // Use port 1, 3, 2, 4 in that order
    let ports = vec![
        (0, 0b000_0001),
        (2, 0b000_0100),
        (1, 0b000_0010),
        (3, 0b000_1000),
    ];

    let expectations = [
        Transaction::write(multiplexer_addr, vec![ports[0].1]),
        Transaction::write_read(component_addr, vec![0x05, 0x43], vec![0x33, 0x43]),
        Transaction::write(multiplexer_addr, vec![ports[1].1]),
        Transaction::write_read(component_addr, vec![0x55], vec![0x33, 0x43]),
        Transaction::write(multiplexer_addr, vec![ports[2].1]),
        Transaction::write_read(component_addr, vec![0x07, 0x39, 0x87], vec![0x33, 0x43]),
        Transaction::write(multiplexer_addr, vec![ports[3].1]),
        Transaction::write_read(component_addr, vec![0x45, 0x48], vec![0x33, 0x43]),
    ];

    let i2c = RefCell::new(Mock::new(&expectations));
    let multiplexer = MultiplexerBus::new().with_address(multiplexer_addr);

    {
        let mut multiplexed_i2c_a = Port::new(&multiplexer, RefCellDevice::new(&i2c), ports[0].0);
        let mut multiplexed_i2c_b = Port::new(&multiplexer, RefCellDevice::new(&i2c), ports[1].0);
        let mut multiplexed_i2c_c = Port::new(&multiplexer, RefCellDevice::new(&i2c), ports[2].0);
        let mut multiplexed_i2c_d = Port::new(&multiplexer, RefCellDevice::new(&i2c), ports[3].0);

        let mut ma = [0x33, 0x43];
        assert!(multiplexed_i2c_a
            .write_read(component_addr, &[0x05, 0x43], &mut ma)
            .is_ok());
        assert_eq!(ma, [0x33, 0x43]);

        let mut mb = [0x33, 0x43];
        assert!(multiplexed_i2c_b
            .write_read(component_addr, &[0x55], &mut mb)
            .is_ok());
        assert_eq!(mb, [0x33, 0x43]);

        let mut mc = [0x33, 0x43];
        assert!(multiplexed_i2c_c
            .write_read(component_addr, &[0x07, 0x39, 0x87], &mut mc)
            .is_ok());
        assert_eq!(mc, [0x33, 0x43]);

        let mut md = [0x33, 0x43];
        assert!(multiplexed_i2c_d
            .write_read(component_addr, &[0x45, 0x48], &mut md)
            .is_ok());
        assert_eq!(md, [0x33, 0x43]);
    }

    i2c.into_inner().done();
}

#[test]
fn select_is_repeated_before_every_operation() {
    let expectations = [
        Transaction::write(0x70, vec![0b0010]),
        Transaction::write(0x20, vec![0xAA]),
        Transaction::write(0x70, vec![0b0010]),
        Transaction::write(0x20, vec![0xBB]),
    ];
    let mut i2c = Mock::new(&expectations);
    let mut port = Port::new(&MultiplexerBus::new(), i2c.clone(), 1);
    assert!(port.write(0x20, &[0xAA]).is_ok());
    assert!(port.write(0x20, &[0xBB]).is_ok());
    i2c.done();
}

#[test]
fn transaction_is_forwarded_after_the_select() {
    let expectations = [
        Transaction::write(0x70, vec![0b1000]),
        Transaction::transaction_start(0x21),
        Transaction::write(0x21, vec![0x01]),
        Transaction::read(0x21, vec![0x99]),
        Transaction::transaction_end(0x21),
    ];
    let mut i2c = Mock::new(&expectations);
    let mut port = Port::new(&MultiplexerBus::new(), i2c.clone(), 3);
    let mut buffer = [0u8; 1];
    assert!(port
        .perform(OperationKind::Transaction, 0x21, &[0x01], &mut buffer)
        .is_ok());
    assert_eq!(buffer, [0x99]);
    i2c.done();
}

#[test]
fn failed_selection_forwards_nothing() {
    let expectations = [Transaction::write(0x70, vec![0b0100]).with_error(ErrorKind::Bus)];
    let mut i2c = Mock::new(&expectations);
    let mut port = Port::new(&MultiplexerBus::new(), i2c.clone(), 2);
    assert_eq!(port.write(0x20, &[1, 2, 3]), Err(MultiplexerError::PortError));
    i2c.done();
}

#[test]
fn failed_relay_keeps_the_transport_error() {
    let nack = ErrorKind::NoAcknowledge(NoAcknowledgeSource::Address);
    let expectations = [
        Transaction::write(0x70, vec![0b0001]),
        Transaction::read(0x20, vec![0]).with_error(nack),
    ];
    let mut i2c = Mock::new(&expectations);
    let mut port = Port::new(&MultiplexerBus::new(), i2c.clone(), 0);
    let mut buffer = [0u8; 1];
    let outcome = port.read(0x20, &mut buffer);
    assert_eq!(outcome, Err(MultiplexerError::I2CError(nack)));
    assert_ne!(outcome, Err(MultiplexerError::PortError));
    i2c.done();
}

#[test]
fn new_port_select_codes() {
    let bus = MultiplexerBus::new().with_address(0x73);
    let codes = [0b0001u8, 0b0010, 0b0100, 0b1000];
    for port in 0u8..4 {
        let view = bus.new_port::<()>(port).unwrap();
        assert_eq!(view.port(), port);
        assert_eq!(view.address(), 0x73);
        assert_eq!(
            view.open_port(),
            ControlWrite {
                address: 0x73,
                code: codes[port as usize]
            }
        );
    }
}

#[test]
fn new_port_rejects_port_out_of_range() {
    let bus = MultiplexerBus::new();
    for port in [4u8, 5, 7, 8, 200, 255] {
        assert!(matches!(
            bus.new_port::<()>(port),
            Err(MultiplexerError::PortError)
        ));
    }
}

#[test]
fn relay_steps() {
    let view = MultiplexerBus::new()
        .with_address(0x01)
        .new_port::<u8>(2)
        .unwrap();
    let relay = view.relay(OperationKind::WriteRead, 0x02);
    let select = ControlWrite {
        address: 0x01,
        code: 0b0100,
    };
    assert_eq!(
        relay,
        Relay {
            select,
            target: 0x02,
            kind: OperationKind::WriteRead,
            phase: Phase::Selecting
        }
    );
    assert_eq!(relay.action(), Action::Select(select));

    let forwarding = Relay {
        select,
        target: 0x02,
        kind: OperationKind::WriteRead,
        phase: Phase::Relaying,
    };
    assert_eq!(relay.resume::<u8>(Ok(())), Progress::Next(forwarding));
    assert_eq!(
        forwarding.action(),
        Action::Forward {
            address: 0x02,
            kind: OperationKind::WriteRead
        }
    );
    assert_eq!(forwarding.resume::<u8>(Ok(())), Progress::Complete);
    assert_eq!(
        forwarding.resume(Err(5u8)),
        Progress::RelayFailed(OperationKind::WriteRead, 5u8)
    );
    assert_eq!(relay.resume(Err(5u8)), Progress::SelectionFailed);
}

#[test]
fn relay_failure_names_the_operation() {
    let view = MultiplexerBus::new().new_port::<u8>(0).unwrap();
    for kind in [
        OperationKind::Read,
        OperationKind::Write,
        OperationKind::WriteRead,
        OperationKind::Transaction,
    ] {
        let relay = view.relay(kind, 0x10);
        let forwarding = match relay.resume::<u8>(Ok(())) {
            Progress::Next(next) => next,
            other => panic!("selection went through, but the relay stands at {:?}", other),
        };
        assert_eq!(forwarding.resume(Err(3u8)), Progress::RelayFailed(kind, 3u8));
    }
}

#[test]
fn progress_results() {
    let view = MultiplexerBus::new().new_port::<u8>(1).unwrap();
    let relay = view.relay(OperationKind::Read, 0x10);
    assert_eq!(Progress::<u8>::Next(relay).result(), None);
    assert_eq!(Progress::<u8>::Complete.result(), Some(Ok(())));
    assert_eq!(
        Progress::<u8>::SelectionFailed.result(),
        Some(Err(MultiplexerError::PortError))
    );
    assert_eq!(
        Progress::RelayFailed(OperationKind::Read, 4u8).result(),
        Some(Err(MultiplexerError::I2CError(4u8)))
    );
}
