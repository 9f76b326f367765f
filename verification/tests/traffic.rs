use serial_tool::channel::{Channel, CHANNEL_CAPACITY};
use serial_tool::config::{DataBits, Parity, PortConfig, StopBits};
use serial_tool::serial::{Delivery, Outbound, Received, Sent, Serial};
use serial_tool::tasks::{ReadAction, ReadEvent, ReadLoop, WriteAction, WriteEvent, WriteLoop};

fn connected() -> (Serial, ReadLoop, WriteLoop) {
    let mut manager = Serial::new();
    let config = PortConfig::new("loop0", 115200, DataBits::Eight, StopBits::One, Parity::NoParity);
    assert_eq!(manager.connection(config), Ok(()));
    let (reader, writer) = manager.port_opened().expect("the report is due");
    (manager, reader, writer)
}

#[test]
fn the_capacity_is_sixty_four() {
    assert_eq!(CHANNEL_CAPACITY, 64);
}

#[test]
fn a_channel_hands_chunks_out_in_order() {
    let mut channel = Channel::new();
    assert!(channel.is_empty());
    assert!(!channel.is_full());
    assert_eq!(channel.pop(), None);
    assert_eq!(channel.push(vec![1, 2]), None);
    assert_eq!(channel.push(vec![]), None);
    assert_eq!(channel.push(vec![3]), None);
    assert_eq!(channel.len(), 3);
    assert_eq!(channel.pop(), Some(vec![1, 2]));
    assert_eq!(channel.pop(), Some(vec![]));
    assert_eq!(channel.pop(), Some(vec![3]));
    assert_eq!(channel.pop(), None);
    assert!(channel.is_empty());
}

#[test]
fn a_full_channel_hands_the_chunk_back() {
    let mut channel = Channel::new();
    for i in 0..64u8 {
        assert!(!channel.is_full());
        assert_eq!(channel.push(vec![i]), None);
    }
    assert!(channel.is_full());
    assert_eq!(channel.len(), 64);
    assert_eq!(channel.push(vec![64]), Some(vec![64]));
    assert_eq!(channel.len(), 64);
    assert_eq!(channel.pop(), Some(vec![0]));
    assert!(!channel.is_full());
    assert_eq!(channel.push(vec![64]), None);
    for i in 1..=64u8 {
        assert_eq!(channel.pop(), Some(vec![i]));
    }
    assert_eq!(channel.pop(), None);
}

#[test]
fn round_trip_of_an_at_command() {
    let (mut manager, mut reader, mut writer) = connected();
    assert_eq!(manager.send(b"AT\r\n".to_vec()), Ok(Sent::Queued));
    let written = match writer.step(&mut manager, WriteEvent::Ready) {
        WriteAction::Write(bytes) => bytes,
        other => panic!("expected a chunk to write, found {:?}", other),
    };
    assert_eq!(written, b"AT\r\n".to_vec());
    assert_eq!(reader.step(&mut manager, ReadEvent::Data(written)), ReadAction::Continue);
    assert_eq!(manager.receive(), Received::Chunk(b"AT\r\n".to_vec()));
    assert_eq!(manager.receive(), Received::Pending);
}

#[test]
fn a_loopback_returns_chunks_in_the_order_sent() {
    let (mut manager, mut reader, mut writer) = connected();
    let chunks: Vec<Vec<u8>> = vec![
        b"first".to_vec(),
        vec![0, 255, 10, 13],
        b"third".to_vec(),
        vec![7; 1024],
        b"last".to_vec(),
    ];
    for chunk in chunks.iter() {
        assert_eq!(manager.send(chunk.clone()), Ok(Sent::Queued));
    }
    loop {
        match writer.step(&mut manager, WriteEvent::Ready) {
            WriteAction::Write(bytes) => {
                assert_eq!(reader.step(&mut manager, ReadEvent::Data(bytes)), ReadAction::Continue);
            },
            WriteAction::Wait => break,
            WriteAction::Exit => panic!("the write loop of a live connection ended"),
        }
    }
    for chunk in chunks.iter() {
        assert_eq!(manager.receive(), Received::Chunk(chunk.clone()));
    }
    assert_eq!(manager.receive(), Received::Pending);
}

#[test]
fn interleaved_traffic_keeps_the_order_in_each_direction() {
    let (mut manager, mut reader, mut writer) = connected();
    assert_eq!(manager.send(vec![1]), Ok(Sent::Queued));
    assert_eq!(reader.step(&mut manager, ReadEvent::Data(vec![101])), ReadAction::Continue);
    assert_eq!(manager.send(vec![2]), Ok(Sent::Queued));
    assert_eq!(writer.step(&mut manager, WriteEvent::Ready), WriteAction::Write(vec![1]));
    assert_eq!(reader.step(&mut manager, ReadEvent::Data(vec![102])), ReadAction::Continue);
    assert_eq!(manager.receive(), Received::Chunk(vec![101]));
    assert_eq!(manager.send(vec![3]), Ok(Sent::Queued));
    assert_eq!(writer.step(&mut manager, WriteEvent::Ready), WriteAction::Write(vec![2]));
    assert_eq!(writer.step(&mut manager, WriteEvent::Ready), WriteAction::Write(vec![3]));
    assert_eq!(writer.step(&mut manager, WriteEvent::Ready), WriteAction::Wait);
    assert_eq!(manager.receive(), Received::Chunk(vec![102]));
    assert_eq!(manager.receive(), Received::Pending);
}

#[test]
fn send_meets_backpressure_at_capacity() {
    let (mut manager, _reader, mut writer) = connected();
    for i in 0..64u8 {
        assert_eq!(manager.send(vec![i]), Ok(Sent::Queued));
    }
    assert_eq!(manager.send(vec![64]), Ok(Sent::Backpressure(vec![64])));
    assert_eq!(manager.send(vec![64]), Ok(Sent::Backpressure(vec![64])));
    assert_eq!(writer.step(&mut manager, WriteEvent::Ready), WriteAction::Write(vec![0]));
    assert_eq!(manager.send(vec![64]), Ok(Sent::Queued));
    assert_eq!(manager.send(vec![65]), Ok(Sent::Backpressure(vec![65])));
    for i in 1..=64u8 {
        assert_eq!(writer.step(&mut manager, WriteEvent::Ready), WriteAction::Write(vec![i]));
    }
    assert_eq!(writer.step(&mut manager, WriteEvent::Ready), WriteAction::Wait);
}

#[test]
fn the_read_loop_meets_backpressure_at_capacity() {
    let (mut manager, mut reader, _writer) = connected();
    for i in 0..64u8 {
        assert_eq!(reader.step(&mut manager, ReadEvent::Data(vec![i])), ReadAction::Continue);
    }
    assert_eq!(reader.step(&mut manager, ReadEvent::Data(vec![64])), ReadAction::Retry(vec![64]));
    assert!(reader.is_running());
    assert_eq!(manager.deliver(1, vec![64]), Delivery::Backpressure(vec![64]));
    assert_eq!(manager.receive(), Received::Chunk(vec![0]));
    assert_eq!(reader.step(&mut manager, ReadEvent::Data(vec![64])), ReadAction::Continue);
    for i in 1..=64u8 {
        assert_eq!(manager.receive(), Received::Chunk(vec![i]));
    }
    assert_eq!(manager.receive(), Received::Pending);
}

#[test]
fn a_read_loop_that_waits_for_room_takes_the_shutdown_signal() {
    let (mut manager, mut reader, _writer) = connected();
    for i in 0..64u8 {
        assert_eq!(manager.deliver(1, vec![i]), Delivery::Accepted);
    }
    assert_eq!(reader.step(&mut manager, ReadEvent::Data(vec![64])), ReadAction::Retry(vec![64]));
    assert!(manager.disconnection().is_ok());
    assert!(reader.should_stop(&manager));
    assert_eq!(reader.step(&mut manager, ReadEvent::Data(vec![64])), ReadAction::Exit);
    assert_eq!(manager.generation(), Some(1));
    assert!(reader.finish(&mut manager, ()));
    assert!(!manager.is_connected());
    assert_eq!(manager.generation(), None);
    assert_eq!(manager.receive(), Received::Closed);
}

#[test]
fn the_read_loop_forwards_no_empty_chunk() {
    let (mut manager, mut reader, _writer) = connected();
    assert_eq!(reader.step(&mut manager, ReadEvent::Data(vec![])), ReadAction::Continue);
    assert_eq!(manager.receive(), Received::Pending);
    assert_eq!(reader.step(&mut manager, ReadEvent::Data(vec![0])), ReadAction::Continue);
    assert_eq!(reader.step(&mut manager, ReadEvent::Data(vec![])), ReadAction::Continue);
    assert_eq!(manager.receive(), Received::Chunk(vec![0]));
    assert_eq!(manager.receive(), Received::Pending);
}

#[test]
fn an_empty_chunk_can_be_sent() {
    let (mut manager, _reader, mut writer) = connected();
    assert_eq!(manager.send(vec![]), Ok(Sent::Queued));
    assert_eq!(manager.take_outbound(1), Outbound::Chunk(vec![]));
    assert_eq!(writer.step(&mut manager, WriteEvent::Ready), WriteAction::Wait);
}

#[test]
fn loops_that_have_ended_do_nothing() {
    let (mut manager, mut reader, mut writer) = connected();
    assert_eq!(reader.step(&mut manager, ReadEvent::Failed), ReadAction::Exit);
    assert!(reader.finish(&mut manager, ()));
    assert_eq!(writer.step(&mut manager, WriteEvent::Ready), WriteAction::Exit);
    assert!(!writer.finish(&mut manager, ()));
    assert!(!reader.is_running());
    assert!(!writer.is_running());
    assert!(reader.should_stop(&manager));

    let config = PortConfig::new("loop0", 115200, DataBits::Eight, StopBits::One, Parity::NoParity);
    assert_eq!(manager.connection(config), Ok(()));
    let (_second_reader, _second_writer) = manager.port_opened().expect("the report is due");
    assert_eq!(manager.send(vec![9]), Ok(Sent::Queued));

    assert_eq!(reader.step(&mut manager, ReadEvent::Data(vec![1])), ReadAction::Exit);
    assert_eq!(reader.step(&mut manager, ReadEvent::Failed), ReadAction::Exit);
    assert_eq!(reader.step(&mut manager, ReadEvent::Shutdown), ReadAction::Exit);
    assert_eq!(writer.step(&mut manager, WriteEvent::Ready), WriteAction::Exit);
    assert_eq!(writer.step(&mut manager, WriteEvent::Failed), WriteAction::Exit);

    assert!(manager.is_connected());
    assert_eq!(manager.generation(), Some(2));
    assert_eq!(manager.last_error(), None);
    assert_eq!(manager.receive(), Received::Pending);
    assert_eq!(manager.take_outbound(2), Outbound::Chunk(vec![9]));
}
