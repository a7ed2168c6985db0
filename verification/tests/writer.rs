use write_monitor::{BlockingSink, WriteMonitor};

/// An in-memory sink that follows a script: each write consumes the next
/// planned response, and the accepted prefix of the buffer is stored.
struct ScriptedSink {
    responses: Vec<Result<usize, String>>,
    data: Vec<u8>,
    flushes: usize,
}

impl ScriptedSink {
    fn new(responses: Vec<Result<usize, String>>) -> ScriptedSink {
        ScriptedSink { responses, data: Vec::new(), flushes: 0 }
    }
}

impl BlockingSink for ScriptedSink {
    type Error = String;

    fn write(&mut self, buf: &[u8]) -> Result<usize, String> {
        let r = self.responses.remove(0);
        if let Ok(n) = &r {
            self.data.extend_from_slice(&buf[..*n]);
        }
        r
    }

    fn flush(&mut self) -> Result<(), String> {
        self.flushes += 1;
        Ok(())
    }
}

/// An in-memory sink that accepts every byte offered.
struct VecSink {
    data: Vec<u8>,
}

impl BlockingSink for VecSink {
    type Error = String;

    fn write(&mut self, buf: &[u8]) -> Result<usize, String> {
        self.data.extend_from_slice(buf);
        Ok(buf.len())
    }

    fn flush(&mut self) -> Result<(), String> {
        Ok(())
    }
}

#[test]
fn scenario_full_partial_then_failed_write() {
    let sink = ScriptedSink::new(vec![Ok(100), Ok(30), Err(String::from("rejected"))]);
    let mut w = WriteMonitor::new(sink);

    let r = w.write(&[7u8; 100]);
    assert_eq!(r, Ok(100));
    assert_eq!(w.bytes_written(), 100);

    let r = w.write(&[8u8; 50]);
    assert_eq!(r, Ok(30));
    assert_eq!(w.bytes_written(), 130);

    let r = w.write(&[9u8; 10]);
    assert_eq!(r, Err(String::from("rejected")));
    assert_eq!(w.bytes_written(), 130);
}

#[test]
fn scenario_two_handles_see_all_three_writes() {
    let mut w = WriteMonitor::new(VecSink { data: Vec::new() });
    let m1 = w.monitor();
    let m2 = w.monitor();
    assert_eq!(m1.bytes_written(), 0);
    assert_eq!(m2.bytes_written(), 0);

    w.write(&[1u8; 10]).unwrap();
    w.write(&[2u8; 20]).unwrap();
    w.write(&[3u8; 30]).unwrap();

    assert_eq!(m1.bytes_written(), 60);
    assert_eq!(m2.bytes_written(), 60);
    assert_eq!(w.bytes_written(), 60);
}

#[test]
fn cloned_handles_agree_with_writer() {
    let mut w = WriteMonitor::new(VecSink { data: Vec::new() });
    let m = w.monitor();
    let mc = m.clone();
    w.write(&[0u8; 42]).unwrap();
    assert_eq!(m.bytes_written(), 42);
    assert_eq!(mc.bytes_written(), 42);
    assert_eq!(w.bytes_written(), 42);
}

#[test]
fn failed_write_propagates_error_unchanged() {
    let sink = ScriptedSink::new(vec![Err(String::from("no space left"))]);
    let mut w = WriteMonitor::new(sink);
    let r = w.write(&[1u8, 2, 3]);
    assert_eq!(r, Err(String::from("no space left")));
    assert_eq!(w.bytes_written(), 0);
}

#[test]
fn writes_forward_the_bytes_to_the_sink() {
    let mut w = WriteMonitor::new(VecSink { data: Vec::new() });
    w.write(&[1u8, 2, 3]).unwrap();
    w.write(&[4u8, 5]).unwrap();
    let sink = w.into_inner();
    assert_eq!(sink.data, vec![1u8, 2, 3, 4, 5]);
}

#[test]
fn into_inner_returns_usable_sink_and_freezes_handles() {
    let sink = ScriptedSink::new(vec![Ok(40), Ok(8)]);
    let mut w = WriteMonitor::new(sink);
    let m = w.monitor();
    w.write(&[5u8; 40]).unwrap();
    assert_eq!(m.bytes_written(), 40);

    let mut sink = w.into_inner();
    assert_eq!(sink.data.len(), 40);
    // The reclaimed sink keeps working on its own ...
    let r = sink.write(&[6u8; 8]);
    assert_eq!(r, Ok(8));
    assert_eq!(sink.data.len(), 48);
    // ... while every live handle stays frozen at the last counted value.
    assert_eq!(m.bytes_written(), 40);
    assert_eq!(m.clone().bytes_written(), 40);
}

#[test]
fn flush_reaches_sink_and_leaves_counter() {
    let sink = ScriptedSink::new(vec![Ok(12)]);
    let mut w = WriteMonitor::new(sink);
    w.write(&[1u8; 12]).unwrap();
    assert_eq!(w.flush(), Ok(()));
    assert_eq!(w.bytes_written(), 12);
    assert_eq!(w.into_inner().flushes, 1);
}
