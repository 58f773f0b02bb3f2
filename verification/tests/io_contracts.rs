use nxdk_rs::io::traits::IoWrappedErr;
use nxdk_rs::io::traits::Read;
use nxdk_rs::io::traits::RetryStep;
use nxdk_rs::io::traits::RetryWrite;
use nxdk_rs::io::traits::Write;
use nxdk_rs::lwip::pbuf::TcpPbuf;

#[test]
fn chain_capability_read_is_infallible_and_ordered() {
    let mut pbuf = TcpPbuf::new(vec![vec![1u8, 2], vec![3u8, 4]]);
    let mut dest = vec![0u8; 3];

    let n = Read::read(&mut pbuf, &mut dest).unwrap();
    assert_eq!(n, 3);
    assert_eq!(dest, vec![1u8, 2, 3]);

    // A read never fails, even on the now-freed chain.
    let n2 = Read::read(&mut pbuf, &mut dest).unwrap();
    assert_eq!(n2, 0);
}

#[test]
fn read_exact_fills_from_one_chain() {
    let mut pbuf = TcpPbuf::new(vec![vec![1u8, 2, 3], vec![4u8, 5]]);
    let mut dest = vec![0u8; 5];

    assert!(pbuf.read_exact(&mut dest).is_ok());
    assert_eq!(dest, vec![1u8, 2, 3, 4, 5]);
}

#[test]
fn read_exact_starved_by_short_chain_is_unexpected_eof() {
    // The chain holds 3 bytes but 7 are demanded: the second read
    // delivers zero bytes and the operation must fail with
    // UnexpectedEof, never report success for a partially filled
    // destination.
    let mut pbuf = TcpPbuf::new(vec![vec![1u8, 2, 3]]);
    let mut dest = vec![0u8; 7];

    let r = pbuf.read_exact(&mut dest);
    assert_eq!(r, Err(IoWrappedErr::UnexpectedEof));
}

#[test]
fn read_exact_on_exhausted_source_is_unexpected_eof() {
    let mut pbuf = TcpPbuf::new(vec![]);
    let mut dest = vec![0u8; 1];

    let r = pbuf.read_exact(&mut dest);
    assert_eq!(r, Err(IoWrappedErr::UnexpectedEof));
}

#[test]
fn read_exact_into_empty_destination_succeeds() {
    let mut pbuf = TcpPbuf::new(vec![]);
    let mut dest: Vec<u8> = Vec::new();

    assert!(pbuf.read_exact(&mut dest).is_ok());
}

/// A sink that accepts a scripted count per attempt, in order, and
/// repeats the last count forever.
struct ScriptedSink {
    counts: Vec<usize>,
    at: usize,
    accepted: Vec<u8>,
}

impl ScriptedSink {
    fn new(counts: Vec<usize>) -> Self {
        ScriptedSink { counts, at: 0, accepted: Vec::new() }
    }
}

impl Write for ScriptedSink {
    type WriteError = u32;

    fn write(&mut self, buf: &Vec<u8>) -> Result<usize, u32> {
        let idx = if self.at < self.counts.len() { self.at } else { self.counts.len() - 1 };
        self.at += 1;
        let n = self.counts[idx].min(buf.len());
        self.accepted.extend_from_slice(&buf[..n]);
        Ok(n)
    }

    fn flush(&mut self) -> Result<(), u32> {
        Ok(())
    }
}

#[test]
fn write_all_loops_over_partial_writes() {
    let mut sink = ScriptedSink::new(vec![2, 1, 4]);
    let data = vec![1u8, 2, 3, 4, 5, 6];

    assert!(sink.write_all(&data).is_ok());
    assert_eq!(sink.accepted, data);
}

#[test]
fn write_str_all_writes_the_text_bytes() {
    let mut sink = ScriptedSink::new(vec![100]);
    assert!(sink.write_str_all("hello").is_ok());
    assert_eq!(sink.accepted, b"hello".to_vec());
}

#[test]
fn retry_write_times_out_at_or_after_deadline() {
    // The inner write accepts nothing; at the deadline the decorator
    // reports Timeout.
    let sink = ScriptedSink::new(vec![0]);
    let mut retry = RetryWrite::new(sink, 60, 200);
    let buf = vec![0u8; 100];

    // Before the deadline each attempt asks for a sleep and a retry.
    let mut elapsed: u64 = 0;
    let mut slept = 0u32;
    let outcome = loop {
        match retry.write(&buf, elapsed) {
            RetryStep::SleepThenRetry => {
                slept += 1;
                elapsed += 20;
            }
            RetryStep::Done(res) => break res,
        }
    };
    assert!(slept >= 1);
    assert!(elapsed >= 60);
    assert_eq!(outcome, Err(IoWrappedErr::Timeout));
}

#[test]
fn retry_write_returns_first_nonzero_count_without_sleep() {
    let sink = ScriptedSink::new(vec![40]);
    let mut retry = RetryWrite::new(sink, 60, 200);
    let buf = vec![7u8; 100];

    match retry.write(&buf, 0) {
        RetryStep::Done(Ok(n)) => assert_eq!(n, 40),
        _ => panic!("expected an immediate count"),
    }
    assert_eq!(retry.sleep_interval(), 200);
}

#[test]
fn retry_write_propagates_inner_errors() {
    struct FailingSink;

    impl Write for FailingSink {
        type WriteError = u32;

        fn write(&mut self, _buf: &Vec<u8>) -> Result<usize, u32> {
            Err(5)
        }

        fn flush(&mut self) -> Result<(), u32> {
            Ok(())
        }
    }

    let mut retry = RetryWrite::new(FailingSink, 60, 200);
    match retry.write(&vec![1u8], 0) {
        RetryStep::Done(Err(IoWrappedErr::Other(code))) => assert_eq!(code, 5),
        _ => panic!("expected the inner error"),
    }
}
