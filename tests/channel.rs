use mineguard::channel::{LineChannel, Received};
use mineguard::stream::{StreamLine, StreamSource};

fn texts(v: &[StreamLine]) -> Vec<String> {
    v.iter().map(|l| l.text()).collect()
}

#[test]
fn two_early_subscribers_see_the_same_lines() {
    let mut ch = LineChannel::new(StreamSource::Stdout, 16);
    let mut a = ch.subscribe();
    let mut b = ch.subscribe();
    for s in ["one", "two", "three"] {
        ch.publish(s.to_string());
    }
    let ra = texts(&ch.drain(&mut a));
    let rb = texts(&ch.drain(&mut b));
    assert_eq!(ra, vec!["one", "two", "three"]);
    assert_eq!(ra, rb);
}

#[test]
fn late_subscriber_misses_earlier_lines() {
    let mut ch = LineChannel::new(StreamSource::Stdout, 16);
    ch.publish("a".to_string());
    ch.publish("b".to_string());
    let mut c = ch.subscribe();
    assert_eq!(c.next_line(), 2);
    ch.publish("c".to_string());
    assert_eq!(texts(&ch.drain(&mut c)), vec!["c"]);
}

#[test]
fn every_line_once_in_order_across_reads() {
    let mut ch = LineChannel::new(StreamSource::Stderr, 8);
    let mut c = ch.subscribe();
    ch.publish("1".to_string());
    ch.publish("2".to_string());
    let mut all = texts(&ch.drain(&mut c));
    assert!(texts(&ch.drain(&mut c)).is_empty());
    ch.publish("3".to_string());
    all.extend(texts(&ch.drain(&mut c)));
    assert_eq!(all, vec!["1", "2", "3"]);
}

#[test]
fn recv_reads_one_line_at_a_time() {
    let mut ch = LineChannel::new(StreamSource::Stdout, 4);
    let mut c = ch.subscribe();
    assert!(matches!(ch.recv(&mut c), Received::Empty));
    ch.publish("x".to_string());
    match ch.recv(&mut c) {
        Received::Line(l) => {
            assert_eq!(l.text(), "x");
            assert_eq!(l.source(), StreamSource::Stdout);
        }
        other => panic!("unexpected {:?}", other),
    }
    assert!(matches!(ch.recv(&mut c), Received::Empty));
    ch.close();
    assert!(matches!(ch.recv(&mut c), Received::Closed));
}

#[test]
fn slow_subscriber_is_told_how_many_it_missed() {
    let mut ch = LineChannel::new(StreamSource::Stdout, 2);
    let mut c = ch.subscribe();
    for s in ["a", "b", "c", "d", "e"] {
        ch.publish(s.to_string());
    }
    assert!(matches!(ch.recv(&mut c), Received::Lagged(3)));
    assert_eq!(c.next_line(), 3);
    assert_eq!(texts(&ch.drain(&mut c)), vec!["d", "e"]);
}

#[test]
fn drain_skips_lost_lines() {
    let mut ch = LineChannel::new(StreamSource::Stdout, 1);
    let mut c = ch.subscribe();
    ch.publish("a".to_string());
    ch.publish("b".to_string());
    assert_eq!(texts(&ch.drain(&mut c)), vec!["b"]);
    assert_eq!(ch.published_count(), 2);
}

#[test]
fn closed_channel_still_delivers_what_is_left() {
    let mut ch = LineChannel::new(StreamSource::Stdout, 4);
    let mut c = ch.subscribe();
    ch.publish("last".to_string());
    ch.close();
    assert!(ch.closed());
    assert!(matches!(ch.recv(&mut c), Received::Line(_)));
    assert!(matches!(ch.recv(&mut c), Received::Closed));
    ch.reopen();
    assert!(matches!(ch.recv(&mut c), Received::Empty));
}

#[test]
fn stream_line_constructors() {
    let a = StreamLine::new("x".to_string(), StreamSource::Stderr);
    assert_eq!(a.source(), StreamSource::Stderr);
    assert_eq!(StreamLine::stdout("o".to_string()).source(), StreamSource::Stdout);
    let e = StreamLine::stderr("e".to_string());
    assert_eq!(e.source(), StreamSource::Stderr);
    assert_eq!(e.text(), "e");
    assert_eq!(e.duplicate().text(), "e");
}
