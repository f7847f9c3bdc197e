use boot_core::console::{putchar, ConsoleWriter};
use boot_core::sbi::{Firmware, SbiError, SbiValue};

fn ok_replies(n: usize) -> Vec<(i32, i32)> {
    vec![(0, 0); n]
}

#[test]
fn putchar_marshals_the_console_call() {
    let mut fw = Firmware::new(ok_replies(1));
    let r = putchar(&mut fw, 72);
    assert_eq!(r, Ok(SbiValue(0)));
    assert_eq!(fw.calls.len(), 1);
    let c = fw.calls[0];
    assert_eq!(c.arg0, 72);
    assert_eq!(c.arg1, 0);
    assert_eq!(c.arg2, 0);
    assert_eq!(c.arg3, 0);
    assert_eq!(c.arg4, 0);
    assert_eq!(c.arg5, 0);
    assert_eq!(c.fid, 0);
    assert_eq!(c.eid, 1);
}

#[test]
fn hi_issues_exactly_two_calls_in_order() {
    let mut fw = Firmware::new(ok_replies(2));
    let mut w = ConsoleWriter;
    let r = w.write_str(&mut fw, "Hi");
    assert_eq!(r, Ok(()));
    assert_eq!(fw.calls.len(), 2);
    assert_eq!(fw.calls[0].arg0, 72);
    assert_eq!(fw.calls[1].arg0, 105);
    for c in &fw.calls {
        assert_eq!(c.fid, 0);
        assert_eq!(c.eid, 1);
    }
}

#[test]
fn failure_on_second_call_stops_the_write() {
    let mut fw = Firmware::new(vec![(0, 0), (-1, 0), (0, 0)]);
    let mut w = ConsoleWriter;
    let r = w.write_str(&mut fw, "Hi!");
    assert_eq!(r, Err(SbiError::Failed));
    // the failing call is the last one made: no third call
    assert_eq!(fw.calls.len(), 2);
    assert_eq!(fw.calls[0].arg0, 72);
    assert_eq!(fw.calls[1].arg0, 105);
    assert_eq!(fw.next, 2);
}

#[test]
fn failure_on_first_call_makes_exactly_one_call() {
    let mut fw = Firmware::new(vec![(-3, 0), (0, 0)]);
    let mut w = ConsoleWriter;
    let r = w.write_str(&mut fw, "Hi");
    assert_eq!(r, Err(SbiError::InvalidParam));
    assert_eq!(fw.calls.len(), 1);
    assert_eq!(fw.calls[0].arg0, 72);
}

#[test]
fn empty_write_makes_no_call() {
    let mut fw = Firmware::new(ok_replies(0));
    let mut w = ConsoleWriter;
    let r = w.write_str(&mut fw, "");
    assert_eq!(r, Ok(()));
    assert_eq!(fw.calls.len(), 0);
}

#[test]
fn write_chars_matches_write_str() {
    let mut fw1 = Firmware::new(ok_replies(3));
    let mut fw2 = Firmware::new(ok_replies(3));
    let mut w = ConsoleWriter;
    assert_eq!(w.write_str(&mut fw1, "abc"), Ok(()));
    assert_eq!(w.write_chars(&mut fw2, &vec!['a', 'b', 'c']), Ok(()));
    assert_eq!(fw1.calls, fw2.calls);
}
