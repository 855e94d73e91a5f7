use ssh_session::exec::{collect, ChannelMsg, ExecDrain};

fn data(bytes: &[u8]) -> ChannelMsg {
    ChannelMsg::Data { data: bytes.to_vec() }
}

#[test]
fn output_is_the_chunks_in_receipt_order() {
    let msgs = vec![data(b"hi"), data(b""), data(b"\n"), ChannelMsg::ExitStatus { exit_status: 0 }];
    let out = collect(&msgs);
    assert_eq!(out.output, b"hi\n".to_vec());
    assert_eq!(out.status, 0);
    let reversed = vec![data(b"\n"), data(b"hi")];
    assert_eq!(collect(&reversed).output, b"\nhi".to_vec());
}

#[test]
fn status_defaults_to_zero_without_an_exit_status() {
    let out = collect(&vec![data(b"partial"), ChannelMsg::Other]);
    assert_eq!(out.status, 0);
    assert_eq!(out.output, b"partial".to_vec());
    let empty = collect(&Vec::new());
    assert_eq!(empty.status, 0);
    assert!(empty.output.is_empty());
}

#[test]
fn the_last_exit_status_is_reported() {
    let msgs = vec![
        ChannelMsg::ExitStatus { exit_status: 3 },
        data(b"a"),
        ChannelMsg::ExitStatus { exit_status: 127 },
        ChannelMsg::Other,
        data(b"b"),
    ];
    let out = collect(&msgs);
    assert_eq!(out.status, 127);
    assert_eq!(out.output, b"ab".to_vec());
    let max = collect(&vec![ChannelMsg::ExitStatus { exit_status: u32::MAX }]);
    assert_eq!(max.status, u32::MAX);
}

#[test]
fn other_events_are_ignored() {
    let out = collect(&vec![ChannelMsg::Other, ChannelMsg::Other]);
    assert_eq!(out.status, 0);
    assert!(out.output.is_empty());
}

#[test]
fn drain_takes_messages_one_by_one() {
    let mut drain = ExecDrain::new();
    assert!(!drain.status_observed());
    drain.absorb(&data(b"one "));
    drain.absorb(&ChannelMsg::Other);
    assert!(!drain.status_observed());
    drain.absorb(&ChannelMsg::ExitStatus { exit_status: 0 });
    assert!(drain.status_observed());
    drain.absorb(&data(b"two"));
    let out = drain.finish();
    assert_eq!(out.output, b"one two".to_vec());
    assert_eq!(out.status, 0);
}

#[test]
fn drain_without_messages_reports_the_lenient_default() {
    let drain = ExecDrain::new();
    assert!(!drain.status_observed());
    let out = drain.finish();
    assert_eq!(out.status, 0);
    assert!(out.output.is_empty());
}

#[test]
fn draining_in_two_runs_equals_draining_at_once() {
    let first = vec![data(b"ab"), ChannelMsg::ExitStatus { exit_status: 1 }];
    let second = vec![data(b"cd"), ChannelMsg::Other];
    let mut all = vec![data(b"ab"), ChannelMsg::ExitStatus { exit_status: 1 }];
    all.push(data(b"cd"));
    all.push(ChannelMsg::Other);
    let mut joined = collect(&first).output;
    joined.extend(collect(&second).output);
    assert_eq!(collect(&all).output, joined);
    assert_eq!(collect(&all).status, 1);
}
