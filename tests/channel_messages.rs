use interactive_exeunit::messages::{Info, Messages, Progress, PROGRESS_COMPLETE};
use interactive_exeunit::prophecy::{GetProphecy, GuestAction, Messages as Channel};
use interactive_exeunit::wire::{encode_frame, split_frame};

#[test]
fn progress_round_trip() {
    for v in [0u32, 1, 500_000, PROGRESS_COMPLETE, u32::MAX] {
        let m = Messages::Progress(Progress { value: v });
        let bytes = m.encode();
        assert_eq!(bytes.len(), 9);
        assert_eq!(Messages::decode(&bytes), Some((m, 9)));
    }
}

#[test]
fn progress_encoding_bytes() {
    let m = Messages::Progress(Progress { value: 0x0102_0304 });
    assert_eq!(m.encode(), vec![0, 0, 0, 5, 1, 1, 2, 3, 4]);
}

#[test]
fn info_round_trip() {
    for t in ["a", "still alive", "żółw 🐢", ""] {
        let m = Messages::Info(Info { message: t.to_string() });
        let bytes = m.encode();
        assert_eq!(bytes.len(), 5 + t.len());
        assert_eq!(Messages::decode(&bytes), Some((m, 5 + t.len())));
    }
}

#[test]
fn info_encoding_holds_utf8_text() {
    let m = Messages::Info(Info { message: "hi".to_string() });
    assert_eq!(m.encode(), vec![0, 0, 0, 3, 2, b'h', b'i']);
}

#[test]
fn repeated_sends_split_apart() {
    let a = Messages::Progress(Progress { value: 250_000 });
    let b = Messages::Info(Info { message: "next".to_string() });
    let mut buf = a.encode();
    buf.extend(b.encode());
    let (m1, n1) = Messages::decode(&buf).unwrap();
    assert_eq!(m1, Messages::Progress(Progress { value: 250_000 }));
    let (m2, n2) = Messages::decode(&buf[n1..]).unwrap();
    assert_eq!(m2, Messages::Info(Info { message: "next".to_string() }));
    assert_eq!(n1 + n2, buf.len());
}

#[test]
fn incomplete_frame_is_not_decoded() {
    let bytes = Messages::Progress(Progress { value: 7 }).encode();
    for cut in 0..bytes.len() {
        assert_eq!(Messages::decode(&bytes[..cut]), None);
    }
}

#[test]
fn unknown_tag_is_rejected() {
    assert_eq!(Messages::decode(&[0, 0, 0, 1, 9]), None);
    assert_eq!(Channel::decode(&[0, 0, 0, 1, 9]), None);
}

#[test]
fn progress_with_wrong_length_is_rejected() {
    assert_eq!(Messages::decode(&[0, 0, 0, 4, 1, 0, 0, 0]), None);
}

#[test]
fn invalid_utf8_is_rejected() {
    assert_eq!(Messages::decode(&[0, 0, 0, 3, 2, 0xff, 0xfe]), None);
    assert_eq!(Channel::decode(&[0, 0, 0, 2, 3, 0xc0]), None);
}

#[test]
fn channel_round_trip() {
    let all = vec![
        Channel::GetProphecy,
        Channel::Finish,
        Channel::ProphecyResult { message: "a quiet day".to_string() },
    ];
    for m in all {
        let bytes = m.encode();
        let n = bytes.len();
        assert_eq!(Channel::decode(&bytes), Some((m, n)));
    }
}

#[test]
fn channel_encoding_bytes() {
    assert_eq!(Channel::GetProphecy.encode(), vec![0, 0, 0, 1, 1]);
    assert_eq!(Channel::Finish.encode(), vec![0, 0, 0, 1, 2]);
    assert_eq!(
        Channel::ProphecyResult { message: "ok".to_string() }.encode(),
        vec![0, 0, 0, 3, 3, b'o', b'k']
    );
}

#[test]
fn get_prophecy_converts() {
    assert_eq!(Channel::from(GetProphecy {}), Channel::GetProphecy);
}

#[test]
fn guest_reacts_to_messages() {
    assert_eq!(Channel::Finish.guest_action(), GuestAction::Stop);
    assert_eq!(Channel::GetProphecy.guest_action(), GuestAction::SendProphecy);
    let r = Channel::ProphecyResult { message: "x".to_string() };
    assert_eq!(r.guest_action(), GuestAction::Ignore);
}

#[test]
fn host_shows_only_results() {
    let r = Channel::ProphecyResult { message: "rain".to_string() };
    assert_eq!(r.result_text(), Some("rain".to_string()));
    assert_eq!(Channel::Finish.result_text(), None);
    assert_eq!(Channel::GetProphecy.result_text(), None);
}

#[test]
fn frames_wrap_and_split() {
    let f = encode_frame(&[7, 8, 9]);
    assert_eq!(f, vec![0, 0, 0, 3, 7, 8, 9]);
    let mut buf = f.clone();
    buf.push(1);
    assert_eq!(split_frame(&buf), Some((vec![7, 8, 9], 7)));
    assert_eq!(split_frame(&[0, 0, 1]), None);
    assert_eq!(split_frame(&[0, 0, 0, 2, 1]), None);
}

#[test]
fn progress_of_steps() {
    assert_eq!(Progress::of(1, 16).value, 62_500);
    assert_eq!(Progress::of(16, 16).value, PROGRESS_COMPLETE);
    assert_eq!(Progress::of(1, 3).value, 333_333);
    assert_eq!(Progress::of(0, 5).value, 0);
}
