use teamech::cipher::seal;
use teamech::recent::{RecentPayloads, RECENT_CAPACITY};
use teamech::session::{
    auth_answer, drain, AuthEvent, AuthOutcome, AuthStep, DrainEvent, DrainStep, Phase, Session,
    Verdict,
};
use teamech::transport::{sendbytes, stamp};

fn sample_pad() -> Vec<u8> {
    let mut pad: Vec<u8> = Vec::new();
    for i in 0..1000u32 {
        pad.push(((i * 7 + 3) % 256) as u8);
    }
    pad
}

fn other_pad() -> Vec<u8> {
    let mut pad: Vec<u8> = Vec::new();
    for i in 0..1000u32 {
        pad.push(((i * 13 + 5) % 256) as u8);
    }
    pad
}

const NOW: u64 = 1_700_000_000_000;

fn operating() -> Session {
    let mut session: Session = Session::new();
    session.bound();
    let step: AuthStep = session.authenticate(AuthEvent::Answer(AuthOutcome::Subscribed));
    assert_eq!(step, AuthStep::Operate);
    session
}

#[test]
fn recent_payloads_start_empty() {
    let recent: RecentPayloads = RecentPayloads::new();
    assert_eq!(recent.len(), 0);
    assert!(!recent.contains(&vec![1, 2, 3]));
}

#[test]
fn recent_payloads_remember_once() {
    let mut recent: RecentPayloads = RecentPayloads::new();
    assert!(recent.remember(&vec![1, 2, 3]));
    assert!(!recent.remember(&vec![1, 2, 3]));
    assert_eq!(recent.len(), 1);
    assert!(recent.contains(&vec![1, 2, 3]));
    assert!(!recent.contains(&vec![1, 2]));
}

#[test]
fn recent_payloads_evict_the_oldest_first() {
    let mut recent: RecentPayloads = RecentPayloads::new();
    assert_eq!(RECENT_CAPACITY, 32);
    for i in 0..32u8 {
        assert!(recent.remember(&vec![i]));
    }
    assert_eq!(recent.len(), 32);
    assert!(recent.contains(&vec![0]));
    assert!(recent.remember(&vec![32]));
    assert_eq!(recent.len(), 32);
    assert!(!recent.contains(&vec![0]));
    assert!(recent.contains(&vec![1]));
    assert!(recent.contains(&vec![32]));
    assert!(recent.remember(&vec![33]));
    assert!(!recent.contains(&vec![1]));
    assert!(recent.contains(&vec![2]));
}

#[test]
fn recent_payloads_clear_forgets_all() {
    let mut recent: RecentPayloads = RecentPayloads::new();
    assert!(recent.remember(&vec![9]));
    recent.clear();
    assert_eq!(recent.len(), 0);
    assert!(recent.remember(&vec![9]));
}

#[test]
fn new_session_awaits_its_socket() {
    let session: Session = Session::new();
    assert_eq!(session.phase, Phase::Recovery);
    assert_eq!(session.polls, 0);
    assert_eq!(session.recent.len(), 0);
}

#[test]
fn bound_starts_the_handshake_with_an_empty_memory() {
    let mut session: Session = operating();
    let pad: Vec<u8> = sample_pad();
    let datagram: Vec<u8> = sendbytes(&vec![1, 2, 3], NOW, &pad).unwrap();
    let _ = session.receive(true, &datagram, &pad, NOW);
    assert_eq!(session.recent.len(), 1);
    session.bound();
    assert_eq!(session.phase, Phase::Authentication);
    assert_eq!(session.polls, 0);
    assert_eq!(session.recent.len(), 0);
}

#[test]
fn auth_answer_reads_the_status() {
    let pad: Vec<u8> = sample_pad();
    let accepted: Vec<u8> = sendbytes(&vec![0x02], NOW, &pad).unwrap();
    let rejected: Vec<u8> = sendbytes(&vec![0x19], NOW, &pad).unwrap();
    let unknown: Vec<u8> = sendbytes(&vec![0x42], NOW, &pad).unwrap();
    assert_eq!(accepted.len(), 25);
    assert_eq!(auth_answer(true, &accepted, &pad), AuthOutcome::Subscribed);
    assert_eq!(auth_answer(true, &rejected, &pad), AuthOutcome::Rejected);
    assert_eq!(auth_answer(true, &unknown, &pad), AuthOutcome::UnknownStatus(0x42));
}

#[test]
fn auth_answer_tells_a_wrong_pad_from_an_unreadable_one() {
    let pad: Vec<u8> = sample_pad();
    let accepted: Vec<u8> = sendbytes(&vec![0x02], NOW, &pad).unwrap();
    assert_eq!(auth_answer(true, &accepted, &other_pad()), AuthOutcome::PadMismatch);
    assert_eq!(auth_answer(true, &accepted, &vec![]), AuthOutcome::DecryptFailed);
}

#[test]
fn auth_answer_ignores_other_lengths_and_senders() {
    let pad: Vec<u8> = sample_pad();
    let accepted: Vec<u8> = sendbytes(&vec![0x02], NOW, &pad).unwrap();
    let empty: Vec<u8> = sendbytes(&vec![], NOW, &pad).unwrap();
    let longer: Vec<u8> = sendbytes(&vec![0x02, 0x02], NOW, &pad).unwrap();
    assert_eq!(auth_answer(false, &accepted, &pad), AuthOutcome::Ignored);
    assert_eq!(auth_answer(true, &empty, &pad), AuthOutcome::Ignored);
    assert_eq!(auth_answer(true, &longer, &pad), AuthOutcome::Ignored);
    assert_eq!(auth_answer(true, &vec![], &pad), AuthOutcome::Ignored);
}

#[test]
fn handshake_restarts_after_failures() {
    let mut session: Session = Session::new();
    session.bound();
    assert_eq!(
        session.authenticate(AuthEvent::RequestFailed),
        AuthStep::Restart { wait_ms: 5_000 }
    );
    assert_eq!(
        session.authenticate(AuthEvent::ReceiveFailed),
        AuthStep::Restart { wait_ms: 5_000 }
    );
    assert_eq!(
        session.authenticate(AuthEvent::Answer(AuthOutcome::Rejected)),
        AuthStep::Restart { wait_ms: 5_000 }
    );
    assert_eq!(
        session.authenticate(AuthEvent::Answer(AuthOutcome::PadMismatch)),
        AuthStep::Restart { wait_ms: 5_000 }
    );
    assert_eq!(
        session.authenticate(AuthEvent::Answer(AuthOutcome::DecryptFailed)),
        AuthStep::Restart { wait_ms: 5_000 }
    );
    assert_eq!(session.phase, Phase::Authentication);
    assert_eq!(session.polls, 0);
}

#[test]
fn handshake_polls_ten_times_then_asks_again() {
    let mut session: Session = Session::new();
    session.bound();
    for made in 1..10u8 {
        assert_eq!(
            session.authenticate(AuthEvent::NothingPending),
            AuthStep::Poll { polls: made, wait_ms: 100 }
        );
        assert_eq!(session.polls, made);
    }
    assert_eq!(session.authenticate(AuthEvent::NothingPending), AuthStep::Restart { wait_ms: 0 });
    assert_eq!(session.polls, 0);
    assert_eq!(session.phase, Phase::Authentication);
}

#[test]
fn request_sent_starts_the_polls_anew() {
    let mut session: Session = Session::new();
    session.bound();
    session.polls = 7;
    assert_eq!(
        session.authenticate(AuthEvent::RequestSent),
        AuthStep::Poll { polls: 0, wait_ms: 100 }
    );
    assert_eq!(session.polls, 0);
    assert_eq!(session.phase, Phase::Authentication);
}

#[test]
fn handshake_keeps_polling_after_noise() {
    let mut session: Session = Session::new();
    session.bound();
    assert_eq!(
        session.authenticate(AuthEvent::Answer(AuthOutcome::UnknownStatus(7))),
        AuthStep::Poll { polls: 1, wait_ms: 100 }
    );
    assert_eq!(
        session.authenticate(AuthEvent::Answer(AuthOutcome::Ignored)),
        AuthStep::Poll { polls: 2, wait_ms: 5_100 }
    );
    session.polls = 9;
    assert_eq!(
        session.authenticate(AuthEvent::Answer(AuthOutcome::Ignored)),
        AuthStep::Restart { wait_ms: 5_000 }
    );
    session.polls = 200;
    assert_eq!(session.authenticate(AuthEvent::NothingPending), AuthStep::Restart { wait_ms: 0 });
}

#[test]
fn message_is_delivered_and_acknowledged() {
    let pad: Vec<u8> = sample_pad();
    let mut session: Session = operating();
    let content: Vec<u8> = "Hello world!".as_bytes().to_vec();
    let datagram: Vec<u8> = sendbytes(&content, NOW, &pad).unwrap();
    let (verdict, delivered) = session.receive(true, &datagram, &pad, NOW + 5);
    assert_eq!(verdict, Verdict::Message);
    assert_eq!(delivered, content);
    assert_eq!(verdict.reply(), Some(0x06));
    assert!(!verdict.ends_session());
    assert_eq!(session.phase, Phase::Operate);
    assert_eq!(drain(DrainEvent::Judged(verdict)), DrainStep::Again);
}

#[test]
fn duplicate_datagram_is_delivered_once() {
    let pad: Vec<u8> = sample_pad();
    let mut session: Session = operating();
    let datagram: Vec<u8> = sendbytes(&vec![b'h', b'i'], NOW, &pad).unwrap();
    let first = session.receive(true, &datagram, &pad, NOW);
    let second = session.receive(true, &datagram, &pad, NOW);
    assert_eq!(first, (Verdict::Message, vec![b'h', b'i']));
    assert_eq!(second, (Verdict::Duplicate, vec![]));
    assert_eq!(second.0.reply(), None);
    assert_eq!(session.recent.len(), 1);
    assert_eq!(drain(DrainEvent::Judged(second.0)), DrainStep::Tick);
}

#[test]
fn same_content_sealed_anew_is_no_duplicate() {
    let pad: Vec<u8> = sample_pad();
    let mut session: Session = operating();
    let one: Vec<u8> = seal(&stamp(&vec![b'h', b'i'], NOW), &pad, &[1; 8]).unwrap();
    let two: Vec<u8> = seal(&stamp(&vec![b'h', b'i'], NOW), &pad, &[2; 8]).unwrap();
    assert_eq!(session.receive(true, &one, &pad, NOW).0, Verdict::Message);
    assert_eq!(session.receive(true, &two, &pad, NOW).0, Verdict::Message);
    assert_eq!(session.recent.len(), 2);
}

#[test]
fn timestamp_outside_the_window_is_stale() {
    let pad: Vec<u8> = sample_pad();
    let mut session: Session = operating();
    let late: Vec<u8> = sendbytes(&vec![b'a', b'b'], NOW - 10_001, &pad).unwrap();
    let edge: Vec<u8> = sendbytes(&vec![b'a', b'b'], NOW - 10_000, &pad).unwrap();
    let near: Vec<u8> = sendbytes(&vec![b'a', b'b'], NOW - 9_999, &pad).unwrap();
    let ahead: Vec<u8> = sendbytes(&vec![b'a', b'b'], NOW + 10_001, &pad).unwrap();
    assert_eq!(session.receive(true, &late, &pad, NOW), (Verdict::Stale, vec![]));
    assert_eq!(session.receive(true, &edge, &pad, NOW), (Verdict::Message, vec![b'a', b'b']));
    assert_eq!(session.receive(true, &near, &pad, NOW), (Verdict::Message, vec![b'a', b'b']));
    assert_eq!(session.receive(true, &ahead, &pad, NOW), (Verdict::Stale, vec![]));
    assert_eq!(Verdict::Stale.reply(), None);
    assert_eq!(drain(DrainEvent::Judged(Verdict::Stale)), DrainStep::Tick);
    assert_eq!(session.phase, Phase::Operate);
}

#[test]
fn short_datagrams_are_discarded_unopened() {
    let pad: Vec<u8> = sample_pad();
    let mut session: Session = operating();
    let least: Vec<u8> = sendbytes(&vec![], NOW, &pad).unwrap();
    assert_eq!(least.len(), 24);
    assert_eq!(session.receive(true, &vec![0; 23], &pad, NOW), (Verdict::TooShort, vec![]));
    assert_eq!(session.receive(true, &vec![0; 23], &vec![], NOW), (Verdict::TooShort, vec![]));
    assert_eq!(session.receive(true, &least, &pad, NOW), (Verdict::TooShort, vec![]));
    assert_eq!(session.receive(true, &vec![], &pad, NOW), (Verdict::TooShort, vec![]));
    assert_eq!(session.recent.len(), 0);
    assert_eq!(session.phase, Phase::Operate);
    assert_eq!(drain(DrainEvent::Judged(Verdict::TooShort)), DrainStep::Again);
}

#[test]
fn strangers_are_ignored() {
    let pad: Vec<u8> = sample_pad();
    let mut session: Session = operating();
    let datagram: Vec<u8> = sendbytes(&vec![b'h', b'i'], NOW, &pad).unwrap();
    assert_eq!(session.receive(false, &datagram, &pad, NOW), (Verdict::WrongSender, vec![]));
    assert_eq!(session.recent.len(), 0);
    assert_eq!(session.receive(true, &datagram, &pad, NOW).0, Verdict::Message);
    assert_eq!(drain(DrainEvent::Judged(Verdict::WrongSender)), DrainStep::Tick);
}

#[test]
fn invalid_datagram_notifies_and_rebuilds() {
    let pad: Vec<u8> = sample_pad();
    let mut session: Session = operating();
    let datagram: Vec<u8> = sendbytes(&vec![b'h', b'i'], NOW, &other_pad()).unwrap();
    let (verdict, delivered) = session.receive(true, &datagram, &pad, NOW);
    assert_eq!(verdict, Verdict::Invalid);
    assert!(delivered.is_empty());
    assert_eq!(verdict.reply(), Some(0x15));
    assert!(verdict.ends_session());
    assert_eq!(session.phase, Phase::Recovery);
    assert_eq!(drain(DrainEvent::Judged(verdict)), DrainStep::Rebuild { wait_ms: 2_000 });
}

#[test]
fn unreadable_pad_notifies_and_goes_on() {
    let pad: Vec<u8> = sample_pad();
    let mut session: Session = operating();
    let datagram: Vec<u8> = sendbytes(&vec![b'h', b'i'], NOW, &pad).unwrap();
    let (verdict, _) = session.receive(true, &datagram, &vec![], NOW);
    assert_eq!(verdict, Verdict::DecryptFailed);
    assert_eq!(verdict.reply(), Some(0x1A));
    assert!(!verdict.ends_session());
    assert_eq!(session.phase, Phase::Operate);
    assert_eq!(drain(DrainEvent::Judged(verdict)), DrainStep::Again);
}

#[test]
fn control_status_is_reported() {
    let pad: Vec<u8> = sample_pad();
    let mut session: Session = operating();
    let datagram: Vec<u8> = sendbytes(&vec![0x06], NOW, &pad).unwrap();
    let (verdict, delivered) = session.receive(true, &datagram, &pad, NOW);
    assert_eq!(verdict, Verdict::Control(0x06));
    assert!(delivered.is_empty());
    assert_eq!(verdict.reply(), None);
    assert_eq!(session.phase, Phase::Operate);
    assert_eq!(drain(DrainEvent::Judged(verdict)), DrainStep::Tick);
}

#[test]
fn drain_without_a_datagram() {
    assert_eq!(drain(DrainEvent::NothingPending), DrainStep::Tick);
    assert_eq!(drain(DrainEvent::ReceiveFailed), DrainStep::Retry { wait_ms: 5_000 });
}

#[test]
fn subscribe_operate_and_deauthenticate() {
    let pad: Vec<u8> = sample_pad();
    let mut session: Session = Session::new();
    assert_eq!(session.phase, Phase::Recovery);
    session.bound();
    let request: Vec<u8> = sendbytes(&vec![], NOW, &pad).unwrap();
    assert_eq!(request.len(), 24);
    assert_eq!(
        session.authenticate(AuthEvent::RequestSent),
        AuthStep::Poll { polls: 0, wait_ms: 100 }
    );
    assert_eq!(
        session.authenticate(AuthEvent::NothingPending),
        AuthStep::Poll { polls: 1, wait_ms: 100 }
    );
    let accepted: Vec<u8> = sendbytes(&vec![0x02], NOW + 150, &pad).unwrap();
    assert_eq!(accepted.len(), 25);
    let outcome: AuthOutcome = auth_answer(true, &accepted, &pad);
    assert_eq!(outcome, AuthOutcome::Subscribed);
    assert_eq!(session.authenticate(AuthEvent::Answer(outcome)), AuthStep::Operate);
    assert_eq!(session.phase, Phase::Operate);

    let ended: Vec<u8> = sendbytes(&vec![0x19], NOW + 2_000, &pad).unwrap();
    assert_eq!(ended.len(), 25);
    let (verdict, delivered) = session.receive(true, &ended, &pad, NOW + 2_100);
    assert_eq!(verdict, Verdict::Deauthenticated);
    assert!(delivered.is_empty());
    assert!(verdict.ends_session());
    assert_eq!(verdict.reply(), None);
    assert_eq!(drain(DrainEvent::Judged(verdict)), DrainStep::Rebuild { wait_ms: 0 });
    assert_eq!(session.phase, Phase::Recovery);
    session.bound();
    assert_eq!(session.phase, Phase::Authentication);
    assert_eq!(session.recent.len(), 0);
}
