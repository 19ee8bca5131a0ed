use cartezcash::mailbox::{Admission, Mailbox};

#[test]
fn submissions_beyond_the_capacity_wait() {
    let mut mailbox: Mailbox<&str> = Mailbox::new(2);
    assert_eq!(mailbox.submit("a"), Admission { ticket: 0, queued: true });
    assert_eq!(mailbox.submit("b"), Admission { ticket: 1, queued: true });
    assert_eq!(mailbox.submit("c"), Admission { ticket: 2, queued: false });
    assert_eq!(mailbox.submit("d"), Admission { ticket: 3, queued: false });
    assert_eq!(mailbox.submit("e"), Admission { ticket: 4, queued: false });
    assert_eq!(mailbox.submitted(), 5);
    assert_eq!(mailbox.answered(), 0);
}

#[test]
fn all_submissions_are_answered_once_in_their_order() {
    let calls = ["a", "b", "c", "d", "e", "f", "g"];
    let mut mailbox: Mailbox<&str> = Mailbox::new(3);
    for call in calls {
        mailbox.submit(call);
    }
    let mut started = Vec::new();
    let mut answered = Vec::new();
    while let Some((ticket, call)) = mailbox.start() {
        started.push((ticket, call));
        answered.push(mailbox.finish(call.to_uppercase()).unwrap());
    }
    assert_eq!(
        started,
        vec![(0, "a"), (1, "b"), (2, "c"), (3, "d"), (4, "e"), (5, "f"), (6, "g")]
    );
    assert_eq!(
        answered,
        vec![
            (0, "A".to_string()),
            (1, "B".to_string()),
            (2, "C".to_string()),
            (3, "D".to_string()),
            (4, "E".to_string()),
            (5, "F".to_string()),
            (6, "G".to_string()),
        ]
    );
    assert_eq!(mailbox.answered(), 7);
    assert_eq!(mailbox.submitted(), 7);
    assert_eq!(mailbox.start(), None);
    assert_eq!(mailbox.finish("late"), None);
}

#[test]
fn outcome_is_passed_on_as_it_is() {
    let mut mailbox: Mailbox<u8> = Mailbox::new(1);
    mailbox.submit(1);
    mailbox.submit(2);
    mailbox.start();
    let failed: Result<u8, String> = Err("refused".to_string());
    assert_eq!(mailbox.finish(failed.clone()), Some((0, failed)));
    mailbox.start();
    let done: Result<u8, String> = Ok(7);
    assert_eq!(mailbox.finish(done.clone()), Some((1, done)));
}

#[test]
fn one_call_runs_at_a_time() {
    let mut mailbox: Mailbox<u8> = Mailbox::new(4);
    mailbox.submit(10);
    mailbox.submit(20);
    assert!(!mailbox.is_running());
    assert_eq!(mailbox.start(), Some((0, 10)));
    assert!(mailbox.is_running());
    assert_eq!(mailbox.start(), None);
    assert_eq!(mailbox.start(), None);
    assert_eq!(mailbox.finish(()), Some((0, ())));
    assert!(!mailbox.is_running());
    assert_eq!(mailbox.finish(()), None);
    assert_eq!(mailbox.start(), Some((1, 20)));
    assert_eq!(mailbox.finish(()), Some((1, ())));
    assert_eq!(mailbox.start(), None);
}

#[test]
fn waiting_call_is_queued_when_a_place_is_free() {
    let mut mailbox: Mailbox<u8> = Mailbox::new(1);
    assert!(mailbox.submit(1).queued);
    assert!(!mailbox.submit(2).queued);
    assert_eq!(mailbox.start(), Some((0, 1)));
    // the place that call 1 left went to call 2, so call 3 has to wait
    assert_eq!(mailbox.submit(3), Admission { ticket: 2, queued: false });
    assert_eq!(mailbox.finish(()), Some((0, ())));
    assert_eq!(mailbox.start(), Some((1, 2)));
    assert_eq!(mailbox.finish(()), Some((1, ())));
    assert_eq!(mailbox.start(), Some((2, 3)));
    // now the queue is empty
    assert_eq!(mailbox.submit(4), Admission { ticket: 3, queued: true });
    assert_eq!(mailbox.finish(()), Some((2, ())));
    assert_eq!(mailbox.start(), Some((3, 4)));
    assert_eq!(mailbox.finish(()), Some((3, ())));
    assert_eq!(mailbox.answered(), 4);
}

#[test]
fn empty_mailbox_has_nothing_to_do() {
    let mut mailbox: Mailbox<u8> = Mailbox::new(10);
    assert_eq!(mailbox.submitted(), 0);
    assert_eq!(mailbox.answered(), 0);
    assert!(!mailbox.is_running());
    assert_eq!(mailbox.start(), None);
    assert_eq!(mailbox.finish(()), None);
    assert_eq!(mailbox.submitted(), 0);
}

#[test]
fn submissions_while_the_worker_runs_keep_their_order() {
    let mut mailbox: Mailbox<char> = Mailbox::new(2);
    let mut order = Vec::new();
    mailbox.submit('a');
    order.push(mailbox.start().unwrap().1);
    mailbox.submit('b');
    mailbox.submit('c');
    mailbox.submit('d');
    mailbox.finish(());
    order.push(mailbox.start().unwrap().1);
    mailbox.submit('e');
    mailbox.finish(());
    while let Some((_, call)) = mailbox.start() {
        order.push(call);
        mailbox.finish(());
    }
    assert_eq!(order, vec!['a', 'b', 'c', 'd', 'e']);
    assert_eq!(mailbox.answered(), mailbox.submitted());
}
