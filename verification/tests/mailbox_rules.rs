use dachannel::mailbox::{Mailbox, SendStep, TryRecvError, TrySendError};
use dachannel::sync_util::{PermanentNotify, Step};

#[test]
fn a_latch_stays_set() {
    let mut latch = PermanentNotify::new();
    assert!(!latch.get());
    assert!(matches!(latch.notified(), Step::Pending(_)));
    latch.notify();
    assert!(latch.get());
    assert!(matches!(latch.notified(), Step::Ready(())));
    latch.notify();
    assert!(latch.get());
    assert!(latch.notified().is_ready());
}

#[test]
fn a_mailbox_is_first_in_first_out() {
    let mut m: Mailbox<u32> = Mailbox::unbounded();
    assert!(m.is_empty());
    assert_eq!(m.capacity(), None);
    for i in 0..100 {
        assert!(m.try_send(i).is_ok());
    }
    assert_eq!(m.len(), 100);
    assert!(!m.is_full());
    for i in 0..100 {
        assert_eq!(m.try_recv(), Ok(i));
    }
    assert_eq!(m.try_recv(), Err(TryRecvError::Empty));
}

#[test]
fn a_full_mailbox_admits_after_a_receive() {
    let mut m: Mailbox<&str> = Mailbox::bounded(2);
    assert_eq!(m.capacity(), Some(2));
    assert!(m.try_send("a").is_ok());
    assert!(m.try_send("b").is_ok());
    assert!(m.is_full());
    assert!(matches!(m.try_send("c"), Err(TrySendError::Full("c"))));
    assert!(matches!(m.send("c"), SendStep::Full("c", _)));
    assert_eq!(m.len(), 2);
    assert_eq!(m.try_recv(), Ok("a"));
    assert!(matches!(m.send("c"), SendStep::Sent));
    assert!(m.is_full());
    assert_eq!(m.try_recv(), Ok("b"));
    assert_eq!(m.try_recv(), Ok("c"));
    assert!(Mailbox::<u8>::try_bounded(0).is_none());
    assert_eq!(Mailbox::<u8>::try_bounded(3).unwrap().capacity(), Some(3));
}

#[test]
fn a_closed_mailbox_drains() {
    let mut m: Mailbox<u8> = Mailbox::bounded(1);
    assert!(m.try_send(7).is_ok());
    assert!(m.close());
    assert!(!m.close());
    assert!(m.is_closed());
    let refused = m.try_send(8).unwrap_err();
    assert!(matches!(refused, TrySendError::Closed(8)));
    assert_eq!(refused.into_inner(), 8);
    assert!(matches!(m.send(9), SendStep::Closed(9)));
    assert!(matches!(m.recv(), Step::Ready(Some(7))));
    assert!(matches!(m.recv(), Step::Ready(None)));
    assert_eq!(m.try_recv(), Err(TryRecvError::Closed));

    let mut open: Mailbox<u8> = Mailbox::unbounded();
    assert!(matches!(open.recv(), Step::Pending(_)));
    assert_eq!(open.recv().ready(), None);
}
