use pantomime::mailbox::{CrossbeamChannelMailboxLogic, Mailbox};

#[test]
fn simple_test() {
    let mut mailbox = Mailbox::new(CrossbeamChannelMailboxLogic::new());

    assert_eq!(mailbox.retrieve(), None);

    let appender = mailbox.appender();
    appender.append(0);

    let appender2 = appender.clone();
    appender2.append(1);

    assert_eq!(mailbox.retrieve(), Some(0));
    assert_eq!(mailbox.retrieve(), Some(1));
    assert_eq!(mailbox.retrieve(), None);
}
