use crossroadsbot::conversation::{Conversation, ConversationError, ConversationLock};

#[test]
fn second_start_is_refused_while_active() {
    let mut lock = ConversationLock::new();
    let first = Conversation::start(&mut lock, 7).expect("first start must succeed");
    assert_eq!(first.user, 7);
    assert!(lock.contains(7));
    // a second start for the same user must fail and must not take anything
    let second = Conversation::start(&mut lock, 7);
    assert!(matches!(second, Err(ConversationError::ConversationLocked)));
    assert!(lock.contains(7));
    // another user is unaffected
    let other = Conversation::start(&mut lock, 8);
    assert!(other.is_ok());
}

#[test]
fn start_succeeds_again_after_close() {
    let mut lock = ConversationLock::new();
    let pending = Conversation::start(&mut lock, 7).unwrap();
    let open = pending.channel_opened(&mut lock, Some(100)).unwrap();
    let conv = open.anchored(&mut lock, Some(200)).unwrap();
    assert_eq!(conv.user, 7);
    assert_eq!(conv.chan, 100);
    assert_eq!(conv.msg, 200);
    conv.close(&mut lock);
    assert!(!lock.contains(7));
    assert!(Conversation::start(&mut lock, 7).is_ok());
}

#[test]
fn start_succeeds_again_after_timeout_and_cancel_and_error() {
    let mut lock = ConversationLock::new();

    let conv = Conversation::start(&mut lock, 9)
        .unwrap()
        .channel_opened(&mut lock, Some(1))
        .unwrap()
        .anchored(&mut lock, Some(2))
        .unwrap();
    let text = conv.timeout_msg(&mut lock);
    assert_eq!(text, "Conversation timed out");
    assert!(Conversation::start(&mut lock, 9).is_ok());

    let conv = Conversation::start(&mut lock, 10)
        .unwrap()
        .channel_opened(&mut lock, Some(1))
        .unwrap()
        .anchored(&mut lock, Some(2))
        .unwrap();
    let text = conv.canceled_msg(&mut lock);
    assert_eq!(text, "Conversation got canceled");
    assert!(Conversation::start(&mut lock, 10).is_ok());

    let conv = Conversation::start(&mut lock, 11)
        .unwrap()
        .channel_opened(&mut lock, Some(1))
        .unwrap()
        .anchored(&mut lock, Some(2))
        .unwrap();
    let text = conv.unexpected_error(&mut lock);
    assert_eq!(text, "Unexpected error, Sorry =(");
    assert!(Conversation::start(&mut lock, 11).is_ok());
}

#[test]
fn failed_channel_open_releases_the_lock() {
    let mut lock = ConversationLock::new();
    let pending = Conversation::start(&mut lock, 7).unwrap();
    let res = pending.channel_opened(&mut lock, None);
    assert!(matches!(res, Err(ConversationError::NoDmChannel)));
    assert!(!lock.contains(7));
    assert!(Conversation::start(&mut lock, 7).is_ok());
}

#[test]
fn failed_anchor_releases_the_lock() {
    let mut lock = ConversationLock::new();
    let open = Conversation::start(&mut lock, 7)
        .unwrap()
        .channel_opened(&mut lock, Some(5))
        .unwrap();
    let res = open.anchored(&mut lock, None);
    assert!(matches!(res, Err(ConversationError::DmBlocked)));
    assert!(!lock.contains(7));
    assert!(Conversation::start(&mut lock, 7).is_ok());
}

#[test]
fn abort_and_finish_hand_back_the_farewell() {
    let mut lock = ConversationLock::new();
    let conv = Conversation::start(&mut lock, 3)
        .unwrap()
        .channel_opened(&mut lock, Some(1))
        .unwrap()
        .anchored(&mut lock, Some(2))
        .unwrap();
    assert_eq!(conv.abort(&mut lock, Some(String::from("bye"))), Some(String::from("bye")));
    assert!(!lock.contains(3));

    let conv = Conversation::start(&mut lock, 3)
        .unwrap()
        .channel_opened(&mut lock, Some(1))
        .unwrap()
        .anchored(&mut lock, Some(2))
        .unwrap();
    assert_eq!(conv.abort(&mut lock, None), None);
    assert!(!lock.contains(3));

    let conv = Conversation::start(&mut lock, 3)
        .unwrap()
        .channel_opened(&mut lock, Some(1))
        .unwrap()
        .anchored(&mut lock, Some(2))
        .unwrap();
    assert_eq!(conv.finish_with_msg(&mut lock, String::from("done")), "done");
    assert!(!lock.contains(3));
}

#[test]
fn init_errors_are_recognized() {
    assert!(ConversationError::ConversationLocked.is_init_err());
    assert!(ConversationError::NoDmChannel.is_init_err());
    assert!(ConversationError::DmBlocked.is_init_err());
    assert!(!ConversationError::TimedOut.is_init_err());
    assert!(!ConversationError::Canceled.is_init_err());
    assert!(!ConversationError::Other(String::from("x")).is_init_err());
}

#[test]
fn error_messages_match_their_variant() {
    assert_eq!(
        ConversationError::ConversationLocked.message(),
        "Already in another DM conversation"
    );
    assert_eq!(ConversationError::NoDmChannel.message(), "Unable to load DM channel");
    assert_eq!(ConversationError::DmBlocked.message(), "Unable to send message in DM channel");
    assert_eq!(ConversationError::TimedOut.message(), "Conversation timed out");
    assert_eq!(ConversationError::Canceled.message(), "Conversation canceled");
    assert_eq!(ConversationError::Other(String::from("boom")).message(), "boom");
}
