use std::cell::RefCell;

use mt_server::tracker::LimitTracker;
use mt_server::tracker::Messenger;
use mt_server::tracker::warning_level;

struct MockMessenger {
    sent_messages: RefCell<Vec<String>>,
}

impl MockMessenger {
    fn new() -> MockMessenger {
        MockMessenger { sent_messages: RefCell::new(vec![]) }
    }
}

impl Messenger for MockMessenger {
    fn send(&self, message: &str) {
        self.sent_messages.borrow_mut().push(String::from(message));
    }
}

#[test]
fn it_sends_an_over_75_percent_warning_message() {
    let mock_messenger = MockMessenger::new();
    let mut limit_tracker = LimitTracker::new(&mock_messenger, 100);

    limit_tracker.set_value(80);

    assert_eq!(mock_messenger.sent_messages.borrow().len(), 1);
}

#[test]
fn warning_levels_split_at_the_documented_thresholds() {
    assert_eq!(warning_level(74, 100), 0);
    assert_eq!(warning_level(75, 100), 1);
    assert_eq!(warning_level(89, 100), 1);
    assert_eq!(warning_level(90, 100), 2);
    assert_eq!(warning_level(99, 100), 2);
    assert_eq!(warning_level(100, 100), 3);
    assert_eq!(warning_level(150, 100), 3);
    assert_eq!(warning_level(0, 0), 0);
    assert_eq!(warning_level(1, 0), 3);
}

#[test]
fn below_the_threshold_nothing_is_sent() {
    let mock_messenger = MockMessenger::new();
    let mut limit_tracker = LimitTracker::new(&mock_messenger, 100);
    limit_tracker.set_value(50);
    assert_eq!(mock_messenger.sent_messages.borrow().len(), 0);
}

#[test]
fn over_quota_sends_the_error_message() {
    let mock_messenger = MockMessenger::new();
    let mut limit_tracker = LimitTracker::new(&mock_messenger, 100);
    limit_tracker.set_value(101);
    assert_eq!(
        mock_messenger.sent_messages.borrow().first().map(String::as_str),
        Some("Error: You are over your quota!")
    );
}
