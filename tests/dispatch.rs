use std::sync::Arc;

use chat_dispatch::api::{CallbackQuery, Chat, Message, User};
use chat_dispatch::chain::ChainRun;
use chat_dispatch::event::{Event, EventError, MessageEvent};
use chat_dispatch::handler::{Action, Handler};
use chat_dispatch::logging::{log_handler, push_decimal};
use chat_dispatch::state::State;
use tokio::sync::RwLock;

fn run(outcomes: &[Result<Action, ()>]) -> (Vec<usize>, ChainRun) {
    let mut chain = ChainRun::start(outcomes.len());
    let mut invoked = Vec::new();
    while let Some(i) = chain.next_handler() {
        invoked.push(i);
        match &outcomes[i] {
            Ok(a) => {
                chain.record(a.clone());
            }
            Err(()) => chain.fail(),
        }
    }
    (invoked, chain)
}

#[test]
fn chain_stops_at_done() {
    let (invoked, chain) = run(&[Ok(Action::Next), Ok(Action::Done), Ok(Action::Next)]);
    assert_eq!(invoked, vec![0, 1]);
    let actions = chain.into_actions();
    assert_eq!(actions.len(), 2);
    assert!(matches!(actions[0], Action::Next));
    assert!(matches!(actions[1], Action::Done));
}

#[test]
fn chain_replies_continue() {
    let (invoked, chain) = run(&[
        Ok(Action::ReplyText("a".to_string())),
        Ok(Action::ReplyMarkdown("*b*".to_string())),
        Ok(Action::ReplySticker("s".to_string())),
    ]);
    assert_eq!(invoked, vec![0, 1, 2]);
    assert!(!chain.failed());
    assert_eq!(chain.actions().len(), 3);
}

#[test]
fn chain_aborts_on_failure() {
    let (invoked, chain) = run(&[Ok(Action::Next), Err(()), Ok(Action::Next)]);
    assert_eq!(invoked, vec![0, 1]);
    assert!(chain.failed());
    assert_eq!(chain.actions().len(), 1);
}

#[test]
fn empty_chain_invokes_nothing() {
    let (invoked, chain) = run(&[]);
    assert!(invoked.is_empty());
    assert!(chain.actions().is_empty());
}

#[test]
fn record_reports_whether_to_go_on() {
    let mut chain = ChainRun::start(2);
    assert_eq!(chain.next_handler(), Some(0));
    assert!(chain.record(Action::Next));
    assert_eq!(chain.next_handler(), Some(1));
    assert!(!chain.record(Action::Next));
    assert_eq!(chain.next_handler(), None);
}

#[test]
fn action_flags() {
    assert!(Action::Next.continues());
    assert!(!Action::Done.continues());
    assert!(Action::ReplyText("x".to_string()).continues());
    assert!(Action::ReplySticker("x".to_string()).is_reply());
    assert!(!Action::Next.is_reply());
    assert!(!Action::Done.is_reply());
}

#[test]
fn derive_is_isolated() {
    let c = State::new(5u32);
    let d = c.try_derive().expect("no writer holds the lock");
    *d.get().blocking_write() = 7;
    assert_eq!(*c.get().blocking_read(), 5);
    *c.get().blocking_write() = 9;
    assert_eq!(*d.get().blocking_read(), 7);
    assert_eq!(*c.get().blocking_read(), 9);
}

#[test]
fn derive_waits_out_a_writer() {
    let c = State::new(1u32);
    let guard = c.get().try_write().unwrap();
    assert!(c.try_derive().is_none());
    drop(guard);
    assert!(c.try_derive().is_some());
}

#[test]
fn shared_state_sees_mutations() {
    let c = State::new(String::from("a"));
    let s = State::shared(c.get().clone());
    s.get().blocking_write().push('b');
    assert_eq!(*c.get().blocking_read(), "ab");
}

#[test]
fn handler_state_construction() {
    let h: Handler<u32, fn(u32) -> u32> = Handler::new(|x| x + 1);
    assert_eq!(*h.state.get().blocking_read(), 0);
    assert_eq!((h.f)(1), 2);
    let h = h.with_state(10);
    assert_eq!(*h.state.get().blocking_read(), 10);
    let shared = Arc::new(RwLock::new(3u32));
    let mut h = h;
    h.set_state(shared.clone());
    *shared.blocking_write() = 4;
    assert_eq!(*h.state.get().blocking_read(), 4);
}

fn new_event(chat_id: i64, from: Option<&str>, text: Option<&str>) -> Event<()> {
    Event {
        api: Arc::new(()),
        message: MessageEvent::New(Message {
            message_id: 1,
            chat: Chat { id: chat_id },
            from: from.map(|f| User { id: 2, first_name: f.to_string() }),
            text: text.map(|t| t.to_string()),
        }),
    }
}

#[test]
fn log_handler_logs_new_message() {
    let state = State::new(17u32);
    let mut log = Vec::new();
    let r = log_handler(&new_event(42, Some("Ana"), Some("hi")), &state, &mut log);
    assert!(matches!(r, Ok(Action::Next)));
    assert_eq!(log, vec!["(42) Message from Ana: hi".to_string()]);
    assert!(log[0].contains("42") && log[0].contains("Ana") && log[0].contains("hi"));
    assert_eq!(*state.get().blocking_read(), 17);
}

#[test]
fn log_handler_defaults_absent_fields() {
    let mut log = vec!["earlier".to_string()];
    let r = log_handler(&new_event(-1007, None, None), &(), &mut log);
    assert!(matches!(r, Ok(Action::Next)));
    assert_eq!(log, vec!["earlier".to_string(), "(-1007) Message from : ".to_string()]);
}

#[test]
fn log_handler_logs_callback() {
    let e = Event {
        api: Arc::new(()),
        message: MessageEvent::Callback(CallbackQuery {
            id: "q".to_string(),
            from: User { id: 3, first_name: "Bo".to_string() },
            message: Some(Message { message_id: 4, chat: Chat { id: 5 }, from: None, text: None }),
            data: Some("yes".to_string()),
        }),
    };
    let mut log = Vec::new();
    assert!(matches!(log_handler(&e, &(), &mut log), Ok(Action::Next)));
    assert_eq!(log, vec!["(5) Callback from Bo: yes".to_string()]);
}

#[test]
fn log_handler_callback_without_message() {
    let e = Event {
        api: Arc::new(()),
        message: MessageEvent::Callback(CallbackQuery {
            id: "q".to_string(),
            from: User { id: 3, first_name: "Bo".to_string() },
            message: None,
            data: None,
        }),
    };
    let mut log = Vec::new();
    assert!(matches!(log_handler(&e, &(), &mut log), Ok(Action::Next)));
    assert_eq!(log, vec!["(0) Callback from Bo: ".to_string()]);
}

#[test]
fn log_handler_rejects_unknown() {
    let e = Event { api: Arc::new(()), message: MessageEvent::Unknown };
    let mut log = vec!["kept".to_string()];
    assert_eq!(log_handler(&e, &(), &mut log).unwrap_err(), EventError::UnsupportedEventKind);
    assert_eq!(log, vec!["kept".to_string()]);
}

#[test]
fn decimal_edges() {
    for (n, s) in [
        (0i64, "0"),
        (9, "9"),
        (10, "10"),
        (-7, "-7"),
        (1234567890, "1234567890"),
        (i64::MAX, "9223372036854775807"),
        (i64::MIN, "-9223372036854775808"),
    ] {
        let mut out = String::from("x");
        push_decimal(&mut out, n);
        assert_eq!(out, format!("x{}", s));
    }
}

#[test]
fn handler_from_function() {
    let h: Handler<u32, fn(u32) -> u32> = Handler::from((|x| x * 2) as fn(u32) -> u32);
    assert_eq!((h.f)(4), 8);
    assert_eq!(*h.state.get().blocking_read(), 0);
}

#[test]
fn with_state_makes_a_fresh_container() {
    let h: Handler<u32, fn(u32) -> u32> = Handler::new(|x| x);
    let before = h.state.get().clone();
    let h = h.with_state(6);
    assert!(!Arc::ptr_eq(&before, h.state.get()));
    assert_eq!(Arc::strong_count(h.state.get()), 1);
    assert_eq!(*h.state.get().blocking_read(), 6);
    assert_eq!(*before.blocking_read(), 0);
}

#[test]
fn new_state_is_exclusively_owned() {
    let c = State::new(3u8);
    assert_eq!(Arc::strong_count(c.get()), 1);
    let d = c.try_derive().unwrap();
    assert!(!Arc::ptr_eq(c.get(), d.get()));
    assert_eq!(*d.get().blocking_read(), 3);
}
