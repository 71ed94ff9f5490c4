use anterofit::error::Error;
use anterofit::net::call::{immediate, map_poll, oneshot, Async, Call, PanicGuard, Received};
use anterofit::net::method::HttpMethod;
use anterofit::net::request::RequestHead;

fn head() -> RequestHead {
    RequestHead::new(HttpMethod::Get, "/thing".to_string())
}

#[test]
fn poll_is_not_ready_then_block_returns_the_value() {
    let (mut guard, mut call): (PanicGuard<u32>, Call<u32>) = oneshot(Some(head()));
    assert!(matches!(call.poll_no_task(), Ok(Async::NotReady)));
    assert!(!call.is_available());
    assert!(!call.result_taken());
    guard.complete(Ok(17));
    assert!(call.is_available());
    assert!(matches!(call.block(), Ok(17)));
}

#[test]
fn poll_returns_the_value_once_available() {
    let (mut guard, mut call): (PanicGuard<u32>, Call<u32>) = oneshot(None);
    assert!(matches!(call.poll_no_task(), Ok(Async::NotReady)));
    assert!(matches!(call.poll_no_task(), Ok(Async::NotReady)));
    guard.complete(Ok(3));
    assert!(matches!(call.poll_no_task(), Ok(Async::Ready(3))));
    assert!(call.result_taken());
}

#[test]
fn second_poll_yields_already_taken() {
    let (mut guard, mut call): (PanicGuard<u32>, Call<u32>) = oneshot(Some(head()));
    guard.complete(Ok(1));
    assert!(matches!(call.poll_no_task(), Ok(Async::Ready(1))));
    assert!(matches!(call.poll_no_task(), Err(Error::ResultTaken)));
    assert!(matches!(call.poll_no_task(), Err(Error::ResultTaken)));
    assert!(!call.is_available());
    assert!(matches!(call.block(), Err(Error::ResultTaken)));
}

#[test]
fn second_poll_of_an_immediate_call_yields_already_taken() {
    let mut call: Call<u32> = immediate(Ok(5));
    assert!(call.is_immediate());
    assert!(call.is_available());
    assert!(matches!(call.poll_no_task(), Ok(Async::Ready(5))));
    assert!(!call.is_immediate());
    assert!(call.result_taken());
    assert!(matches!(call.poll_no_task(), Err(Error::ResultTaken)));
    assert!(matches!(call.block(), Err(Error::ResultTaken)));
}

#[test]
fn check_returns_none_when_not_ready_or_taken() {
    let (mut guard, mut call): (PanicGuard<u32>, Call<u32>) = oneshot(None);
    assert!(call.check().is_none());
    guard.complete(Ok(2));
    assert!(matches!(call.check(), Some(Ok(2))));
    assert!(call.check().is_none());
}

#[test]
fn check_returns_the_error_that_was_sent() {
    let (mut guard, mut call): (PanicGuard<u32>, Call<u32>) = oneshot(None);
    guard.complete(Err(Error::Other("boom".to_string())));
    match call.check() {
        Some(Err(Error::Other(text))) => assert_eq!(text, "boom"),
        _ => panic!("the error that was sent is the error that is taken"),
    }
    assert!(call.check().is_none());
}

#[test]
fn immediate_error_is_taken_once() {
    let mut call: Call<u32> = immediate(Err(Error::UnknownPanic));
    assert!(matches!(call.poll_no_task(), Err(Error::UnknownPanic)));
    assert!(matches!(call.poll_no_task(), Err(Error::ResultTaken)));
}

#[test]
fn guard_dropped_armed_resolves_the_call_with_the_head() {
    let (guard, call): (PanicGuard<u32>, Call<u32>) = oneshot(Some(head()));
    assert!(guard.armed());
    assert!(guard.has_head());
    drop(guard);
    assert!(call.is_available());
    match call.block() {
        Err(Error::Panic(panicked)) => {
            assert_eq!(panicked.0.get_url(), "/thing");
            assert_eq!(
                panicked.display(),
                "Panic while executing request: \"GET /thing\""
            );
        }
        _ => panic!("a guard that goes away armed says which request failed"),
    }
}

#[test]
fn guard_dropped_armed_without_head_resolves_the_call() {
    let (guard, mut call): (PanicGuard<u32>, Call<u32>) = oneshot(None);
    assert!(!guard.has_head());
    drop(guard);
    assert!(matches!(call.poll_no_task(), Err(Error::UnknownPanic)));
    assert!(matches!(call.poll_no_task(), Err(Error::ResultTaken)));
}

#[test]
fn completed_guard_sends_nothing_more() {
    let (mut guard, mut call): (PanicGuard<u32>, Call<u32>) = oneshot(Some(head()));
    guard.complete(Ok(4));
    assert!(!guard.armed());
    guard.complete(Ok(5));
    drop(guard);
    assert!(matches!(call.poll_no_task(), Ok(Async::Ready(4))));
    assert!(matches!(call.poll_no_task(), Err(Error::ResultTaken)));
}

#[test]
fn head_of_the_guard_can_be_changed() {
    let (mut guard, call): (PanicGuard<u32>, Call<u32>) = oneshot(Some(head()));
    guard.head_mut().prepend_url("/api");
    drop(guard);
    match call.block() {
        Err(Error::Panic(panicked)) => assert_eq!(panicked.0.get_url(), "/api/thing"),
        _ => panic!("the changed head is the head that is reported"),
    }
}

#[test]
fn dropping_the_call_does_not_disturb_the_guard() {
    let (mut guard, call): (PanicGuard<u32>, Call<u32>) = oneshot(Some(head()));
    call.ignore();
    guard.complete(Ok(1));
    assert!(!guard.armed());
}

#[test]
fn ignore_ok_is_ok() {
    let call: Call<u32> = immediate(Ok(1));
    assert!(matches!(call.ignore_ok(), Ok(())));
}

#[test]
fn map_poll_maps_each_answer_of_the_channel() {
    assert!(matches!(map_poll::<u32>(Received::Value(Ok(1))), Ok(Async::Ready(1))));
    assert!(matches!(
        map_poll::<u32>(Received::Value(Err(Error::ResultTaken))),
        Err(Error::ResultTaken)
    ));
    assert!(matches!(map_poll::<u32>(Received::Pending), Ok(Async::NotReady)));
    assert!(matches!(map_poll::<u32>(Received::Canceled), Err(Error::UnknownPanic)));
}

#[test]
fn abandoned_guard_says_what_a_dropped_guard_says() {
    let (mut guard, call): (PanicGuard<u32>, Call<u32>) = oneshot(Some(head()));
    guard.abandon();
    assert!(!guard.armed());
    assert!(!guard.has_head());
    guard.abandon();
    match call.block() {
        Err(Error::Panic(panicked)) => assert_eq!(panicked.0.get_url(), "/thing"),
        _ => panic!("an abandoned guard says which request failed"),
    }
    let (mut bare, mut call): (PanicGuard<u32>, Call<u32>) = oneshot(None);
    bare.abandon();
    assert!(bare.armed());
    assert!(matches!(call.poll_no_task(), Ok(Async::NotReady)));
    drop(bare);
    assert!(matches!(call.poll_no_task(), Err(Error::UnknownPanic)));
}
