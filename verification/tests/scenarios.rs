//! The rewritten definitions below are written out by hand, compiled with the
//! test, and called. Each test first checks that the library produces the very
//! tokens of the definition it then calls.

use std::future::Future;
use std::sync::Arc;
use std::task::{Context, Poll, Wake, Waker};

use err_handler::err_handler;

#[derive(Debug, PartialEq)]
enum Failure {
    Err1,
    Err2,
}

fn task_handler(e: Failure) -> Result<i32, Failure> {
    match e {
        Failure::Err1 => Ok(100),
        _ => Err(e),
    }
}

async fn async_task_handler(e: Failure) -> Result<i32, Failure> {
    match e {
        Failure::Err1 => Ok(100),
        _ => Err(e),
    }
}

const TASK: &str = "fn task(_v: i32) -> Result<i32, Failure> { Err(Failure::Err1) }";

const TASK_REWRITTEN: &str = "fn task(_v: i32) -> Result<i32, Failure> {
    fn _task(_v: i32) -> Result<i32, Failure> { Err(Failure::Err1) }
    match _task(_v) { Ok(v) => Ok(v), Err(e) => task_handler(e) }
}";

fn task(_v: i32) -> Result<i32, Failure> {
    fn _task(_v: i32) -> Result<i32, Failure> { Err(Failure::Err1) }
    match _task(_v) { Ok(v) => Ok(v), Err(e) => task_handler(e) }
}

const FAILING: &str = "fn failing(_v: i32) -> Result<i32, Failure> { Err(Failure::Err2) }";

const FAILING_REWRITTEN: &str = "fn failing(_v: i32) -> Result<i32, Failure> {
    fn _failing(_v: i32) -> Result<i32, Failure> { Err(Failure::Err2) }
    match _failing(_v) { Ok(v) => Ok(v), Err(e) => task_handler(e) }
}";

fn failing(_v: i32) -> Result<i32, Failure> {
    fn _failing(_v: i32) -> Result<i32, Failure> { Err(Failure::Err2) }
    match _failing(_v) { Ok(v) => Ok(v), Err(e) => task_handler(e) }
}

const DOUBLE: &str = "fn double(v: i32) -> Result<i32, Failure> { Ok(v * 2) }";

const DOUBLE_REWRITTEN: &str = "fn double(v: i32) -> Result<i32, Failure> {
    fn _double(v: i32) -> Result<i32, Failure> { Ok(v * 2) }
    match _double(v) { Ok(v) => Ok(v), Err(e) => task_handler(e) }
}";

fn double(v: i32) -> Result<i32, Failure> {
    fn _double(v: i32) -> Result<i32, Failure> { Ok(v * 2) }
    match _double(v) { Ok(v) => Ok(v), Err(e) => task_handler(e) }
}

const ASYNC_TASK: &str = "async fn async_task(_v: i32) -> Result<i32, Failure> { Err(Failure::Err1) }";

const ASYNC_TASK_REWRITTEN: &str = "async fn async_task(_v: i32) -> Result<i32, Failure> {
    async fn _async_task(_v: i32) -> Result<i32, Failure> { Err(Failure::Err1) }
    match _async_task(_v).await { Ok(v) => Ok(v), Err(e) => crate::async_task_handler(e).await }
}";

async fn async_task(_v: i32) -> Result<i32, Failure> {
    async fn _async_task(_v: i32) -> Result<i32, Failure> { Err(Failure::Err1) }
    match _async_task(_v).await { Ok(v) => Ok(v), Err(e) => crate::async_task_handler(e).await }
}

fn e(_x: Failure) -> Result<i32, Failure> {
    Ok(7)
}

const GUARDED: &str = "pub fn guarded(v: i32) -> Result<i32, Failure> { Err(Failure::Err1) }";

const GUARDED_REWRITTEN: &str = "pub fn guarded(v: i32) -> Result<i32, Failure> {
    fn _guarded(v: i32) -> Result<i32, Failure> { Err(Failure::Err1) }
    match _guarded(v) { Ok(v) => Ok(v), Err(error) => e(error) }
}";

pub fn guarded(v: i32) -> Result<i32, Failure> {
    fn _guarded(v: i32) -> Result<i32, Failure> { Err(Failure::Err1) }
    match _guarded(v) { Ok(v) => Ok(v), Err(error) => e(error) }
}

struct Counter {
    step: i32,
}

const ADVANCE: &str = "pub fn advance(&self, from: i32, by: i32) -> Result<i32, Failure> {
    if by < 0 { Err(Failure::Err1) } else { Ok(from + by) }
}";

const ADVANCE_REWRITTEN: &str = "pub fn advance(&self, from: i32, by: i32) -> Result<i32, Failure> {
    fn _advance(from: i32, by: i32) -> Result<i32, Failure> {
        if by < 0 { Err(Failure::Err1) } else { Ok(from + by) }
    }
    match _advance(from, by) { Ok(v) => Ok(v), Err(e) => task_handler(e) }
}";

impl Counter {
    pub fn advance(&self, from: i32, by: i32) -> Result<i32, Failure> {
        fn _advance(from: i32, by: i32) -> Result<i32, Failure> {
            if by < 0 { Err(Failure::Err1) } else { Ok(from + by) }
        }
        match _advance(from, by) { Ok(v) => Ok(v), Err(e) => task_handler(e) }
    }
}

/// The tokens of `source`, one space apart.
fn tokens(source: &str) -> String {
    source.parse::<proc_macro2::TokenStream>().unwrap().to_string()
}

struct Idle;

impl Wake for Idle {
    fn wake(self: Arc<Self>) {}
}

fn wait_for<F: Future>(future: F) -> F::Output {
    let mut future = Box::pin(future);
    let waker = Waker::from(Arc::new(Idle));
    let mut context = Context::from_waker(&waker);
    loop {
        if let Poll::Ready(output) = future.as_mut().poll(&mut context) {
            return output;
        }
    }
}

#[test]
fn handler_recovers_from_the_error() {
    let rewritten = err_handler("task_handler", TASK).unwrap();
    assert_eq!(tokens(&rewritten), tokens(TASK_REWRITTEN));
    assert_eq!(task(0), Ok(100));
}

#[test]
fn handler_hands_the_error_on() {
    let rewritten = err_handler("task_handler", FAILING).unwrap();
    assert_eq!(tokens(&rewritten), tokens(FAILING_REWRITTEN));
    assert_eq!(failing(0), Err(Failure::Err2));
}

#[test]
fn success_is_returned_unchanged() {
    let rewritten = err_handler("task_handler", DOUBLE).unwrap();
    assert_eq!(tokens(&rewritten), tokens(DOUBLE_REWRITTEN));
    assert_eq!(double(21), Ok(42));
}

#[test]
fn async_handler_recovers_from_the_error() {
    let rewritten = err_handler("crate::async_task_handler", ASYNC_TASK).unwrap();
    assert_eq!(tokens(&rewritten), tokens(ASYNC_TASK_REWRITTEN));
    assert_eq!(wait_for(async_task(0)), Ok(100));
}

#[test]
fn handler_named_e_is_called_with_the_error() {
    let rewritten = err_handler("e", GUARDED).unwrap();
    assert_eq!(tokens(&rewritten), tokens(GUARDED_REWRITTEN));
    assert_eq!(guarded(0), Ok(7));
}

#[test]
fn method_keeps_its_receiver_and_its_helper_has_none() {
    let rewritten = err_handler("task_handler", ADVANCE).unwrap();
    assert_eq!(tokens(&rewritten), tokens(ADVANCE_REWRITTEN));
    let counter = Counter { step: 1 };
    assert_eq!(counter.advance(40, counter.step + 1), Ok(42));
    assert_eq!(counter.advance(40, -counter.step), Ok(100));
}
