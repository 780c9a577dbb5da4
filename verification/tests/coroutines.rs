use std::cell::RefCell;
use std::collections::HashMap;
use std::future::{Future, IntoFuture};
use std::pin::Pin;
use std::rc::Rc;
use std::task::{Context, Poll, Waker};

use colorless::context::{
    inside_context, polled, AwaitStep, Awaiting, OutsideOfContextError, TaskContext, ThreadState,
};
use colorless::stack::DefaultStack;
use colorless::tlv::{self, Tlv};
use colorless::Coroutine;
use corosensei::Yielder;
use futures_lite::future::{block_on, yield_now, zip};

/// What one thread keeps: its state, and the wakers of the tasks that poll.
#[derive(Clone)]
struct Thread {
    state: Rc<RefCell<ThreadState>>,
    wakers: Rc<RefCell<HashMap<usize, Waker>>>,
}

impl Thread {
    fn new() -> Self {
        Thread {
            state: Rc::new(RefCell::new(ThreadState::new())),
            wakers: Rc::new(RefCell::new(HashMap::new())),
        }
    }

    fn tlv(&self) -> usize {
        tlv::get(&self.state.borrow()).address
    }

    fn set_tlv(&self, address: usize) {
        tlv::set(&mut self.state.borrow_mut(), Tlv { address });
    }

    fn inside(&self) -> bool {
        inside_context(&mut self.state.borrow_mut())
    }

    fn task_context(&self, cx: &Context<'_>) -> TaskContext {
        let mut wakers = self.wakers.borrow_mut();
        let address = wakers.len() + 1;
        wakers.insert(address, cx.waker().clone());
        TaskContext::new(address)
    }
}

/// The code of a coroutine, as seen by the futures that it waits for.
struct Body<'a> {
    thread: &'a Thread,
    yielder: &'a Yielder<TaskContext, ()>,
}

impl Body<'_> {
    fn await_<F: IntoFuture>(&self, future: F) -> Result<F::Output, OutsideOfContextError> {
        let mut future = Box::pin(future.into_future());
        let mut awaiting = Awaiting::begin(&mut self.thread.state.borrow_mut())?;
        loop {
            let waker = self.thread.wakers.borrow()[&awaiting.cx().address].clone();
            let outcome = match future.as_mut().poll(&mut Context::from_waker(&waker)) {
                Poll::Ready(value) => Some(value),
                Poll::Pending => None,
            };
            let step = polled(awaiting, &mut self.thread.state.borrow_mut(), outcome);
            match step {
                AwaitStep::Return(value) => return Ok(value),
                AwaitStep::Suspend(suspended, inner) => {
                    assert_eq!(inner, address_of(self.yielder));
                    awaiting = suspended;
                    let context = self.yielder.suspend(());
                    awaiting.resume(&mut self.thread.state.borrow_mut(), context);
                }
            }
        }
    }
}

fn address_of(yielder: &Yielder<TaskContext, ()>) -> usize {
    usize::from_str_radix(&format!("{:p}", yielder)[2..], 16).unwrap()
}

struct Co<R> {
    coroutine: Coroutine<R>,
    thread: Thread,
}

impl<R> Unpin for Co<R> {}

impl<R: 'static> Co<R> {
    fn new<F>(thread: &Thread, f: F) -> Self
    where
        F: FnOnce(&Body<'_>) -> R + 'static,
    {
        let tlv = tlv::get(&thread.state.borrow());
        let on = thread.clone();
        let main = move |yielder: &Yielder<TaskContext, ()>, context, value| {
            on.state
                .borrow_mut()
                .enter(address_of(yielder), context, value);
            let r = f(&Body {
                thread: &on,
                yielder,
            });
            on.state.borrow_mut().leave();
            r
        };
        let coroutine = Coroutine::new(tlv, main);
        Co {
            coroutine,
            thread: thread.clone(),
        }
    }
}

impl<R: 'static> Future for Co<R> {
    type Output = R;

    fn poll(mut self: Pin<&mut Self>, cx: &mut Context<'_>) -> Poll<R> {
        let context = self.thread.task_context(cx);
        match self.coroutine.poll(context) {
            Some(r) => Poll::Ready(r),
            None => Poll::Pending,
        }
    }
}

#[test]
fn trivial() {
    let thread = Thread::new();
    block_on(Co::new(&thread, |_| {}))
}

#[test]
fn nested() {
    let thread = Thread::new();
    let inner = thread.clone();
    block_on(Co::new(&thread, move |body| {
        body.await_(Co::new(&inner, |_| ())).unwrap()
    }))
}

#[test]
fn simple_simple() {
    let thread = Thread::new();
    let inner = thread.clone();
    block_on(Co::new(&thread, move |body| {
        body.await_(yield_now()).unwrap();
        body.await_(Co::new(&inner, |body| body.await_(yield_now()).unwrap()))
            .unwrap();
        body.await_(yield_now()).unwrap();
    }));
    assert!(!thread.inside());
}

#[test]
fn zip_two() {
    let thread = Thread::new();
    let first = thread.clone();
    let second = thread.clone();
    block_on(zip(
        Co::new(&thread, move |body| {
            body.await_(yield_now()).unwrap();
            body.await_(Co::new(&first, |body| body.await_(yield_now()).unwrap()))
                .unwrap();
            body.await_(yield_now()).unwrap();
            body.await_(yield_now()).unwrap();
        }),
        Co::new(&thread, move |body| {
            body.await_(yield_now()).unwrap();
            body.await_(yield_now()).unwrap();
            body.await_(Co::new(&second, |body| body.await_(yield_now()).unwrap()))
                .unwrap();
            body.await_(yield_now()).unwrap();
        }),
    ));
    assert!(!thread.inside());
}

#[test]
fn a_coroutine_returns_what_its_function_returns() {
    let thread = Thread::new();
    let inner = thread.clone();
    let sum = block_on(Co::new(&thread, move |body| {
        let five = body.await_(Co::new(&inner, |_| 5)).unwrap();
        body.await_(yield_now()).unwrap();
        five + body.await_(async { 37 }).unwrap()
    }));
    assert_eq!(sum, 42);
}

#[test]
fn the_value_of_the_maker_survives_every_wait() {
    let thread = Thread::new();
    thread.set_tlv(7);
    let inner = thread.clone();
    let mut coroutine = Co::new(&thread, move |body| {
        assert_eq!(body.thread.tlv(), 7);
        body.thread.set_tlv(8);
        body.await_(yield_now()).unwrap();
        assert_eq!(body.thread.tlv(), 8);
        let seen = body
            .await_(Co::new(&inner, |body| {
                body.await_(yield_now()).unwrap();
                body.thread.tlv()
            }))
            .unwrap();
        assert_eq!(seen, 8);
        body.thread.tlv()
    });
    thread.set_tlv(9);
    let seen = block_on(async {
        let mut polls = 0;
        loop {
            polls += 1;
            let polled = std::future::poll_fn(|cx| {
                Poll::Ready(Pin::new(&mut coroutine).poll(cx))
            })
            .await;
            assert_eq!(thread.tlv(), 9);
            assert!(!thread.inside());
            if let Poll::Ready(seen) = polled {
                return (seen, polls);
            }
        }
    });
    assert_eq!(seen, (8, 3));
}

#[test]
fn only_the_body_is_inside_a_context() {
    let thread = Thread::new();
    assert!(!thread.inside());
    let polling = thread.clone();
    let inside = block_on(Co::new(&thread, move |body| {
        let before = body.thread.inside();
        let meanwhile = body.await_(async move { polling.inside() }).unwrap();
        (before, meanwhile, body.thread.inside())
    }));
    assert_eq!(inside, (true, false, true));
    assert!(!thread.inside());
}

#[test]
fn waiting_outside_of_a_coroutine_is_an_error() {
    let mut state = ThreadState::new();
    tlv::set(&mut state, Tlv { address: 3 });
    match Awaiting::begin(&mut state) {
        Ok(_) => panic!("there is no context to wait in"),
        Err(error) => {
            assert_eq!(error, OutsideOfContextError);
            assert_eq!(error.to_string(), "outside of any await context");
        }
    }
    assert_eq!(tlv::get(&state), Tlv { address: 3 });
}

#[test]
fn a_context_in_a_context_comes_back() {
    let thread = Thread::new();
    thread.set_tlv(1);
    let inner = thread.clone();
    block_on(Co::new(&thread, move |body| {
        // Polls the inner coroutine directly, with the outer context in place.
        let nested = Co::new(&inner, |body| {
            body.await_(yield_now()).unwrap();
            body.thread.inside()
        });
        assert!(block_on(nested));
        assert!(body.thread.inside());
        body.await_(yield_now()).unwrap();
        assert!(body.thread.inside());
    }));
    assert!(!thread.inside());
    assert_eq!(thread.tlv(), 1);
}

#[test]
fn a_thread_without_coroutines_has_nothing() {
    let state = ThreadState::new();
    assert_eq!(tlv::get(&state), Tlv::null());
    let (context, value) = state.into_parts();
    assert!(context.is_none());
    let mut state = ThreadState::from_parts(context, value);
    assert!(!inside_context(&mut state));
    state.enter(10, TaskContext::new(20), Tlv { address: 30 });
    assert!(inside_context(&mut state));
    assert_eq!(tlv::get(&state), Tlv { address: 30 });
    state.leave();
    assert!(!inside_context(&mut state));
    assert_eq!(tlv::get(&state), Tlv { address: 0 });
}

#[test]
fn the_stack_comes_back() {
    let stack = DefaultStack::new(64 * 1024).unwrap();
    let base = corosensei::stack::Stack::base(&stack);
    let mut coroutine = Coroutine::with_stack(
        stack,
        Tlv { address: 100 },
        |yielder: &Yielder<TaskContext, ()>, context: TaskContext, value: Tlv| {
            let again = yielder.suspend(());
            context.address + again.address + value.address
        },
    );
    assert!(!coroutine.is_finished());
    assert_eq!(coroutine.poll(TaskContext::new(40)), None);
    assert!(!coroutine.is_finished());
    assert_eq!(coroutine.poll(TaskContext::new(2)), Some(142));
    assert!(coroutine.is_finished());
    let stack = coroutine.into_stack();
    assert_eq!(corosensei::stack::Stack::base(&stack), base);
}

#[test]
fn a_function_can_hold_much() {
    let thread = Thread::new();
    let held = [3u8; 5000];
    let sum = block_on(Co::new(&thread, move |body| {
        body.await_(yield_now()).unwrap();
        held.iter().map(|byte| *byte as usize).sum::<usize>()
    }));
    assert_eq!(sum, 15_000);
}
