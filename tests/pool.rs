use std::cell::Cell;
use std::rc::Rc;

use thread_pool::error::PoolCreationError;
use thread_pool::http::{classify, response, Route};
use thread_pool::pool::worker_ids;
use thread_pool::queue::WorkQueue;
use thread_pool::shutdown::{Shutdown, ShutdownStep};
use thread_pool::worker::{Message, Worker, WorkerState};

type Job = Box<dyn FnOnce()>;

#[test]
fn zero_size_is_refused_with_a_message() {
    let r = worker_ids(0);
    assert!(r.is_err());
    let e = r.err().unwrap();
    assert!(!e.message().is_empty());
    assert_eq!(e.message(), "Passed in invalid size, must be greater than 0");
    assert_eq!(e.to_string(), e.message());
}

#[test]
fn positive_size_gives_that_many_workers() {
    assert_eq!(worker_ids(1).ok().unwrap(), vec![0]);
    assert_eq!(worker_ids(4).ok().unwrap(), vec![0, 1, 2, 3]);
    assert_eq!(worker_ids(100).ok().unwrap().len(), 100);
}

#[test]
fn error_keeps_its_message() {
    let e = PoolCreationError::new(String::from("no room"));
    assert_eq!(e.message(), "no room");
}

#[test]
fn queue_hands_out_in_submission_order() {
    let mut q: WorkQueue<u32> = WorkQueue::new();
    assert!(q.is_empty());
    q.submit(7);
    q.submit(3);
    q.submit(9);
    assert_eq!(q.len(), 3);
    assert_eq!(q.take(), Some(7));
    assert_eq!(q.take(), Some(3));
    assert_eq!(q.take(), Some(9));
    assert_eq!(q.take(), None);
    assert!(q.is_empty());
}

#[test]
fn each_job_is_taken_exactly_once() {
    let mut q: WorkQueue<u32> = WorkQueue::new();
    for j in 0..5u32 {
        q.submit(j);
    }
    let mut seen = Vec::new();
    while let Some(j) = q.take() {
        seen.push(j);
    }
    assert_eq!(seen, vec![0, 1, 2, 3, 4]);
}

#[test]
fn n_idle_workers_pick_up_n_jobs() {
    let mut q: WorkQueue<u32> = WorkQueue::new();
    q.submit(10);
    q.submit(20);
    q.submit(30);
    let picked: Vec<Option<u32>> = (0..3).map(|_| q.take()).collect();
    assert_eq!(picked, vec![Some(10), Some(20), Some(30)]);
    assert_eq!(q.len(), 0);
}

#[test]
fn take_from_empty_queue_leaves_it_empty() {
    let mut q: WorkQueue<u8> = WorkQueue::new();
    assert_eq!(q.take(), None);
    assert_eq!(q.len(), 0);
}

#[test]
fn worker_runs_jobs_until_told_to_stop() {
    let mut w = Worker::new(5);
    assert_eq!(w.id, 5);
    assert_eq!(w.state, WorkerState::Running);
    assert_eq!(w.receive(Message::NewJob(42u8)), Some(42));
    assert!(!w.is_stopped());
    assert_eq!(w.receive(Message::<u8>::Terminate), None);
    assert!(w.is_stopped());
    assert_eq!(w.id, 5);
}

#[test]
fn shutdown_sends_all_stop_orders_before_joining() {
    let mut s = Shutdown::new(3);
    let steps: Vec<ShutdownStep> = (0..8).map(|_| s.next()).collect();
    assert_eq!(
        steps,
        vec![
            ShutdownStep::SendTerminate,
            ShutdownStep::SendTerminate,
            ShutdownStep::SendTerminate,
            ShutdownStep::Join(0),
            ShutdownStep::Join(1),
            ShutdownStep::Join(2),
            ShutdownStep::Done,
            ShutdownStep::Done,
        ]
    );
}

#[test]
fn shutdown_of_no_workers_is_done_at_once() {
    let mut s = Shutdown::new(0);
    assert_eq!(s.next(), ShutdownStep::Done);
}

#[test]
fn two_workers_run_two_counter_jobs_then_stop() {
    let ids = worker_ids(2).ok().unwrap();
    let mut workers: Vec<Worker> = ids.iter().map(|&id| Worker::new(id)).collect();
    let counter = Rc::new(Cell::new(0u32));
    let mut q: WorkQueue<Message<Job>> = WorkQueue::new();
    for _ in 0..2 {
        let c = Rc::clone(&counter);
        q.submit(Message::NewJob(Box::new(move || c.set(c.get() + 1))));
    }
    let mut plan = Shutdown::new(workers.len());
    let mut turn = 0usize;
    loop {
        match plan.next() {
            ShutdownStep::SendTerminate => q.submit(Message::Terminate),
            ShutdownStep::Join(i) => {
                // Let the workers drain the queue until worker `i` has exited.
                while !workers[i].is_stopped() {
                    let w = turn % workers.len();
                    turn += 1;
                    if workers[w].is_stopped() {
                        continue;
                    }
                    let msg = q.take().unwrap();
                    if let Some(job) = workers[w].receive(msg) {
                        job();
                    }
                }
            }
            ShutdownStep::Done => break,
        }
    }
    assert_eq!(counter.get(), 2);
    assert!(workers.iter().all(|w| w.is_stopped()));
    assert!(q.is_empty());
}

#[test]
fn classify_known_and_unknown_requests() {
    assert_eq!(classify(b"GET / HTTP/1.1\r\nHost: x\r\n\r\n"), Route::Hello);
    assert_eq!(classify(b"GET /sleep HTTP/1.1\r\n"), Route::Sleep);
    assert_eq!(classify(b"GET /other HTTP/1.1\r\n"), Route::NotFound);
    assert_eq!(classify(b"GET / HTTP/1.1"), Route::NotFound);
    assert_eq!(classify(b""), Route::NotFound);
    let mut buffer = [0u8; 1024];
    buffer[..16].copy_from_slice(b"GET / HTTP/1.1\r\n");
    assert_eq!(classify(&buffer), Route::Hello);
}

#[test]
fn routes_name_status_and_page() {
    assert_eq!(Route::Hello.status_line(), "HTTP/1.1 200 OK");
    assert_eq!(Route::Sleep.page(), "hello.html");
    assert_eq!(Route::NotFound.status_line(), "HTTP/1.1 400 NOT FOUND");
    assert_eq!(Route::NotFound.page(), "404.html");
}

#[test]
fn response_carries_status_length_and_body() {
    assert_eq!(
        response(b"HTTP/1.1 200 OK", b"hi"),
        b"HTTP/1.1 200 OK\r\nContent-Lenght: 2\r\n\r\nhi".to_vec()
    );
    assert_eq!(response(b"S", b""), b"S\r\nContent-Lenght: 0\r\n\r\n".to_vec());
    let body = vec![b'x'; 1234];
    let r = response(b"S", &body);
    assert_eq!(&r[..27], b"S\r\nContent-Lenght: 1234\r\n\r\n");
    assert_eq!(r.len(), 27 + 1234);
}
