use middleware_stack::asynch::{Async, AsyncComputation};
use middleware_stack::builder::AppendMiddleware;
use middleware_stack::example::{Head, MyApp, PassThrough, Server, StubApp, TagMiddleware};
use middleware_stack::http::HttpRequest;
use middleware_stack::log_run_time::{LogRunTime, NullLogger};
use middleware_stack::service::Service;

fn request(body: Vec<u8>) -> HttpRequest {
    HttpRequest::new("GET", "/".to_string(), body)
}

#[test]
fn ordering_of_hooks() {
    // Built as app.use(A).use(B).use(C): before hooks must fire C, B, A,
    // then the application; after hooks in the order A, B, C.
    let stack = MyApp::new()
        .use_middleware(TagMiddleware { tag: 1 })
        .use_middleware(TagMiddleware { tag: 2 })
        .use_middleware(TagMiddleware { tag: 3 });
    let mut future = stack.call(request(vec![9]));
    match future.poll() {
        Ok(Async::Ready(resp)) => {
            // The echoing application saw [9, 3, 2, 1]; the after hooks
            // then appended 1, 2, 3 in that order.
            assert_eq!(resp.body, vec![9, 3, 2, 1, 1, 2, 3]);
        }
        _ => panic!("expected an immediate response"),
    }
}

#[test]
fn single_middleware_wraps_application() {
    let stack = MyApp::new().use_middleware(TagMiddleware { tag: 5 });
    let mut future = stack.call(request(vec![]));
    match future.poll() {
        Ok(Async::Ready(resp)) => assert_eq!(resp.body, vec![5, 5]),
        _ => panic!("expected an immediate response"),
    }
}

#[test]
fn identity_middleware_changes_nothing() {
    let plain = MyApp::new();
    let mut direct = plain.call(request(vec![4, 2]));
    let direct_body = match direct.poll() {
        Ok(Async::Ready(resp)) => resp.body,
        _ => panic!("expected an immediate response"),
    };

    let stack = MyApp::new().use_middleware(PassThrough);
    let mut wrapped = stack.call(request(vec![4, 2]));
    match wrapped.poll() {
        Ok(Async::Ready(resp)) => assert_eq!(resp.body, direct_body),
        _ => panic!("expected an immediate response"),
    }
}

#[test]
fn error_bypasses_after_hooks() {
    // The inner stage fails: the error must reach the caller unchanged,
    // and no enclosing after hook may run.
    let stack = StubApp { accepting: true, delay: 0, failure: Some(7) }
        .use_middleware(TagMiddleware { tag: 1 })
        .use_middleware(TagMiddleware { tag: 2 });
    let mut future = stack.call(request(vec![]));
    match future.poll() {
        Err(code) => assert_eq!(code, 7),
        _ => panic!("expected the stub's failure"),
    }
}

#[test]
fn error_after_delay_bypasses_after_hooks() {
    let stack = StubApp { accepting: true, delay: 2, failure: Some(41) }
        .use_middleware(TagMiddleware { tag: 1 });
    let mut future = stack.call(request(vec![]));
    assert!(matches!(future.poll(), Ok(Async::NotReady)));
    assert!(matches!(future.poll(), Ok(Async::NotReady)));
    match future.poll() {
        Err(code) => assert_eq!(code, 41),
        _ => panic!("expected the stub's failure"),
    }
}

#[test]
fn delayed_success_runs_after_hooks_in_order() {
    let stack = StubApp { accepting: true, delay: 1, failure: None }
        .use_middleware(TagMiddleware { tag: 1 })
        .use_middleware(TagMiddleware { tag: 2 });
    let mut future = stack.call(request(vec![]));
    assert!(matches!(future.poll(), Ok(Async::NotReady)));
    match future.poll() {
        Ok(Async::Ready(resp)) => assert_eq!(resp.body, vec![1, 2]),
        _ => panic!("expected the response on the second step"),
    }
}

#[test]
fn readiness_is_forwarded_from_the_application() {
    let ready_stack = StubApp { accepting: true, delay: 0, failure: None }
        .use_middleware(TagMiddleware { tag: 1 })
        .use_middleware(TagMiddleware { tag: 2 })
        .use_middleware(TagMiddleware { tag: 3 });
    assert!(matches!(ready_stack.poll_ready(), Async::Ready(())));

    let busy_stack = StubApp { accepting: false, delay: 0, failure: None }
        .use_middleware(TagMiddleware { tag: 1 })
        .use_middleware(TagMiddleware { tag: 2 })
        .use_middleware(TagMiddleware { tag: 3 });
    assert!(matches!(busy_stack.poll_ready(), Async::NotReady));
}

#[test]
fn readiness_is_forwarded_through_around_middleware() {
    let busy = StubApp { accepting: false, delay: 0, failure: None }
        .use_middleware(Head)
        .use_middleware(LogRunTime(NullLogger));
    assert!(matches!(busy.poll_ready(), Async::NotReady));

    let ready = StubApp { accepting: true, delay: 0, failure: None }
        .use_middleware(Head)
        .use_middleware(LogRunTime(NullLogger));
    assert!(matches!(ready.poll_ready(), Async::Ready(())));
}

#[test]
fn head_and_log_run_time_scenario() {
    // Stack = App.use(Head).use(LogRunTime): Head clears the body,
    // LogRunTime (outermost) measures until after Head's hook has run.
    let app = MyApp::new()
        .use_middleware(Head)
        .use_middleware(LogRunTime(NullLogger));
    assert!(matches!(app.poll_ready(), Async::Ready(())));
    let mut future = app.call(request(b"hello".to_vec()));
    assert!(future.record.is_none());
    match future.poll() {
        Ok(Async::Ready(resp)) => assert!(resp.body.is_empty()),
        _ => panic!("expected an immediate response"),
    }
    let record = future.record.as_ref().expect("the resolved call must be logged");
    assert_eq!(record.method, "GET");
    assert_eq!(record.path, "/");
    assert_eq!(record.elapsed_steps, 0);
}

#[test]
fn log_record_appears_only_at_resolution() {
    let app = StubApp { accepting: true, delay: 2, failure: None }
        .use_middleware(Head)
        .use_middleware(LogRunTime(NullLogger));
    let mut future = app.call(request(vec![]));
    assert!(matches!(future.poll(), Ok(Async::NotReady)));
    assert!(future.record.is_none());
    assert!(matches!(future.poll(), Ok(Async::NotReady)));
    assert!(future.record.is_none());
    match future.poll() {
        Ok(Async::Ready(resp)) => assert!(resp.body.is_empty()),
        _ => panic!("expected the response on the third step"),
    }
    let record = future.record.as_ref().expect("the resolved call must be logged");
    assert_eq!(record.elapsed_steps, 2);
}

#[test]
fn failed_calls_are_not_logged() {
    let app = StubApp { accepting: true, delay: 0, failure: Some(3) }
        .use_middleware(Head)
        .use_middleware(LogRunTime(NullLogger));
    let mut future = app.call(request(vec![]));
    match future.poll() {
        Err(code) => assert_eq!(code, 3),
        _ => panic!("expected the stub's failure"),
    }
    assert!(future.record.is_none());
}

#[test]
fn request_accessors() {
    let req = request(vec![1]);
    assert_eq!(req.method(), "GET");
    assert_eq!(req.path(), "/");
}

#[test]
fn server_accepts_a_composed_stack() {
    // The whole point of the builder protocol: this composition, written
    // in builder order, type-checks against the server's expectations.
    let app = MyApp::new()
        .use_middleware(Head)
        .use_middleware(LogRunTime(NullLogger));
    Server::new().run(app);
}
