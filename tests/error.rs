use trackable::error::{ErrorKind, ErrorKindExt, Failed, Failure, TrackableError, compose_report};
use trackable::{track, track_result, Cause, History, Location, Trackable};

#[derive(Debug, PartialEq, Eq, Clone)]
enum MyErrorKind {
    Critical,
    NonCritical,
}
impl ErrorKind for MyErrorKind {}

fn at(line: u32, message: Option<&str>) -> Location {
    Location::new("src/error.rs", line, message)
}

fn not_found() -> std::io::Error {
    std::io::Error::from(std::io::ErrorKind::NotFound)
}

fn trail_len<T: Trackable>(t: &T) -> usize {
    t.history().map(|h| h.len()).unwrap()
}

#[test]
fn it_works() {
    // Tracks an error
    let error = MyErrorKind::Critical.cause("something wrong");
    let error = track(error, at(439, None));
    let error = track(error, at(440, Some("I passed here")));
    assert_eq!(
        format!("\nError: {}", error.render().unwrap()).replace('\\', "/"),
        r#"
Error: Critical (cause; something wrong)
HISTORY:
  [0] at src/error.rs:439
  [1] at src/error.rs:440 -- I passed here
"#
    );

    // A failed I/O operation
    let result: Result<(), TrackableError<MyErrorKind>> =
        Err(MyErrorKind::Critical.cause(Cause::new(not_found())));
    let result = track_result(result, at(450, None));
    let error = result.err().unwrap();
    let cause = error.concrete_cause::<std::io::Error>().unwrap();
    assert_eq!(cause.kind(), std::io::ErrorKind::NotFound);
}

#[test]
fn cause_keeps_kind_and_starts_empty() {
    let e = MyErrorKind::NonCritical.cause("oops");
    assert_eq!(*e.kind(), MyErrorKind::NonCritical);
    assert_eq!(trail_len(&e), 0);
    assert!(e.cause().is_some());
    let e = TrackableError::new(MyErrorKind::Critical, String::from("text"));
    assert_eq!(*e.kind(), MyErrorKind::Critical);
    assert_eq!(trail_len(&e), 0);
}

#[test]
fn error_has_no_cause() {
    let e = Failed.error();
    assert!(e.cause().is_none());
    assert!(e.concrete_cause::<std::io::Error>().is_none());
    assert_eq!(e.render().unwrap(), "Failed\nHISTORY:\n");
    let d: TrackableError<Failed> = TrackableError::default();
    assert!(d.cause().is_none());
    assert_eq!(trail_len(&d), 0);
}

#[test]
fn track_appends_in_order() {
    let mut e = Failed.cause("x");
    for line in 1..=5u32 {
        e = track(e, at(line, None));
    }
    let h = e.history().unwrap();
    assert_eq!(h.len(), 5);
    let lines: Vec<u32> = h.events().iter().map(|l| l.line()).collect();
    assert_eq!(lines, vec![1, 2, 3, 4, 5]);
}

#[test]
fn track_result_leaves_success_alone() {
    let ok: Result<u32, TrackableError<Failed>> = Ok(7);
    let ok = track_result(ok, at(1, Some("never")));
    assert_eq!(ok.ok(), Some(7));

    let err: Result<u32, TrackableError<Failed>> = Err(Failed.error());
    let err = track_result(err, at(2, Some("here")));
    let e = err.err().unwrap();
    assert_eq!(trail_len(&e), 1);
    assert_eq!(e.history().unwrap().events()[0].message(), Some("here"));
}

#[test]
fn concrete_cause_needs_the_exact_type() {
    let e = Failed.cause(Cause::new(not_found()));
    let e = track(e, at(3, None));
    assert_eq!(e.concrete_cause::<std::io::Error>().unwrap().kind(), std::io::ErrorKind::NotFound);
    assert!(e.concrete_cause::<std::fmt::Error>().is_none());

    let t = Failed.cause("plain text");
    assert!(t.concrete_cause::<std::io::Error>().is_none());
    assert_eq!(t.cause().unwrap().text().unwrap(), "plain text");
}

#[test]
fn clone_then_diverge() {
    let e = track(Failed.cause(Cause::new(not_found())), at(11, Some("Hello `parent`!")));
    let f = e.clone();
    let f = track(f, at(13, Some("Hello `forked`!")));
    assert_eq!(trail_len(&e), 1);
    assert_eq!(trail_len(&f), 2);
    assert_eq!(e.history().unwrap().events()[0].render(), f.history().unwrap().events()[0].render());
    assert_eq!(
        f.render().unwrap(),
        "Failed (cause; entity not found)\nHISTORY:\n  [0] at src/error.rs:11 -- Hello `parent`!\n  [1] at src/error.rs:13 -- Hello `forked`!\n"
    );
    let a = e.concrete_cause::<std::io::Error>().unwrap();
    let b = f.concrete_cause::<std::io::Error>().unwrap();
    assert!(std::ptr::eq(a, b));
}

#[test]
fn takes_over_keeps_cause_and_history() {
    let d = MyErrorKind::Critical.cause(Cause::new(not_found()));
    let d = track(d, at(17, None));
    let kept = d.clone();
    let e = Failed.takes_over(d);
    assert_eq!(*e.kind(), Failed);
    assert_eq!(trail_len(&e), 1);
    assert!(std::ptr::eq(kept.concrete_cause::<std::io::Error>().unwrap(), e.concrete_cause::<std::io::Error>().unwrap()));
    let e = track(e, at(20, None));
    assert_eq!(e.render().unwrap(), "Failed (cause; entity not found)\nHISTORY:\n  [0] at src/error.rs:17\n  [1] at src/error.rs:20\n");
}

#[test]
fn kinds_describe_themselves() {
    assert_eq!(Failed.description(), "Failed");
    assert_eq!(Failed.render(), Some(String::from("Failed")));
    assert_eq!(MyErrorKind::Critical.description(), "An error");
    assert_eq!(MyErrorKind::NonCritical.render(), Some(String::from("NonCritical")));
    let k = String::from("disk full");
    assert_eq!(k.description(), "disk full");
    assert_eq!(ErrorKind::render(&k), Some(String::from("disk full")));
    let e = String::from("disk full").error();
    assert_eq!(e.description(), "disk full");
    assert_eq!(e.render().unwrap(), "disk full\nHISTORY:\n");
}

#[test]
fn failure_from_error() {
    let f = Failure::from_error(Cause::new(not_found()));
    assert_eq!(*f.kind(), Failed);
    assert!(f.concrete_cause::<std::io::Error>().is_some());
    let f = track(f, at(5, None));
    assert_eq!(f.render().unwrap(), "Failed (cause; entity not found)\nHISTORY:\n  [0] at src/error.rs:5\n");
    let g: Failure = Failure::from(Failed.error());
    assert!(g.inner().cause().is_none());
    assert_eq!(trail_len(&g.into_inner()), 0);
}

#[test]
fn locations_and_histories_render() {
    assert_eq!(Location::new("a.rs", 0, None).render(), "at a.rs:0");
    assert_eq!(Location::new("b/c.rs", 4294967295, Some("m")).render(), "at b/c.rs:4294967295 -- m");
    let mut h: History<Location> = History::new();
    assert!(h.is_empty());
    assert_eq!(h.render(), "HISTORY:\n");
    for i in 0..11u32 {
        h.push(Location::new("x.rs", 100 + i, None));
    }
    let text = h.render();
    assert!(text.ends_with("  [10] at x.rs:110\n"));
    assert_eq!(text.lines().count(), 12);
}

#[test]
fn reports_are_laid_out() {
    let mut h: History<Location> = History::new();
    h.push(Location::new("f.rs", 9, Some("why")));
    assert_eq!(compose_report("K", Some("c"), &h), "K (cause; c)\nHISTORY:\n  [0] at f.rs:9 -- why\n");
    assert_eq!(compose_report("K", None, &History::new()), "K\nHISTORY:\n");
}

#[test]
fn untracked_values_are_left_alone() {
    let none: Option<TrackableError<Failed>> = None;
    assert!(none.history().is_none());
    let none = track(none, at(1, Some("nothing")));
    assert!(none.is_none());

    let ok: Result<u32, TrackableError<Failed>> = Ok(5);
    assert!(ok.history().is_none());
    let ok = track(ok, at(2, None));
    assert_eq!(ok.ok(), Some(5));

    let err: Result<u32, TrackableError<Failed>> = Err(Failed.error());
    let err = track(err, at(3, None));
    assert_eq!(err.history().unwrap().len(), 1);

    let some = track(Some(Failed.error()), at(4, None));
    assert_eq!(trail_len(&some), 1);
}

#[test]
fn kind_converts_into_error() {
    let e: TrackableError<Failed> = Failed.into();
    assert_eq!(*e.kind(), Failed);
    assert!(e.cause().is_none());
    assert_eq!(trail_len(&e), 0);
    let e: TrackableError<String> = TrackableError::from(String::from("bad input"));
    assert_eq!(e.render().unwrap(), "bad input\nHISTORY:\n");
}

#[test]
fn tracking_keeps_kind_and_cause() {
    let r: Result<(), TrackableError<MyErrorKind>> = Err(MyErrorKind::NonCritical.cause("lost"));
    let r = track_result(r, at(30, None));
    let e = r.err().unwrap();
    assert_eq!(*e.kind(), MyErrorKind::NonCritical);
    assert_eq!(e.cause().unwrap().text().unwrap(), "lost");
    let d: TrackableError<Failed> = TrackableError::default();
    assert_eq!(*d.kind(), Failed);
    assert_eq!(d.description(), "Failed");
}

#[derive(Debug)]
struct Unwritable;
impl std::fmt::Display for Unwritable {
    fn fmt(&self, _f: &mut std::fmt::Formatter) -> std::fmt::Result {
        Err(std::fmt::Error)
    }
}
impl std::error::Error for Unwritable {}

#[test]
fn unwritable_cause_gives_no_report() {
    let e = Failed.cause(Cause::new(Unwritable));
    assert!(e.cause().unwrap().text().is_none());
    assert!(e.render().is_none());
    assert!(e.concrete_cause::<Unwritable>().is_some());
}
