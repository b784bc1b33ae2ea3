use rustility::Discard;
use rustility::MapStep;
use rustility::option_async_map_finish;
use rustility::option_async_map_step;
use rustility::result_async_map_finish;
use rustility::result_async_map_step;

#[test]
fn test_discard_success() {
    let r: Result<i32, String> = Ok(1);
    r.discard();
}

#[test]
fn test_discard_failure() {
    let r: Result<i32, String> = Err(String::from("oops"));
    r.discard();
}

#[test]
fn test_discard_present() {
    let o: Option<Vec<u8>> = Some(vec![1, 2, 3]);
    o.discard();
}

#[test]
fn test_discard_absent() {
    let o: Option<Vec<u8>> = None;
    o.discard();
}

#[test]
fn test_option_map_step_present() {
    let s = option_async_map_step::<i32, i32>(Some(5));
    assert_eq!(s, MapStep::Transform(5));
}

#[test]
fn test_option_map_step_absent() {
    let s = option_async_map_step::<i32, i32>(None);
    assert_eq!(s, MapStep::Done(None));
}

#[test]
fn test_result_map_step_success() {
    let s = result_async_map_step::<i32, String, i32>(Ok(5));
    assert_eq!(s, MapStep::Transform(5));
}

#[test]
fn test_result_map_step_failure() {
    let s = result_async_map_step::<i32, String, i32>(Err(String::from("kept")));
    assert_eq!(s, MapStep::Done(Err(String::from("kept"))));
}

#[test]
fn test_map_finish() {
    assert_eq!(option_async_map_finish(6), Some(6));
    let r: Result<i32, String> = result_async_map_finish(6);
    assert_eq!(r, Ok(6));
}

// The transform runs at most once: it is consumed by the one invocation, and
// a counter shows exactly one call on a present container.
#[test]
fn test_async_map_present_transform_once() {
    let mut calls: u32 = 0;
    let r = futures::executor::block_on(async {
        match option_async_map_step::<i32, i32>(Some(5)) {
            MapStep::Transform(x) => {
                calls += 1;
                let u = async move { x + 1 }.await;
                option_async_map_finish(u)
            }
            MapStep::Done(d) => d,
        }
    });
    assert_eq!(calls, 1);
    assert_eq!(r, Some(6));
}

#[test]
fn test_async_map_absent_transform_never() {
    let mut calls: u32 = 0;
    let r = futures::executor::block_on(async {
        match option_async_map_step::<i32, i32>(None) {
            MapStep::Transform(x) => {
                calls += 1;
                let u = async move { x + 1 }.await;
                option_async_map_finish(u)
            }
            MapStep::Done(d) => d,
        }
    });
    assert_eq!(calls, 0);
    assert!(r.is_none());
}

#[test]
fn test_async_map_failure_payload_unchanged() {
    let r = futures::executor::block_on(async {
        match result_async_map_step::<i32, String, i32>(Err(String::from("original"))) {
            MapStep::Transform(x) => {
                let u = async move { x + 1 }.await;
                result_async_map_finish(u)
            }
            MapStep::Done(d) => d,
        }
    });
    assert_eq!(r, Err(String::from("original")));
}

// End to end: map present(5) through an asynchronous increment, then discard
// the mapped container; the whole completes without panicking.
#[test]
fn test_map_then_discard() {
    let mapped = futures::executor::block_on(async {
        match option_async_map_step::<i32, i32>(Some(5)) {
            MapStep::Transform(x) => {
                let u = async move { x + 1 }.await;
                option_async_map_finish(u)
            }
            MapStep::Done(d) => d,
        }
    });
    assert_eq!(mapped, Some(6));
    mapped.discard();
}
