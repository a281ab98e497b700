//! End-to-end scenarios: wrappers written out exactly as the plan
//! dictates, run against real failing and succeeding functions.

use std::io::{Error, ErrorKind};

use stringify_err::model::FnModel;
use stringify_err::model::ParamModel;
use stringify_err::model::PatModel;
use stringify_err::model::RetModel;
use stringify_err::model::SegmentArgs;
use stringify_err::model::SegmentModel;
use stringify_err::model::Strategy;
use stringify_err::stringify_err;

fn result_fn(name: &str, is_async: bool, params: Vec<ParamModel>, ok: &str) -> FnModel {
    FnModel {
        vis: String::new(),
        name: String::from(name),
        generics: String::new(),
        is_async,
        params,
        ret: RetModel::Path {
            segments: vec![SegmentModel {
                ident: String::from("Result"),
                args: SegmentArgs::Angle {
                    args: vec![String::from(ok), String::from("Error")],
                },
            }],
        },
    }
}

fn basic() -> Result<(), Error> {
    Err(Error::new(ErrorKind::Other, "test"))
}

// The wrapper the flat plan dictates for `basic`: same signature with the
// failure half of the return type replaced by text, a plain call, a
// success payload passed through, a failure rendered with the verbose
// (alternate) display form.
fn basic_ffi() -> Result<(), String> {
    match basic() {
        Ok(ok) => Ok(ok),
        Err(err) => Err(format!("{:#}", err)),
    }
}

#[test]
fn failing_function_yields_its_message_as_text() {
    let f = result_fn("basic", false, vec![], "()");
    let plan = stringify_err(&f, Strategy::Flat).unwrap();
    assert_eq!(plan.wrapper.name, String::from("basic_ffi"));
    assert_eq!(plan.call.callee, String::from("basic"));
    assert!(!plan.call.through_receiver);
    assert_eq!(basic_ffi().unwrap_err(), String::from("test"));
}

struct Test;

impl Test {
    fn err() -> Result<(), Error> {
        Err(Error::new(ErrorKind::Other, "test"))
    }

    // The wrapper for the no-receiver method, under its derived name.
    fn err_ffi() -> Result<(), String> {
        match Test::err() {
            Ok(ok) => Ok(ok),
            Err(err) => Err(format!("{:#}", err)),
        }
    }

    fn err_self(&self) -> Result<(), Error> {
        Err(Error::new(ErrorKind::Other, "test"))
    }

    // The wrapper for the receiver method: the plan dispatches through the
    // receiver.
    fn err_self_ffi(&self) -> Result<(), String> {
        match self.err_self() {
            Ok(ok) => Ok(ok),
            Err(err) => Err(format!("{:#}", err)),
        }
    }
}

#[test]
fn static_method_behaves_identically_under_its_derived_name() {
    let f = result_fn("err", false, vec![], "()");
    let plan = stringify_err(&f, Strategy::Flat).unwrap();
    assert_eq!(plan.wrapper.name, String::from("err_ffi"));
    assert!(!plan.call.through_receiver);
    assert_eq!(Test::err_ffi().unwrap_err(), String::from("test"));
}

#[test]
fn instance_method_dispatches_through_the_receiver() {
    let f = result_fn(
        "err_self",
        false,
        vec![ParamModel::Receiver {
            tokens: String::from("&self"),
        }],
        "()",
    );
    let plan = stringify_err(&f, Strategy::Flat).unwrap();
    assert_eq!(plan.wrapper.name, String::from("err_self_ffi"));
    assert!(plan.call.through_receiver);
    assert!(plan.call.args.is_empty());
    assert_eq!(Test.err_self_ffi().unwrap_err(), String::from("test"));
}

fn double(x: u32) -> Result<u32, Error> {
    Ok(x + x)
}

fn double_ffi(x: u32) -> Result<u32, String> {
    match double(x) {
        Ok(ok) => Ok(ok),
        Err(err) => Err(format!("{:#}", err)),
    }
}

#[test]
fn success_payload_passes_through_unchanged() {
    let f = result_fn(
        "double",
        false,
        vec![ParamModel::Typed {
            pat: PatModel::Ident {
                name: String::from("x"),
                mutable: false,
                has_attrs: false,
            },
            ty: String::from("u32"),
        }],
        "u32",
    );
    let plan = stringify_err(&f, Strategy::Flat).unwrap();
    assert_eq!(plan.call.args, vec![String::from("x")]);
    assert_eq!(double_ffi(21), Ok(42));
    assert_eq!(double(21).unwrap(), double_ffi(21).unwrap());
}

// An error whose verbose (alternate) rendering differs from its terse one:
// the wrapper must produce the verbose form bit-for-bit.
struct Chained;

impl std::fmt::Display for Chained {
    fn fmt(&self, f: &mut std::fmt::Formatter<'_>) -> std::fmt::Result {
        if f.alternate() {
            f.write_str("outer: caused by inner")
        } else {
            f.write_str("outer")
        }
    }
}

fn chained() -> Result<(), Chained> {
    Err(Chained)
}

fn chained_ffi() -> Result<(), String> {
    match chained() {
        Ok(ok) => Ok(ok),
        Err(err) => Err(format!("{:#}", err)),
    }
}

#[test]
fn failure_text_is_the_verbose_rendering() {
    assert_eq!(
        chained_ffi().unwrap_err(),
        String::from("outer: caused by inner")
    );
    assert_ne!(chained_ffi().unwrap_err(), format!("{}", Chained));
}

// The hidden-inner strategy for a plain function: the original logic lives
// under the internal name nested inside the wrapper's body, and the
// wrapper keeps the original's name.
fn hidden() -> Result<u8, String> {
    fn __hidden_inner() -> Result<u8, Error> {
        Err(Error::new(ErrorKind::Other, "test"))
    }
    match __hidden_inner() {
        Ok(ok) => Ok(ok),
        Err(err) => Err(format!("{:#}", err)),
    }
}

#[test]
fn hidden_inner_wrapper_keeps_the_original_name() {
    let f = result_fn("hidden", false, vec![], "u8");
    let plan = stringify_err(&f, Strategy::HiddenInner).unwrap();
    assert_eq!(plan.wrapper.name, String::from("hidden"));
    assert_eq!(plan.call.callee, String::from("__hidden_inner"));
    assert_eq!(hidden().unwrap_err(), String::from("test"));
}

struct NoopWaker;

impl std::task::Wake for NoopWaker {
    fn wake(self: std::sync::Arc<Self>) {}
}

fn run_to_completion<F: std::future::Future>(fut: F) -> F::Output {
    let waker = std::task::Waker::from(std::sync::Arc::new(NoopWaker));
    let mut cx = std::task::Context::from_waker(&waker);
    let mut fut = Box::pin(fut);
    loop {
        if let std::task::Poll::Ready(v) = fut.as_mut().poll(&mut cx) {
            return v;
        }
    }
}

async fn afail() -> Result<u8, Error> {
    Err(Error::new(ErrorKind::Other, "test"))
}

async fn asucceed() -> Result<u8, Error> {
    Ok(9)
}

// The wrappers the plan dictates for asynchronous originals: themselves
// asynchronous, awaiting the outcome before matching on it.
async fn afail_ffi() -> Result<u8, String> {
    match afail().await {
        Ok(ok) => Ok(ok),
        Err(err) => Err(format!("{:#}", err)),
    }
}

async fn asucceed_ffi() -> Result<u8, String> {
    match asucceed().await {
        Ok(ok) => Ok(ok),
        Err(err) => Err(format!("{:#}", err)),
    }
}

#[test]
fn asynchronous_wrapper_resolves_like_the_original() {
    let f = result_fn("afail", true, vec![], "u8");
    let plan = stringify_err(&f, Strategy::Flat).unwrap();
    assert!(plan.wrapper.is_async);
    assert!(plan.call.awaited);
    assert_eq!(
        run_to_completion(afail_ffi()).unwrap_err(),
        String::from("test")
    );
    assert_eq!(run_to_completion(asucceed_ffi()), Ok(9));
}
