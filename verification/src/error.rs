use vstd::prelude::*;
use wasm_bindgen::JsValue;

verus! {

/// The host platform's opaque failure value, as produced by a rejected
/// asynchronous operation.
#[verifier::external_type_specification]
#[verifier::external_body]
pub struct ExJsValue(JsValue);

/// The uniform failure carrier of this crate: every recoverable failure,
/// whether raised locally or adapted from a host-platform failure value,
/// is reported as an `Error` holding a human-readable message.
#[derive(Debug, Clone)]
pub struct Error {
    msg: String,
}

impl View for Error {
    type V = Seq<char>;

    closed spec fn view(&self) -> Seq<char> {
        self.msg@
    }
}

/// The message an adapted host failure degrades to when its rendering came
/// back empty or when no rendering was available at all.
pub open spec fn fallback_message() -> Seq<char> {
    "unrenderable host failure"@
}

impl Error {
    /// Wraps a locally produced message.
    pub fn new(msg: &str) -> (e: Error)
        ensures
            e@ == msg@,
    {
        Error { msg: msg.to_owned() }
    }

    /// The human-readable description carried by this error.
    pub fn message(&self) -> (m: &String)
        ensures
            m@ == self@,
    {
        &self.msg
    }

    /// Adapts a rendered host-platform failure to an `Error`.
    ///
    /// The caller renders the failure to text as well as it can and hands
    /// the outcome here: `Some` with the rendering, or `None` where no
    /// rendering is available at all. Whatever came in, the adapted error
    /// carries a non-empty message: a non-empty rendering is kept verbatim,
    /// and a missing or empty one degrades to the fixed placeholder instead
    /// of failing a second time.
    pub fn from_host_failure(rendered: Option<String>) -> (e: Error)
        ensures
            e@.len() > 0,
            match rendered {
                Some(s) => e@ == (if s@.len() > 0 { s@ } else { fallback_message() }),
                None => e@ == fallback_message(),
            },
    {
        match rendered {
            Some(s) => {
                if s.as_str().is_empty() {
                    Error::fallback()
                } else {
                    Error { msg: s }
                }
            },
            None => Error::fallback(),
        }
    }

    /// Adapts an arbitrary host-platform failure value, whatever its shape,
    /// by a best-effort rendering: a value that carries its description as a
    /// string keeps that description verbatim, and any other value is
    /// rendered to a generic textual representation of it. The adapted error
    /// always carries a non-empty message, with the fixed placeholder
    /// standing in only where the rendering itself came back empty. How each
    /// rendering is adapted is stated exactly by
    /// [`Error::from_host_failure`], which this call hands the rendering to.
    pub fn from_host_value(value: &JsValue) -> (e: Error)
        ensures
            e@.len() > 0,
    {
        let rendered = match render_host_value(value) {
            Some(description) => description,
            None => render_host_value_generic(value),
        };
        Error::from_host_failure(Some(rendered))
    }

    /// The fixed placeholder error used when rendering a host failure failed.
    fn fallback() -> (e: Error)
        ensures
            e@ == fallback_message(),
            e@.len() > 0,
    {
        let e = Error { msg: "unrenderable host failure".to_owned() };
        proof {
            reveal_strlit("unrenderable host failure");
        }
        e
    }
}

/// Relies on `wasm_bindgen::JsValue::as_string`: the value's own text when
/// the host value is a string, `None` otherwise. Which of the two comes back
/// depends on the opaque host value, so nothing is promised of the outcome;
/// [`Error::from_host_failure`] states what is made of every outcome.
#[verifier::external_body]
fn render_host_value(value: &JsValue) -> (r: Option<String>) {
    value.as_string()
}

/// Relies on the `Debug` impl of `wasm_bindgen::JsValue`: a generic textual
/// representation of any host value, drawn through a host intrinsic. The
/// text depends on the opaque host value, so nothing is promised of the
/// outcome; [`Error::from_host_failure`] states what is made of every
/// outcome.
#[verifier::external_body]
fn render_host_value_generic(value: &JsValue) -> (r: String) {
    format!("{:?}", value)
}

} // verus!
