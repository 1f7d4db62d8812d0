//! Unwrap-or-abort helpers.
//!
//! A success/failure container (`Result`, or `Option` for the payload-free
//! absence case) is first normalized to the `Result` shape by the
//! [`IntoResult`] adapter. The unwrap helpers then either hand the success
//! payload back, or produce the exact message that the caller should abort
//! with. The abort itself (a panic, which never returns) is the host
//! runtime's business and stays with the caller; everything up to it — the
//! normalization and the choice and rendering of the message — is verified
//! here.

use vstd::prelude::*;
use vstd::string::StringExecFns;

verus! {

/// What an unwrap attempt decided: either the success payload, or the
/// exact message that the current unit of execution should abort with.
/// Turning an `Abort` into the abort itself (a panic, which never
/// returns) is left to the unverified caller.
pub enum Unwrapped<T> {
    Value(T),
    Abort(String),
}

/// The fixed failure payload that stands in for an absent value.
pub const NONE_PAYLOAD: &'static str = "Got value of None";

/// Adapter that normalizes every accepted input shape to the `Result`
/// shape. The normalization is total and deterministic: a success payload
/// is kept unchanged, a result-like failure payload is kept unchanged, and
/// absence becomes the fixed payload [`NONE_PAYLOAD`].
pub trait IntoResult<T, E>: Sized {
    /// The normalized shape of this value.
    spec fn normalized(self) -> Result<T, E>;

    /// Normalizes the value, losing nothing.
    fn into_result(self) -> (r: Result<T, E>)
        ensures
            r == self.normalized(),
    ;
}

impl<T, E> IntoResult<T, E> for Result<T, E> {
    open spec fn normalized(self) -> Result<T, E> {
        self
    }

    fn into_result(self) -> (r: Result<T, E>) {
        self
    }
}

impl<T> IntoResult<T, &'static str> for Option<T> {
    open spec fn normalized(self) -> Result<T, &'static str> {
        match self {
            Some(v) => Ok(v),
            None => Err(NONE_PAYLOAD),
        }
    }

    fn into_result(self) -> (r: Result<T, &'static str>) {
        match self {
            Some(v) => Ok(v),
            None => Err(NONE_PAYLOAD),
        }
    }
}

/// Law: normalization of a result-like value is the identity — total,
/// deterministic, and lossless for the success payload and the failure
/// payload alike.
pub proof fn lemma_result_normalization_lossless<T, E>(r: Result<T, E>)
    ensures
        r.normalized() == r,
{
}

/// Law: normalization of an option-like value is total and deterministic:
/// a present payload is kept unchanged, and absence maps to exactly the
/// fixed failure payload.
pub proof fn lemma_option_normalization_lossless<T>(o: Option<T>)
    ensures
        o matches Some(v) ==> o.normalized() == Ok::<T, &'static str>(v),
        o is None ==> o.normalized() == Err::<T, &'static str>(NONE_PAYLOAD),
{
}

/// What `str`'s `Debug` rendering produces for a given sequence of
/// characters.
pub uninterp spec fn str_debug_of(s: Seq<char>) -> Seq<char>;

/// Relies on `str`'s `Debug` impl, through `format!("{:?}", ..)`: the
/// quoted, escaped rendering of a string, a function of its characters
/// alone.
#[verifier::external_body]
fn render_str_debug(e: &str) -> (m: String)
    ensures
        m@ == str_debug_of(e@),
{
    format!("{:?}", e)
}

/// Unwraps an input that is known to be success-shaped: the success
/// payload comes back unchanged, and nothing else happens.
pub fn expect_value<T, E, I: IntoResult<T, E>>(input: I) -> (v: T)
    requires
        input.normalized() is Ok,
    ensures
        input.normalized() == Ok::<T, E>(v),
{
    match input.into_result() {
        Ok(v) => v,
        Err(_) => vstd::pervasive::unreached(),
    }
}

/// The no-extra-arguments mode for a failure-payload (result-like) input:
/// the success payload comes back unchanged, and a failure payload is
/// rendered with its default `Debug` representation as the abort message.
///
/// An absent value (option-like input) has its own no-arguments mode,
/// [`unwrap_option_or_message`], whose message is the fixed payload
/// itself, unquoted.
pub fn unwrap_or_debug_message<T>(input: Result<T, &str>) -> (out: Unwrapped<T>)
    ensures
        input matches Ok(v) ==> out == Unwrapped::Value(v),
        input matches Err(e) ==> out is Abort && out->Abort_0@ == str_debug_of(e@),
{
    match input.into_result() {
        Ok(v) => Unwrapped::Value(v),
        Err(e) => Unwrapped::Abort(render_str_debug(e)),
    }
}

/// The no-extra-arguments mode for an option-like input: a present value
/// comes back unchanged, and absence aborts with exactly the fixed
/// message [`NONE_PAYLOAD`].
pub fn unwrap_option_or_message<T>(input: Option<T>) -> (out: Unwrapped<T>)
    ensures
        input matches Some(v) ==> out == Unwrapped::Value(v),
        input is None ==> out is Abort && out->Abort_0@ == NONE_PAYLOAD@,
{
    match input.into_result() {
        Ok(v) => Unwrapped::Value(v),
        Err(e) => Unwrapped::Abort(String::from_str(e)),
    }
}

/// The extra-arguments mode, for either input shape: the success payload
/// comes back unchanged, and on failure the abort message is whatever the
/// caller's `message` closure produces — the failure payload itself is
/// discarded by design.
///
/// The closure is called only on the failure path, so the caller pays no
/// formatting cost for a success-shaped input: its precondition is
/// required — and hence known to hold — only when the input is
/// failure-shaped.
pub fn unwrap_or_else_message<T, E, I: IntoResult<T, E>, F: FnOnce() -> String>(
    input: I,
    message: F,
) -> (out: Unwrapped<T>)
    requires
        input.normalized() is Err ==> call_requires(message, ()),
    ensures
        input.normalized() matches Ok(v) ==> out == Unwrapped::Value(v),
        input.normalized() is Err ==> out is Abort && call_ensures(message, (), out->Abort_0),
{
    match input.into_result() {
        Ok(v) => Unwrapped::Value(v),
        Err(_) => Unwrapped::Abort(message()),
    }
}

/// One helper call nested inside another's container expression: the
/// outer container is built from the inner success payload by `outer`,
/// and both are unwrapped in the no-extra-arguments mode. The innermost
/// failure wins: when `inner` is failure-shaped, the abort carries the
/// inner message, and `outer` is never evaluated — its precondition is
/// required, and hence known to hold, only on the inner success path.
pub fn unwrap_nested<T, U, F: FnOnce(T) -> Result<U, &'static str>>(
    inner: Result<T, &'static str>,
    outer: F,
) -> (out: Unwrapped<U>)
    requires
        inner matches Ok(v) ==> call_requires(outer, (v,)),
    ensures
        inner matches Err(e) ==> out is Abort && out->Abort_0@ == str_debug_of(e@),
        inner matches Ok(v) ==> (exists|r: Result<U, &'static str>|
            {
                &&& #[trigger] call_ensures(outer, (v,), r)
                &&& (r matches Ok(u) ==> out == Unwrapped::Value(u))
                &&& (r matches Err(e) ==> out is Abort && out->Abort_0@ == str_debug_of(e@))
            }),
{
    match inner {
        Ok(v) => {
            let r = outer(v);
            unwrap_or_debug_message(r)
        },
        Err(e) => Unwrapped::Abort(render_str_debug(e)),
    }
}

} // verus!
