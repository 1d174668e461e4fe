//! Errors, error scopes and the sink that every device error runs into.

use vstd::prelude::*;

use crate::native::{Userdata, WGPUDeviceLostReason, WGPUErrorType};

verus! {

/// An error of the device, with the cause it stems from.
#[derive(Debug)]
pub enum Error<S> {
    DeviceLost { source: S },
    OutOfMemory { source: S },
    Validation { source: S, description: String },
}

impl<S> Error<S> {
    pub open spec fn cause(&self) -> S {
        match *self {
            Error::DeviceLost { source } => source,
            Error::OutOfMemory { source } => source,
            Error::Validation { source, .. } => source,
        }
    }

    /// The text shown to users.
    pub open spec fn text(&self) -> Seq<char> {
        match *self {
            Error::DeviceLost { .. } => "Device lost"@,
            Error::OutOfMemory { .. } => "Out of Memory"@,
            Error::Validation { description, .. } => description@,
        }
    }

    /// The filter of the scopes that catch this error; a lost device is caught by none.
    pub open spec fn filter(&self) -> Option<ErrorFilter> {
        match *self {
            Error::DeviceLost { .. } => None,
            Error::OutOfMemory { .. } => Some(ErrorFilter::OutOfMemory),
            Error::Validation { .. } => Some(ErrorFilter::Validation),
        }
    }

    /// The cause; every error has one.
    pub fn source(&self) -> (source: Option<&S>)
        ensures
            source == Some(&self.cause()),
            match *self {
                Error::DeviceLost { source: s } => source == Some(&s),
                Error::OutOfMemory { source: s } => source == Some(&s),
                Error::Validation { source: s, .. } => source == Some(&s),
            },
    {
        match self {
            Error::DeviceLost { source } => Some(source),
            Error::OutOfMemory { source } => Some(source),
            Error::Validation { source, .. } => Some(source),
        }
    }

    /// The text shown to users.
    pub fn to_string(&self) -> (text: String)
        ensures
            text@ == self.text(),
            match *self {
                Error::DeviceLost { .. } => text@ == "Device lost"@,
                Error::OutOfMemory { .. } => text@ == "Out of Memory"@,
                Error::Validation { description, .. } => text@ == description@,
            },
    {
        match self {
            Error::DeviceLost { .. } => String::from_str("Device lost"),
            Error::OutOfMemory { .. } => String::from_str("Out of Memory"),
            Error::Validation { description, .. } => description.clone(),
        }
    }
}

#[derive(Clone, Copy, Debug, Eq, PartialEq, PartialOrd, Structural)]
pub enum ErrorFilter {
    /// Catch only out-of-memory errors.
    OutOfMemory,
    /// Catch only validation errors.
    Validation,
}

/// A scope that waits for the first error of its kind.
#[derive(Debug)]
pub struct ErrorScope<S> {
    pub error: Option<Error<S>>,
    pub filter: ErrorFilter,
}

/// A function to call back: the one built in, or one that the caller registered.
#[derive(Debug)]
pub enum Callback<F> {
    Default,
    Foreign(F),
}

impl<F: Copy> Copy for Callback<F> {

}

impl<F: Copy> Clone for Callback<F> {
    fn clone(&self) -> (copy: Self)
        ensures
            copy == *self,
    {
        *self
    }
}

/// A device callback with the user pointers to hand to it.
#[derive(Debug)]
pub struct DeviceCallback<T> {
    pub callback: T,
    pub userdata: Userdata,
}

/// The handlers of a device for which none was registered.
pub fn default_callback<F>() -> (handler: DeviceCallback<Option<Callback<F>>>)
    ensures
        handler == (DeviceCallback {
            callback: Some(Callback::<F>::Default),
            userdata: Userdata::null(),
        }),
{
    DeviceCallback { callback: Some(Callback::Default), userdata: Userdata::null() }
}

/// What the built-in handler of uncaptured errors panics with.
pub fn default_uncaptured_error_handler(message: Option<&str>) -> (text: String)
    ensures
        text@ == "wgpu uncaptured error:\n"@ + message_or_empty(message) + "\n"@,
        match message {
            Some(message) => text@ == "wgpu uncaptured error:\n"@ + message@ + "\n"@,
            None => text@ == "wgpu uncaptured error:\n"@ + "\n"@,
        },
{
    let mut text = String::from_str("wgpu uncaptured error:\n");
    match message {
        Some(message) => text.append(message),
        None => {},
    }
    text.append("\n");
    text
}

/// What the built-in handler of lost devices panics with.
pub fn default_device_lost_handler(message: Option<&str>) -> (text: String)
    ensures
        text@ == "wgpu device lost error:\n"@ + message_or_empty(message) + "\n"@,
        match message {
            Some(message) => text@ == "wgpu device lost error:\n"@ + message@ + "\n"@,
            None => text@ == "wgpu device lost error:\n"@ + "\n"@,
        },
{
    let mut text = String::from_str("wgpu device lost error:\n");
    match message {
        Some(message) => text.append(message),
        None => {},
    }
    text.append("\n");
    text
}

pub open spec fn message_or_empty(message: Option<&str>) -> Seq<char> {
    match message {
        Some(message) => message@,
        None => Seq::empty(),
    }
}

/// A call that the sink asks its owner to make.
#[derive(Debug)]
pub enum ErrorCall<U, L> {
    DeviceLost {
        handler: Callback<L>,
        device: usize,
        reason: WGPUDeviceLostReason,
        message: String,
        userdata: Userdata,
    },
    Uncaptured {
        callback: Callback<U>,
        device: usize,
        typ: WGPUErrorType,
        message: String,
        userdata: Userdata,
    },
}

/// The scopes of a device, innermost last, and its two error handlers.
#[derive(Debug)]
pub struct ErrorSinkRaw<S, U, L> {
    pub scopes: Vec<ErrorScope<S>>,
    pub uncaptured_handler: DeviceCallback<Option<Callback<U>>>,
    pub device_lost_handler: DeviceCallback<Option<Callback<L>>>,
    /// The address of the device that the errors belong to.
    pub device: Option<usize>,
}

/// The innermost scope with the filter.
pub open spec fn catching<S>(scopes: Seq<ErrorScope<S>>, filter: ErrorFilter) -> Option<int>
    decreases scopes.len(),
{
    if scopes.len() == 0 {
        None
    } else if scopes.last().filter == filter {
        Some(scopes.len() - 1)
    } else {
        catching(scopes.drop_last(), filter)
    }
}

/// The scopes after the error: the innermost scope with its filter takes it, if that scope
/// holds no error yet.
pub open spec fn record<S>(scopes: Seq<ErrorScope<S>>, err: Error<S>) -> Seq<ErrorScope<S>> {
    match err.filter() {
        None => scopes,
        Some(filter) => match catching(scopes, filter) {
            None => scopes,
            Some(i) => if scopes[i].error is None {
                scopes.update(i, ErrorScope { error: Some(err), filter })
            } else {
                scopes
            },
        },
    }
}

/// No scope has the filter of the error.
pub open spec fn uncaptured<S>(scopes: Seq<ErrorScope<S>>, err: Error<S>) -> bool {
    match err.filter() {
        None => false,
        Some(filter) => catching(scopes, filter) is None,
    }
}

impl<S, U, L> ErrorSinkRaw<S, U, L> {
    /// A handler has to be told of the error.
    pub open spec fn must_call(&self, err: Error<S>) -> bool {
        ||| err is DeviceLost && self.device_lost_handler.callback is Some
        ||| uncaptured(self.scopes@, err) && self.uncaptured_handler.callback is Some
    }

    /// The call is the one that the error asks for.
    pub open spec fn call_for(&self, err: Error<S>, call: ErrorCall<U, L>) -> bool {
        match call {
            ErrorCall::DeviceLost { handler, device, reason, message, userdata } => {
                &&& err is DeviceLost
                &&& self.device_lost_handler.callback == Some(handler)
                &&& self.device == Some(device)
                &&& reason == WGPUDeviceLostReason::Destroyed
                &&& message@ == err.text()
                &&& userdata == self.device_lost_handler.userdata
            },
            ErrorCall::Uncaptured { callback, device, typ, message, userdata } => {
                &&& uncaptured(self.scopes@, err)
                &&& self.uncaptured_handler.callback == Some(callback)
                &&& self.device == Some(device)
                &&& typ == (match err {
                    Error::OutOfMemory { .. } => WGPUErrorType::OutOfMemory,
                    _ => WGPUErrorType::Validation,
                })
                &&& message@ == err.text()
                &&& userdata == self.uncaptured_handler.userdata
            },
        }
    }

    fn innermost(&self, filter: ErrorFilter) -> (found: Option<usize>)
        ensures
            match found {
                Some(i) => catching(self.scopes@, filter) == Some(i as int) && i < self.scopes@.len()
                    && self.scopes@[i as int].filter == filter,
                None => catching(self.scopes@, filter) is None,
            },
    {
        let mut i: usize = self.scopes.len();
        assert(self.scopes@.take(i as int) == self.scopes@);
        while i > 0
            invariant
                i <= self.scopes@.len(),
                catching(self.scopes@, filter) == catching(self.scopes@.take(i as int), filter),
            decreases i,
        {
            i = i - 1;
            assert(self.scopes@.take(i + 1).drop_last() == self.scopes@.take(i as int));
            if self.scopes[i].filter == filter {
                return Some(i);
            }
        }
        None
    }

    /// Whether a handler has to be told of the error. If so, the device has to be known.
    pub fn must_call_handler(&self, err: &Error<S>) -> (must: bool)
        ensures
            must == self.must_call(*err),
            must <==> match *err {
                Error::DeviceLost { .. } => self.device_lost_handler.callback is Some,
                Error::OutOfMemory { .. } => self.uncaptured_handler.callback is Some && forall|i: int|
                    0 <= i < self.scopes@.len() ==> (#[trigger] self.scopes@[i]).filter
                        != ErrorFilter::OutOfMemory,
                Error::Validation { .. } => self.uncaptured_handler.callback is Some && forall|i: int|
                    0 <= i < self.scopes@.len() ==> (#[trigger] self.scopes@[i]).filter
                        != ErrorFilter::Validation,
            },
    {
        proof {
            law_handlers_are_told_what_no_scope_catches(*self, *err);
        }
        let filter = match err {
            Error::DeviceLost { .. } => {
                return self.device_lost_handler.callback.is_some();
            },
            Error::OutOfMemory { .. } => ErrorFilter::OutOfMemory,
            Error::Validation { .. } => ErrorFilter::Validation,
        };
        self.innermost(filter).is_none() && self.uncaptured_handler.callback.is_some()
    }

    pub fn new(device_lost_handler: DeviceCallback<Option<Callback<L>>>) -> (sink: ErrorSinkRaw<
        S,
        U,
        L,
    >)
        ensures
            sink.scopes@ == Seq::<ErrorScope<S>>::empty(),
            sink.uncaptured_handler == (DeviceCallback {
                callback: Some(Callback::<U>::Default),
                userdata: Userdata::null(),
            }),
            sink.device_lost_handler == device_lost_handler,
            sink.device is None,
    {
        ErrorSinkRaw {
            scopes: Vec::new(),
            uncaptured_handler: default_callback(),
            device_lost_handler,
            device: None,
        }
    }
}

impl<S, U: Copy, L: Copy> ErrorSinkRaw<S, U, L> {
    /// Takes in an error: a lost device is reported to its handler, any other error goes to the
    /// innermost scope with its filter, or to the other handler where there is no such scope.
    /// The result is the call that the owner of the sink now has to make.
    pub fn handle_error(&mut self, err: Error<S>) -> (call: Option<ErrorCall<U, L>>)
        requires
            old(self).must_call(err) ==> old(self).device is Some,
        ensures
            final(self).scopes@ == record(old(self).scopes@, err),
            final(self).uncaptured_handler == old(self).uncaptured_handler,
            final(self).device_lost_handler == old(self).device_lost_handler,
            final(self).device == old(self).device,
            call is Some <==> old(self).must_call(err),
            call matches Some(call) ==> old(self).call_for(err, call),
            call is Some && call->0 is DeviceLost <==> err is DeviceLost
                && old(self).device_lost_handler.callback is Some,
            call is Some && call->0 is Uncaptured <==> match err {
                Error::DeviceLost { .. } => false,
                Error::OutOfMemory { .. } => old(self).uncaptured_handler.callback is Some
                    && forall|i: int|
                    0 <= i < old(self).scopes@.len() ==> (#[trigger] old(self).scopes@[i]).filter
                        != ErrorFilter::OutOfMemory,
                Error::Validation { .. } => old(self).uncaptured_handler.callback is Some
                    && forall|i: int|
                    0 <= i < old(self).scopes@.len() ==> (#[trigger] old(self).scopes@[i]).filter
                        != ErrorFilter::Validation,
            },
            match call {
                Some(ErrorCall::DeviceLost { handler, device, reason, message, userdata }) => {
                    &&& old(self).device_lost_handler.callback == Some(handler)
                    &&& old(self).device == Some(device)
                    &&& reason == WGPUDeviceLostReason::Destroyed
                    &&& message@ == "Device lost"@
                    &&& userdata == old(self).device_lost_handler.userdata
                },
                Some(ErrorCall::Uncaptured { callback, device, typ, message, userdata }) => {
                    &&& old(self).uncaptured_handler.callback == Some(callback)
                    &&& old(self).device == Some(device)
                    &&& typ == WGPUErrorType::OutOfMemory <==> err is OutOfMemory
                    &&& err is OutOfMemory ==> message@ == "Out of Memory"@
                    &&& err matches Error::Validation { description, .. } ==> message@ == description@
                    &&& userdata == old(self).uncaptured_handler.userdata
                },
                None => true,
            },
    {
        proof {
            law_handlers_are_told_what_no_scope_catches(*self, err);
        }
        let (typ, filter): (WGPUErrorType, ErrorFilter) = match err {
            Error::DeviceLost { .. } => {
                // handle device lost error early
                return match self.device_lost_handler.callback {
                    Some(handler) => Some(
                        ErrorCall::DeviceLost {
                            handler,
                            device: self.device.unwrap(),
                            reason: WGPUDeviceLostReason::Destroyed,
                            message: err.to_string(),
                            userdata: self.device_lost_handler.userdata,
                        },
                    ),
                    None => None,
                };
            },
            Error::OutOfMemory { .. } => (WGPUErrorType::OutOfMemory, ErrorFilter::OutOfMemory),
            Error::Validation { .. } => (WGPUErrorType::Validation, ErrorFilter::Validation),
        };
        if let Some(i) = self.innermost(filter) {
            if self.scopes[i].error.is_none() {
                self.scopes[i].error = Some(err);
            }
            return None;
        }
        match self.uncaptured_handler.callback {
            Some(callback) => Some(
                ErrorCall::Uncaptured {
                    callback,
                    device: self.device.unwrap(),
                    typ,
                    message: err.to_string(),
                    userdata: self.uncaptured_handler.userdata,
                },
            ),
            None => None,
        }
    }
}

/// What the report of an error says. The cause is not shown.
pub open spec fn error_report() -> Seq<char> {
    "Validation Error\n\nCaused by:\n"@
}

/// What a fatal error in the operation panics with.
pub open spec fn fatal_report(operation: Seq<char>) -> Seq<char> {
    "Error in "@ + operation + ": "@ + error_report()
}

/// The report of an error. Causes are not listed in it.
pub fn format_error<E>(err: &E) -> (report: String)
    ensures
        report@ == error_report(),
        report@ == "Validation Error\n\nCaused by:\n"@,
{
    String::from_str("Validation Error\n\nCaused by:\n")
}

/// What an error that nothing can handle panics with.
pub fn handle_error_fatal<E>(cause: E, operation: &str) -> (text: String)
    ensures
        text@ == fatal_report(operation@),
        text@ == "Error in "@ + operation@ + ": "@ + "Validation Error\n\nCaused by:\n"@,
{
    let report = format_error(&cause);
    let mut text = String::from_str("Error in ");
    text.append(operation);
    text.append(": ");
    text.append(report.as_str());
    text
}

/// Takes note of an error without a handler of its own. It is recorded nowhere: the sink stays as
/// it is.
pub fn handle_error<S, U, L, E>(
    sink: &mut ErrorSinkRaw<S, U, L>,
    source: E,
    label: Option<&str>,
    fn_ident: &str,
)
    ensures
        *final(sink) == *old(sink),
{
}

/// The value of an operation, or what its failure panics with.
pub fn value_or_fatal<T, E>(result: Result<T, E>, operation: &str) -> (value: Result<T, String>)
    ensures
        match result {
            Ok(t) => value == Ok::<T, String>(t),
            Err(_) => value matches Err(text) && text@ == fatal_report(operation@) && text@
                == "Error in "@ + operation@ + ": "@ + "Validation Error\n\nCaused by:\n"@,
        },
{
    match result {
        Ok(t) => Ok(t),
        Err(cause) => Err(handle_error_fatal(cause, operation)),
    }
}

/// The scope that catches an error is the innermost one with the filter.
pub proof fn law_innermost_scope_catches<S>(scopes: Seq<ErrorScope<S>>, filter: ErrorFilter)
    ensures
        match catching(scopes, filter) {
            Some(i) => {
                &&& 0 <= i < scopes.len()
                &&& scopes[i].filter == filter
                &&& forall|j: int| i < j < scopes.len() ==> (#[trigger] scopes[j]).filter != filter
            },
            None => forall|j: int|
                0 <= j < scopes.len() ==> (#[trigger] scopes[j]).filter != filter,
        },
    decreases scopes.len(),
{
    if scopes.len() > 0 && scopes.last().filter != filter {
        let outer = scopes.drop_last();
        law_innermost_scope_catches(outer, filter);
        assert forall|j: int|
            0 <= j < scopes.len() && (catching(scopes, filter) matches Some(i) ==> i < j) implies (
        #[trigger] scopes[j]).filter != filter by {
            if j < outer.len() {
                assert(scopes[j] == outer[j]);
            }
        }
    }
}

/// Only filters decide which scope catches.
proof fn lemma_catching_by_filters<S>(
    a: Seq<ErrorScope<S>>,
    b: Seq<ErrorScope<S>>,
    filter: ErrorFilter,
)
    requires
        a.len() == b.len(),
        forall|i: int| 0 <= i < a.len() ==> (#[trigger] a[i]).filter == b[i].filter,
    ensures
        catching(a, filter) == catching(b, filter),
    decreases a.len(),
{
    if a.len() > 0 {
        assert(a.last().filter == b.last().filter);
        lemma_catching_by_filters(a.drop_last(), b.drop_last(), filter);
    }
}

/// Errors neither open nor close a scope, and change the filter of none.
pub proof fn law_errors_keep_scopes_open<S>(scopes: Seq<ErrorScope<S>>, err: Error<S>)
    ensures
        record(scopes, err).len() == scopes.len(),
        forall|i: int|
            0 <= i < scopes.len() ==> (#[trigger] record(scopes, err)[i]).filter
                == scopes[i].filter,
{
    if let Some(filter) = err.filter() {
        law_innermost_scope_catches(scopes, filter);
    }
}

/// A scope keeps the first error that it caught.
pub proof fn law_first_error_is_kept<S>(scopes: Seq<ErrorScope<S>>, err: Error<S>, i: int)
    requires
        0 <= i < scopes.len(),
        scopes[i].error is Some,
    ensures
        record(scopes, err)[i] == scopes[i],
{
    if let Some(filter) = err.filter() {
        law_innermost_scope_catches(scopes, filter);
    }
}

/// At most one scope changes: the innermost with the filter of the error, which then holds it.
pub proof fn law_at_most_one_scope_changes<S>(scopes: Seq<ErrorScope<S>>, err: Error<S>, i: int)
    requires
        0 <= i < scopes.len(),
        record(scopes, err)[i] != scopes[i],
    ensures
        err.filter() == Some(scopes[i].filter),
        catching(scopes, scopes[i].filter) == Some(i),
        scopes[i].error is None,
        record(scopes, err)[i].error == Some(err),
{
    if let Some(filter) = err.filter() {
        law_innermost_scope_catches(scopes, filter);
    }
}

/// After one error of a kind, another of that kind changes no scope.
pub proof fn law_second_error_is_dropped<S>(
    scopes: Seq<ErrorScope<S>>,
    first: Error<S>,
    second: Error<S>,
)
    requires
        first.filter() == second.filter(),
    ensures
        record(record(scopes, first), second) == record(scopes, first),
{
    if let Some(filter) = first.filter() {
        law_innermost_scope_catches(scopes, filter);
        law_errors_keep_scopes_open(scopes, first);
        lemma_catching_by_filters(record(scopes, first), scopes, filter);
    }
}

/// Errors of different kinds do not touch each other's scopes: their order does not matter.
pub proof fn law_kinds_are_independent<S>(scopes: Seq<ErrorScope<S>>, a: Error<S>, b: Error<S>)
    requires
        a.filter() != b.filter(),
    ensures
        record(record(scopes, a), b) == record(record(scopes, b), a),
{
    law_errors_keep_scopes_open(scopes, a);
    law_errors_keep_scopes_open(scopes, b);
    if let Some(filter) = a.filter() {
        law_innermost_scope_catches(scopes, filter);
        lemma_catching_by_filters(record(scopes, b), scopes, filter);
    }
    if let Some(filter) = b.filter() {
        law_innermost_scope_catches(scopes, filter);
        lemma_catching_by_filters(record(scopes, a), scopes, filter);
    }
    assert(record(record(scopes, a), b) =~= record(record(scopes, b), a));
}

/// Every error that a scope holds has the filter of the scope. So no scope holds a lost device.
pub open spec fn errors_fit<S>(scopes: Seq<ErrorScope<S>>) -> bool {
    forall|i: int|
        0 <= i < scopes.len() && (#[trigger] scopes[i]).error is Some
            ==> scopes[i].error->0.filter() == Some(scopes[i].filter)
}

/// A scope never comes to hold an error that its filter does not name.
pub proof fn law_scopes_hold_what_they_filter<S>(scopes: Seq<ErrorScope<S>>, err: Error<S>)
    requires
        errors_fit(scopes),
    ensures
        errors_fit(record(scopes, err)),
{
    if let Some(filter) = err.filter() {
        law_innermost_scope_catches(scopes, filter);
    }
}

/// A scope just opened takes the next error of its kind and hides it from the scopes around it;
/// an error of another kind passes through to them.
pub proof fn law_inner_scope_shields<S>(
    scopes: Seq<ErrorScope<S>>,
    filter: ErrorFilter,
    err: Error<S>,
)
    ensures
        record(scopes.push(ErrorScope { error: None, filter }), err) == if err.filter() == Some(
            filter,
        ) {
            scopes.push(ErrorScope { error: Some(err), filter })
        } else {
            record(scopes, err).push(ErrorScope { error: None, filter })
        },
{
    let inner = scopes.push(ErrorScope { error: None, filter });
    assert(inner.drop_last() == scopes);
    if let Some(f) = err.filter() {
        law_innermost_scope_catches(scopes, f);
    }
    assert(record(inner, err) =~= if err.filter() == Some(filter) {
        scopes.push(ErrorScope { error: Some(err), filter })
    } else {
        record(scopes, err).push(ErrorScope { error: None, filter })
    });
}

/// An error other than a lost device either goes to a scope or is uncaptured, never both; a lost
/// device does neither.
pub proof fn law_caught_or_uncaptured<S>(scopes: Seq<ErrorScope<S>>, err: Error<S>)
    ensures
        uncaptured(scopes, err) ==> record(scopes, err) == scopes,
        uncaptured(scopes, err) <==> err !is DeviceLost && forall|i: int|
            0 <= i < scopes.len() ==> err.filter() != Some((#[trigger] scopes[i]).filter),
        err is DeviceLost ==> record(scopes, err) == scopes,
{
    if let Some(filter) = err.filter() {
        law_innermost_scope_catches(scopes, filter);
    }
}

/// An error is caught by the scopes of its own kind, and a lost device by none.
pub proof fn law_filters_follow_kinds<S>(err: Error<S>)
    ensures
        err.filter() is None <==> err is DeviceLost,
        err.filter() == Some(ErrorFilter::OutOfMemory) <==> err is OutOfMemory,
        err.filter() == Some(ErrorFilter::Validation) <==> err is Validation,
{
}

/// An error shows what it was made with: a validation error its description, the others the name
/// of their kind, and each its cause.
pub proof fn law_errors_show_what_they_hold<S>(err: Error<S>)
    ensures
        err matches Error::DeviceLost { source } ==> err.cause() == source && err.text()
            == "Device lost"@,
        err matches Error::OutOfMemory { source } ==> err.cause() == source && err.text()
            == "Out of Memory"@,
        err matches Error::Validation { source, description } ==> err.cause() == source
            && err.text() == description@,
{
}

/// A handler is told of an error exactly if there is one for it and no scope is open for errors of
/// that kind; where no scope is open at all, nothing keeps an error from its handler.
pub proof fn law_handlers_are_told_what_no_scope_catches<S, U, L>(
    sink: ErrorSinkRaw<S, U, L>,
    err: Error<S>,
)
    ensures
        sink.must_call(err) <==> match err {
            Error::DeviceLost { .. } => sink.device_lost_handler.callback is Some,
            Error::OutOfMemory { .. } => sink.uncaptured_handler.callback is Some && forall|i: int|
                0 <= i < sink.scopes@.len() ==> (#[trigger] sink.scopes@[i]).filter
                    != ErrorFilter::OutOfMemory,
            Error::Validation { .. } => sink.uncaptured_handler.callback is Some && forall|i: int|
                0 <= i < sink.scopes@.len() ==> (#[trigger] sink.scopes@[i]).filter
                    != ErrorFilter::Validation,
        },
        sink.scopes@.len() == 0 && sink.uncaptured_handler.callback is Some
            && sink.device_lost_handler.callback is Some ==> sink.must_call(err),
{
    if let Some(filter) = err.filter() {
        law_innermost_scope_catches(sink.scopes@, filter);
    }
}

/// A call that an error asks for goes to the handler of its kind, with the device and the user
/// pointers of the sink and the text of the error.
pub proof fn law_calls_tell_the_error<S, U, L>(
    sink: ErrorSinkRaw<S, U, L>,
    err: Error<S>,
    call: ErrorCall<U, L>,
)
    requires
        sink.call_for(err, call),
    ensures
        call is DeviceLost <==> err is DeviceLost,
        match call {
            ErrorCall::DeviceLost { handler, device, reason, message, userdata } => {
                &&& sink.device_lost_handler.callback == Some(handler)
                &&& sink.device == Some(device)
                &&& reason == WGPUDeviceLostReason::Destroyed
                &&& message@ == "Device lost"@
                &&& userdata == sink.device_lost_handler.userdata
            },
            ErrorCall::Uncaptured { callback, device, typ, message, userdata } => {
                &&& sink.uncaptured_handler.callback == Some(callback)
                &&& sink.device == Some(device)
                &&& typ == WGPUErrorType::OutOfMemory <==> err is OutOfMemory
                &&& typ == WGPUErrorType::Validation <==> err is Validation
                &&& err is OutOfMemory ==> message@ == "Out of Memory"@
                &&& err matches Error::Validation { description, .. } ==> message@ == description@
                &&& userdata == sink.uncaptured_handler.userdata
            },
        },
{
}

/// What becomes of each scope: the one of the kind of the error, with no such scope inside it,
/// takes the error if it holds none; every other scope stays as it is.
pub proof fn law_error_is_recorded<S>(scopes: Seq<ErrorScope<S>>, err: Error<S>, i: int)
    requires
        0 <= i < scopes.len(),
    ensures
        record(scopes, err).len() == scopes.len(),
        record(scopes, err)[i].filter == scopes[i].filter,
        record(scopes, err)[i].error == if scopes[i].error is None && (match err {
            Error::DeviceLost { .. } => false,
            Error::OutOfMemory { .. } => scopes[i].filter == ErrorFilter::OutOfMemory && forall|j: int|
                i < j < scopes.len() ==> (#[trigger] scopes[j]).filter != ErrorFilter::OutOfMemory,
            Error::Validation { .. } => scopes[i].filter == ErrorFilter::Validation && forall|j: int|
                i < j < scopes.len() ==> (#[trigger] scopes[j]).filter != ErrorFilter::Validation,
        }) {
            Some(err)
        } else {
            scopes[i].error
        },
{
    if let Some(filter) = err.filter() {
        law_innermost_scope_catches(scopes, filter);
    }
}

/// A fatal report names its operation: between fixed words stands all of the name and nothing else.
pub proof fn law_fatal_reports_name_the_operation(a: Seq<char>, b: Seq<char>)
    ensures
        fatal_report(a) == "Error in "@ + a + ": "@ + "Validation Error\n\nCaused by:\n"@,
        fatal_report(a) == fatal_report(b) ==> a == b,
{
    if fatal_report(a) == fatal_report(b) {
        let before = "Error in "@.len() as int;
        assert(a.len() == b.len());
        assert(fatal_report(a).subrange(before, before + a.len()) =~= a);
        assert(fatal_report(b).subrange(before, before + b.len()) =~= b);
    }
}

} // verus!
