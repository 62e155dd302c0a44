//! Where the host functions are handed to the runtime.
//!
//! Everything in this file is taken on trust. Each function makes one call
//! of `Linker::func_wrap`, which defines a function that guests can import
//! under the given module and name. The closure handed over does one thing:
//! it calls the host function of the same name. Once the call has gone
//! well, the function is defined under that name; where it fails, be it
//! that the name is already taken, the linker holds what it held. The
//! linker stays with its engine.

use vstd::prelude::*;
use crossbeam_channel::Sender;
use wasmtime::{Caller, Linker};
use crate::abi;
use crate::bridge::PluginEffect;
use crate::runtime::{linker_engine, linker_names};

verus! {

/// `Linker::func_wrap` for `emit_message`: guests that import `name` from
/// `module` call that host function, with `effects` for its queue.
#[verifier::external_body]
pub(crate) fn link_emit_message(
    linker: &mut Linker<()>,
    module: &str,
    name: &str,
    effects: &Sender<PluginEffect>,
) -> (linked: Result<(), wasmtime::Error>)
    ensures
        linker_engine(*final(linker)) == linker_engine(*old(linker)),
        linked is Ok ==> linker_names(*final(linker)) == linker_names(*old(linker)).insert((module@, name@)),
        linked is Err ==> linker_names(*final(linker)) == linker_names(*old(linker)),
{
    let effects = effects.clone();
    linker.func_wrap(module, name, move |mut caller: Caller<'_, ()>, ptr: i32, len: i32| {
        abi::emit_message(&mut caller, &effects, ptr, len)
    }).map(|_| ())
}

/// `Linker::func_wrap` for `get_buffer_line_len`: guests that import `name` from
/// `module` call that host function, with `effects` for its queue.
#[verifier::external_body]
pub(crate) fn link_get_buffer_line_len(
    linker: &mut Linker<()>,
    module: &str,
    name: &str,
    effects: &Sender<PluginEffect>,
) -> (linked: Result<(), wasmtime::Error>)
    ensures
        linker_engine(*final(linker)) == linker_engine(*old(linker)),
        linked is Ok ==> linker_names(*final(linker)) == linker_names(*old(linker)).insert((module@, name@)),
        linked is Err ==> linker_names(*final(linker)) == linker_names(*old(linker)),
{
    let effects = effects.clone();
    linker.func_wrap(module, name, move |line: i32| -> i32 {
        abi::get_buffer_line_len(&effects, line)
    }).map(|_| ())
}

/// `Linker::func_wrap` for `get_buffer_line_data`: guests that import `name` from
/// `module` call that host function, with `effects` for its queue.
#[verifier::external_body]
pub(crate) fn link_get_buffer_line_data(
    linker: &mut Linker<()>,
    module: &str,
    name: &str,
    effects: &Sender<PluginEffect>,
) -> (linked: Result<(), wasmtime::Error>)
    ensures
        linker_engine(*final(linker)) == linker_engine(*old(linker)),
        linked is Ok ==> linker_names(*final(linker)) == linker_names(*old(linker)).insert((module@, name@)),
        linked is Err ==> linker_names(*final(linker)) == linker_names(*old(linker)),
{
    let effects = effects.clone();
    linker.func_wrap(
        module,
        name,
        move |mut caller: Caller<'_, ()>, line: i32, ptr: i32, capacity: i32| -> i32 {
            abi::get_buffer_line_data(&mut caller, &effects, line, ptr, capacity)
        },
    ).map(|_| ())
}

/// `Linker::func_wrap` for `set_buffer_line`: guests that import `name` from
/// `module` call that host function, with `effects` for its queue.
#[verifier::external_body]
pub(crate) fn link_set_buffer_line(
    linker: &mut Linker<()>,
    module: &str,
    name: &str,
    effects: &Sender<PluginEffect>,
) -> (linked: Result<(), wasmtime::Error>)
    ensures
        linker_engine(*final(linker)) == linker_engine(*old(linker)),
        linked is Ok ==> linker_names(*final(linker)) == linker_names(*old(linker)).insert((module@, name@)),
        linked is Err ==> linker_names(*final(linker)) == linker_names(*old(linker)),
{
    let effects = effects.clone();
    linker.func_wrap(
        module,
        name,
        move |mut caller: Caller<'_, ()>, line: i32, ptr: i32, len: i32| {
            abi::set_buffer_line(&mut caller, &effects, line, ptr, len)
        },
    ).map(|_| ())
}

/// `Linker::func_wrap` for `add_highlight`: guests that import `name` from
/// `module` call that host function, with `effects` for its queue.
#[verifier::external_body]
pub(crate) fn link_add_highlight(
    linker: &mut Linker<()>,
    module: &str,
    name: &str,
    effects: &Sender<PluginEffect>,
) -> (linked: Result<(), wasmtime::Error>)
    ensures
        linker_engine(*final(linker)) == linker_engine(*old(linker)),
        linked is Ok ==> linker_names(*final(linker)) == linker_names(*old(linker)).insert((module@, name@)),
        linked is Err ==> linker_names(*final(linker)) == linker_names(*old(linker)),
{
    let effects = effects.clone();
    linker.func_wrap(
        module,
        name,
        move |line: i32, start: i32, end: i32, fr: i32, fg: i32, fb: i32, br: i32, bg: i32, bb: i32| {
            abi::add_highlight(&effects, line, start, end, fr, fg, fb, br, bg, bb)
        },
    ).map(|_| ())
}

/// `Linker::func_wrap` for `apply_text_style`: guests that import `name` from
/// `module` call that host function, with `effects` for its queue.
#[verifier::external_body]
pub(crate) fn link_apply_text_style(
    linker: &mut Linker<()>,
    module: &str,
    name: &str,
    effects: &Sender<PluginEffect>,
) -> (linked: Result<(), wasmtime::Error>)
    ensures
        linker_engine(*final(linker)) == linker_engine(*old(linker)),
        linked is Ok ==> linker_names(*final(linker)) == linker_names(*old(linker)).insert((module@, name@)),
        linked is Err ==> linker_names(*final(linker)) == linker_names(*old(linker)),
{
    let effects = effects.clone();
    linker.func_wrap(module, name, move |line: u32, start: u32, end: u32, style_id: u32| {
        abi::apply_text_style(&effects, line, start, end, style_id)
    }).map(|_| ())
}

/// `Linker::func_wrap` for `clear_highlights`: guests that import `name` from
/// `module` call that host function, with `effects` for its queue.
#[verifier::external_body]
pub(crate) fn link_clear_highlights(
    linker: &mut Linker<()>,
    module: &str,
    name: &str,
    effects: &Sender<PluginEffect>,
) -> (linked: Result<(), wasmtime::Error>)
    ensures
        linker_engine(*final(linker)) == linker_engine(*old(linker)),
        linked is Ok ==> linker_names(*final(linker)) == linker_names(*old(linker)).insert((module@, name@)),
        linked is Err ==> linker_names(*final(linker)) == linker_names(*old(linker)),
{
    let effects = effects.clone();
    linker.func_wrap(module, name, move || abi::clear_highlights(&effects)).map(|_| ())
}

} // verus!
