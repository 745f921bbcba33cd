//! The interpreter, as far as the runtime calls into it.

use vstd::prelude::*;
use crate::common::json::{Json, lift};
use crate::games::integrations::standards::Library;

verus! {

#[verifier::external_type_specification]
#[verifier::external_body]
pub struct ExLua(mlua::Lua);

#[verifier::external_type_specification]
#[verifier::external_body]
pub struct ExScriptError(mlua::Error);

#[verifier::external_type_specification]
#[verifier::external_body]
pub struct ExFunction<'lua>(mlua::Function<'lua>);

#[verifier::external_type_specification]
#[verifier::external_body]
pub struct ExScriptValue<'lua>(mlua::Value<'lua>);

/// `mlua::Lua::new_with` with the default options: a fresh interpreter with
/// the base library and the libraries given, each as the `mlua::StdLib` flag
/// of its name.  Nothing is claimed of the outcome.
#[verifier::external_body]
pub(crate) fn new_interpreter(libraries: &Vec<Library>) -> (outcome: Result<mlua::Lua, mlua::Error>) {
    let flags = libraries.iter().fold(
        mlua::StdLib::NONE,
        |all, library| all | match library {
            Library::Coroutine => mlua::StdLib::COROUTINE,
            Library::Table => mlua::StdLib::TABLE,
            Library::Text => mlua::StdLib::STRING,
            Library::Utf8 => mlua::StdLib::UTF8,
            Library::Math => mlua::StdLib::MATH,
        },
    );
    mlua::Lua::new_with(flags, mlua::LuaOptions::default())
}

/// `mlua::Table::set` on the globals, with nil: takes the global `name` out
/// of the interpreter.  Nothing is claimed of the outcome.
#[verifier::external_body]
pub(crate) fn withhold_global(lua: &mlua::Lua, name: &str) -> (outcome: Result<(), mlua::Error>) {
    lua.globals().set(name, mlua::Nil)
}

/// `mlua::Lua::create_function` and `mlua::Table::set` on the globals:
/// defines the global function `name`, which hands its one string argument
/// to `fetch` and raises what `fetch` refuses as an error of the script.
/// Nothing is claimed of the outcome.
#[verifier::external_body]
pub(crate) fn define_fetch<F: Fn(String) -> Result<String, String> + 'static>(
    lua: &mlua::Lua,
    name: &str,
    fetch: F,
) -> (outcome: Result<(), mlua::Error>) {
    let function = lua.create_function(
        move |_, uri: String| fetch(uri).map_err(mlua::Error::external),
    )?;
    lua.globals().set(name, function)
}

/// `mlua::Lua::create_function` and `mlua::Table::set` on the globals:
/// defines the global function `name`, which decodes its one string
/// argument with `serde_json::from_str` and hands the document to the script
/// through `mlua::LuaSerdeExt::to_value`.  Nothing is claimed of the
/// outcome.
#[verifier::external_body]
pub(crate) fn define_json_decode(lua: &mlua::Lua, name: &str) -> (outcome: Result<(), mlua::Error>) {
    let function = lua.create_function(
        |lua, text: String| {
            serde_json::from_str::<serde_json::Value>(&text).map(
                |value| mlua::LuaSerdeExt::to_value(lua, &value),
            ).map_err(mlua::Error::external)
        },
    )?;
    lua.globals().set(name, function)
}

/// `mlua::Chunk::exec` on `mlua::Lua::load`: runs the text of a script at
/// top level.  Nothing is claimed of the outcome.
#[verifier::external_body]
pub(crate) fn run_script(lua: &mlua::Lua, script: &str) -> (outcome: Result<(), mlua::Error>) {
    lua.load(script).exec()
}

/// `mlua::Table::raw_get` on the globals: what the global `name` holds, nil
/// where there is none, read from the table itself without running anything
/// of the script.  Nothing is claimed of the outcome.
#[verifier::external_body]
pub(crate) fn raw_global<'lua>(lua: &'lua mlua::Lua, name: &str) -> (outcome: Result<
    mlua::Value<'lua>,
    mlua::Error,
>) {
    lua.globals().raw_get::<_, mlua::Value>(name)
}

/// `mlua::Table::get` on the globals, read as an optional function: nothing
/// where the global is nil, an error where it is something else than a
/// function.  Nothing is claimed of the outcome.
#[verifier::external_body]
pub(crate) fn global_function<'lua>(lua: &'lua mlua::Lua, name: &str) -> (outcome: Result<
    Option<mlua::Function<'lua>>,
    mlua::Error,
>) {
    lua.globals().get::<_, Option<mlua::Function>>(name)
}

/// `mlua::Function::call` with the strings as arguments, in their order.
/// Nothing is claimed of the outcome.
#[verifier::external_body]
pub(crate) fn call_function<'lua>(function: &mlua::Function<'lua>, args: &Vec<String>) -> (outcome:
    Result<mlua::Value<'lua>, mlua::Error>) {
    function.call::<_, mlua::Value>(mlua::Variadic::from_iter(args.iter().cloned()))
}

/// `mlua::LuaSerdeExt::from_value_with`, read as a `serde_json::Value` and
/// copied into a `Json`: the plain form of a value of the script, and
/// nothing for a value that has none.  `deny_unsupported` is the option of
/// that name: where it is off, a function or another value that is no data
/// is left out of the table that holds it, and reads as null on its own.
/// Nothing is claimed of the outcome.
#[verifier::external_body]
pub(crate) fn plain_value(lua: &mlua::Lua, value: &mlua::Value, deny_unsupported: bool) -> (plain:
    Option<Json>) {
    let options = mlua::DeserializeOptions::new().deny_unsupported_types(deny_unsupported);
    match mlua::LuaSerdeExt::from_value_with::<serde_json::Value>(lua, value.clone(), options) {
        Ok(value) => Some(lift(&value)),
        Err(_) => None,
    }
}

/// `mlua::Value::is_nil`: whether a value of the script is nil.  Nothing is
/// claimed of the outcome.
#[verifier::external_body]
pub(crate) fn is_nil(value: &mlua::Value) -> (nil: bool) {
    value.is_nil()
}

/// `mlua::Table::sequence_values`: the values at the places 1, 2, and so on
/// of a table, up to the first that is nil, each with nothing in its place
/// where the interpreter could not hand it out; nothing at all for a value
/// that is no table.  Nothing is claimed of the outcome.
#[verifier::external_body]
pub(crate) fn sequence_items<'lua>(value: &mlua::Value<'lua>) -> (items: Option<
    Vec<Option<mlua::Value<'lua>>>,
>) {
    match value {
        mlua::Value::Table(table) => Some(
            table.clone().sequence_values::<mlua::Value>().map(|item| item.ok()).collect(),
        ),
        _ => None,
    }
}

/// `ToString::to_string` of an `mlua::Error`: the message of the error.
#[verifier::external_body]
pub(crate) fn error_message(error: &mlua::Error) -> (message: String) {
    error.to_string()
}

} // verus!
