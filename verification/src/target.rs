//! Which interface a component is written against, read off the names of
//! its exports.

use vstd::prelude::*;
use crate::text::{has_prefix, starts_with};

verus! {

/// The interface that a component targets.
#[derive(Clone, Copy, Debug)]
pub enum ComponentTarget<'a> {
    /// The WASI command-line interface: the component has a `run`.
    Command,
    /// The WASI HTTP proxy interface: the component handles requests.
    HttpProxy,
    /// Neither: the named function is called directly.
    Core(&'a str),
}

/// The prefix of an export that marks an HTTP handler.
pub open spec fn http_prefix() -> Seq<char> {
    "wasi:http/incoming-handler"@
}

/// The prefix of an export that marks a command.
pub open spec fn command_prefix() -> Seq<char> {
    "wasi:cli/run"@
}

/// `name` marks its component as an HTTP handler.
pub open spec fn is_http_export(name: Seq<char>) -> bool {
    has_prefix(name, http_prefix())
}

/// `name` marks its component as a command.
pub open spec fn is_command_export(name: Seq<char>) -> bool {
    has_prefix(name, command_prefix())
}

/// The target of a component with these exports: the first export that
/// marks an interface decides, and without one the function `func` is the
/// target.
pub open spec fn resolution<'a>(exports: Seq<Seq<char>>, func: &'a str) -> ComponentTarget<'a>
    decreases exports.len(),
{
    if exports.len() == 0 {
        ComponentTarget::Core(func)
    } else if is_http_export(exports.first()) {
        ComponentTarget::HttpProxy
    } else if is_command_export(exports.first()) {
        ComponentTarget::Command
    } else {
        resolution(exports.drop_first(), func)
    }
}

/// The names that `exports` holds.
pub open spec fn export_names(exports: Seq<String>) -> Seq<Seq<char>> {
    exports.map_values(|name: String| name@)
}

/// No name marks both interfaces: the two prefixes part at their sixth
/// character.
pub proof fn lemma_markers_exclusive(name: Seq<char>)
    ensures
        !(is_http_export(name) && is_command_export(name)),
{
    reveal_strlit("wasi:http/incoming-handler");
    reveal_strlit("wasi:cli/run");
    if is_http_export(name) && is_command_export(name) {
        assert(name.subrange(0, http_prefix().len() as int)[5] == http_prefix()[5]);
        assert(name.subrange(0, command_prefix().len() as int)[5] == command_prefix()[5]);
    }
}

/// Exports that mark nothing do not count: the resolution is that of the
/// exports behind them.
pub proof fn lemma_resolution_skips_unmarked<'a>(exports: Seq<Seq<char>>, func: &'a str, n: int)
    requires
        0 <= n <= exports.len(),
        forall|j: int|
            0 <= j < n ==> !is_http_export(#[trigger] exports[j]) && !is_command_export(exports[j]),
    ensures
        resolution(exports, func) == resolution(exports.skip(n), func),
    decreases n,
{
    if n == 0 {
        assert(exports.skip(0) == exports);
    } else {
        let rest = exports.drop_first();
        assert(!is_http_export(exports[0]) && !is_command_export(exports[0]));
        assert forall|j: int| 0 <= j < n - 1 implies !is_http_export(#[trigger] rest[j])
            && !is_command_export(rest[j]) by {
            assert(rest[j] == exports[j + 1]);
        }
        lemma_resolution_skips_unmarked(rest, func, n - 1);
        assert(rest.skip(n - 1) == exports.skip(n));
    }
}

/// The first match in listed order wins. Where an HTTP handler export stands
/// before every command export, the component is an HTTP proxy, whatever
/// else it exports.
pub proof fn lemma_http_first_wins<'a>(exports: Seq<Seq<char>>, func: &'a str, at: int)
    requires
        0 <= at < exports.len(),
        is_http_export(exports[at]),
        forall|j: int| 0 <= j < at ==> !is_command_export(#[trigger] exports[j]),
    ensures
        resolution(exports, func) == ComponentTarget::HttpProxy::<'a>,
    decreases at,
{
    if at > 0 && !is_http_export(exports[0]) {
        let rest = exports.drop_first();
        assert(!is_command_export(exports[0]));
        assert forall|j: int| 0 <= j < at - 1 implies !is_command_export(#[trigger] rest[j]) by {
            assert(rest[j] == exports[j + 1]);
        }
        assert(rest[at - 1] == exports[at]);
        lemma_http_first_wins(rest, func, at - 1);
    }
}

/// The first match in listed order wins. Where a command export stands
/// before every HTTP handler export, the component is a command, whatever
/// else it exports.
pub proof fn lemma_command_first_wins<'a>(exports: Seq<Seq<char>>, func: &'a str, at: int)
    requires
        0 <= at < exports.len(),
        is_command_export(exports[at]),
        forall|j: int| 0 <= j < at ==> !is_http_export(#[trigger] exports[j]),
    ensures
        resolution(exports, func) == ComponentTarget::Command::<'a>,
    decreases at,
{
    lemma_markers_exclusive(exports[at]);
    if at > 0 && !is_command_export(exports[0]) {
        let rest = exports.drop_first();
        assert(!is_http_export(exports[0]));
        assert forall|j: int| 0 <= j < at - 1 implies !is_http_export(#[trigger] rest[j]) by {
            assert(rest[j] == exports[j + 1]);
        }
        assert(rest[at - 1] == exports[at]);
        lemma_command_first_wins(rest, func, at - 1);
    }
}

/// A component without a marking export resolves to the requested function,
/// handed on as it came.
pub proof fn lemma_unmarked_is_core<'a>(exports: Seq<Seq<char>>, func: &'a str)
    requires
        forall|j: int|
            0 <= j < exports.len() ==> !is_http_export(#[trigger] exports[j]) && !is_command_export(
                exports[j],
            ),
    ensures
        resolution(exports, func) == ComponentTarget::Core(func),
{
    lemma_resolution_skips_unmarked(exports, func, exports.len() as int);
    assert(exports.skip(exports.len() as int).len() == 0);
}

/// A resolution is one of the two interfaces or the requested function:
/// nothing else comes out, whatever the exports are.
pub proof fn lemma_resolution_is_one_of_three<'a>(exports: Seq<Seq<char>>, func: &'a str)
    ensures
        resolution(exports, func) == ComponentTarget::HttpProxy::<'a> || resolution(exports, func)
            == ComponentTarget::Command::<'a> || resolution(exports, func) == ComponentTarget::Core(
            func,
        ),
    decreases exports.len(),
{
    if exports.len() > 0 {
        lemma_resolution_is_one_of_three(exports.drop_first(), func);
    }
}

impl<'a> ComponentTarget<'a> {
    /// Resolves the target of a component from the names of its exports, in
    /// the order in which the component lists them. Never fails: whether the
    /// function of a `Core` target exists is found out when it is called.
    pub fn new(exports: &[String], func: &'a str) -> (target: Self)
        ensures
            target == resolution(export_names(exports@), func),
    {
        let ghost names = export_names(exports@);
        let mut i: usize = 0;
        while i < exports.len()
            invariant
                i <= exports.len(),
                names == export_names(exports@),
                forall|j: int|
                    0 <= j < i ==> !is_http_export(#[trigger] names[j]) && !is_command_export(
                        names[j],
                    ),
            decreases exports.len() - i,
        {
            let name = exports[i].as_str();
            assert(name@ == names[i as int]);
            let is_http = starts_with(name, "wasi:http/incoming-handler");
            let is_command = starts_with(name, "wasi:cli/run");
            if is_http || is_command {
                proof {
                    lemma_resolution_skips_unmarked(names, func, i as int);
                    assert(names.skip(i as int).first() == names[i as int]);
                }
                if is_http {
                    return ComponentTarget::HttpProxy;
                } else {
                    return ComponentTarget::Command;
                }
            }
            i += 1;
        }
        proof {
            lemma_unmarked_is_core(names, func);
        }
        ComponentTarget::Core(func)
    }
}

} // verus!
