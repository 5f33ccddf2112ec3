//! What each command of the interactive command line asks the client to do.

use vstd::prelude::*;

use super::words::{
    join_spec, join_words, lemma_join_split, lemma_split_first_word, lemma_split_no_space, no_space,
    split_spec, split_words, str_eq, views,
};
use crate::couchbase::types::operation::Operation;

verus! {

/// What a typed command asks for.
#[derive(Debug)]
pub enum CliAction {
    /// Store `value` under `key` in the given mode, with no CAS and no expiry.
    Store { operation: Operation, key: String, value: String },
    /// Get the document `key`, with no CAS.
    Get { key: String },
    /// Remove the document `key`.
    Remove { key: String },
    /// Print this message.
    Say(String),
    /// Print the client.
    Info,
    /// Report this line as an unknown command.
    Unknown(String),
    /// Nothing: the line was empty.
    Empty,
    /// Leave the command line.
    Exit,
}

/// Printed when a command that needs a key and a value gets fewer words.
pub open spec fn key_and_value_message() -> Seq<char> {
    "Wrong number of arguments, expected key and value"@
}

/// Printed when a command that needs exactly one key gets another number of words.
pub open spec fn one_argument_message() -> Seq<char> {
    "Wrong number of arguments, expect exactly one argument."@
}

/// The storage mode that a command word asks for: `add`, `append`,
/// `prepend`, `replace` and `set` their own modes, `store` and `upsert` the
/// default mode; no other word stores.
pub open spec fn store_word_operation(w: Seq<char>) -> Option<Operation> {
    if w == "add"@ {
        Some(Operation::Add)
    } else if w == "append"@ {
        Some(Operation::Append)
    } else if w == "prepend"@ {
        Some(Operation::Prepend)
    } else if w == "replace"@ {
        Some(Operation::Replace)
    } else if w == "set"@ {
        Some(Operation::SetItem)
    } else if w == "store"@ || w == "upsert"@ {
        Some(Operation::Upsert)
    } else {
        None
    }
}

/// A store word, a key without spaces, then the rest of the line: the line
/// stores the rest of the line, as it is, under the key, in the word's mode.
pub proof fn lemma_store_line(a: CliAction, w: Seq<char>, k: Seq<char>, rest: Seq<char>)
    requires
        store_word_operation(w) is Some,
        no_space(k),
        is_command_action(a, w + seq![' '] + k + seq![' '] + rest),
    ensures
        a matches CliAction::Store { operation, key, value } && operation == store_word_operation(
            w,
        )->0 && key@ == k && value@ == rest,
{
    reveal_strlit("add");
    reveal_strlit("append");
    reveal_strlit("delete | remove");
    reveal_strlit("exit");
    reveal_strlit("quit");
    reveal_strlit("get");
    reveal_strlit("info");
    reveal_strlit("prepend");
    reveal_strlit("replace");
    reveal_strlit("set");
    reveal_strlit("store");
    reveal_strlit("upsert");
    reveal_strlit("");
    assert forall|i: int| 0 <= i < w.len() implies w[i] != ' ' by {
        assert(w[i] == w[i]);
    }
    let line = w + seq![' '] + k + seq![' '] + rest;
    assert(line =~= w + seq![' '] + (k + seq![' '] + rest));
    lemma_split_first_word(w, k + seq![' '] + rest);
    lemma_split_first_word(k, rest);
    let parts = split_spec(line);
    assert(parts =~= seq![w] + (seq![k] + split_spec(rest)));
    assert(parts.subrange(2, parts.len() as int) =~= split_spec(rest));
    lemma_join_split(rest);
    assert(parts[0] == w);
    assert(parts[1] == k);
    assert(parts.len() >= 3);
    assert(w != "delete | remove"@);
    assert(w != "exit"@);
    assert(w != "quit"@);
    assert(w[0] != 'g');
    assert(w != "get"@) by {
        assert("get"@[0] == 'g');
    }
    assert(w != "info"@);
    assert(w != ""@);
    assert(is_store_action(a, store_word_operation(w)->0, parts));
}

/// `get`, then a key without spaces: the line gets that key.
pub proof fn lemma_get_line(a: CliAction, k: Seq<char>)
    requires
        no_space(k),
        is_command_action(a, "get"@ + seq![' '] + k),
    ensures
        a matches CliAction::Get { key } && key@ == k,
{
    let w = "get"@;
    reveal_strlit("add");
    reveal_strlit("append");
    reveal_strlit("delete | remove");
    reveal_strlit("exit");
    reveal_strlit("quit");
    reveal_strlit("get");
    reveal_strlit("info");
    reveal_strlit("prepend");
    reveal_strlit("replace");
    reveal_strlit("set");
    reveal_strlit("store");
    reveal_strlit("upsert");
    reveal_strlit("");
    assert forall|i: int| 0 <= i < w.len() implies w[i] != ' ' by {
        assert(w[i] == w[i]);
    }
    lemma_split_first_word(w, k);
    lemma_split_no_space(k);
    assert(split_spec(w + seq![' '] + k) =~= seq![w, k]);
    assert(w[0] == 'g');
    assert(w != "add"@) by {
        assert("add"@[0] == 'a');
    }
    assert(w != "append"@);
    assert(w != "delete | remove"@);
    assert(w != "exit"@);
    assert(w != "quit"@);
}

/// A line whose first word is `exit` or `quit` leaves the command line,
/// whatever follows it.
pub proof fn lemma_exit_line(a: CliAction, w: Seq<char>, rest: Seq<char>)
    requires
        w == "exit"@ || w == "quit"@,
        is_command_action(a, w) || is_command_action(a, w + seq![' '] + rest),
    ensures
        a is Exit,
{
    reveal_strlit("add");
    reveal_strlit("append");
    reveal_strlit("delete | remove");
    reveal_strlit("exit");
    reveal_strlit("quit");
    reveal_strlit("get");
    reveal_strlit("info");
    reveal_strlit("prepend");
    reveal_strlit("replace");
    reveal_strlit("set");
    reveal_strlit("store");
    reveal_strlit("upsert");
    reveal_strlit("");
    assert forall|i: int| 0 <= i < w.len() implies w[i] != ' ' by {
        assert(w[i] == w[i]);
    }
    lemma_split_first_word(w, rest);
    lemma_split_no_space(w);
}

/// A command of the words `parts` that stores in mode `op`: with fewer
/// than three words it only complains; otherwise the second word is the
/// key and the rest, joined by single spaces, is the value.
pub open spec fn is_store_action(a: CliAction, op: Operation, parts: Seq<Seq<char>>) -> bool {
    if parts.len() <= 2 {
        a matches CliAction::Say(m) && m@ == key_and_value_message()
    } else {
        a matches CliAction::Store { operation, key, value } && operation == op && key@
            == parts[1] && value@ == join_spec(parts.subrange(2, parts.len() as int))
    }
}

/// A command of the words `parts` that gets one key: with exactly two
/// words it gets the second; otherwise it complains.
pub open spec fn is_get_action(a: CliAction, parts: Seq<Seq<char>>) -> bool {
    if parts.len() == 2 {
        a matches CliAction::Get { key } && key@ == parts[1]
    } else {
        a matches CliAction::Say(m) && m@ == one_argument_message()
    }
}

/// A command of the words `parts` that removes one key: with exactly two
/// words it removes the second; otherwise it complains.
pub open spec fn is_remove_action(a: CliAction, parts: Seq<Seq<char>>) -> bool {
    if parts.len() == 2 {
        a matches CliAction::Remove { key } && key@ == parts[1]
    } else {
        a matches CliAction::Say(m) && m@ == one_argument_message()
    }
}

/// What the line `line` asks for, by its first word.
pub open spec fn is_command_action(a: CliAction, line: Seq<char>) -> bool {
    let parts = split_spec(line);
    let w = parts[0];
    if w == "add"@ {
        is_store_action(a, Operation::Add, parts)
    } else if w == "append"@ {
        is_store_action(a, Operation::Append, parts)
    } else if w == "delete | remove"@ {
        is_remove_action(a, parts)
    } else if w == "exit"@ || w == "quit"@ {
        a is Exit
    } else if w == "get"@ {
        is_get_action(a, parts)
    } else if w == "info"@ {
        a is Info
    } else if w == "prepend"@ {
        is_store_action(a, Operation::Prepend, parts)
    } else if w == "replace"@ {
        is_store_action(a, Operation::Replace, parts)
    } else if w == "set"@ {
        is_store_action(a, Operation::SetItem, parts)
    } else if w == "store"@ {
        is_store_action(a, Operation::Upsert, parts)
    } else if w == "upsert"@ {
        is_store_action(a, Operation::Upsert, parts)
    } else if w == ""@ {
        a is Empty
    } else {
        a matches CliAction::Unknown(l) && l@ == line
    }
}

/// A command that stores in mode `operation` (see `is_store_action`).
fn store_command_action(parts: &Vec<&str>, operation: Operation) -> (a: CliAction)
    requires
        parts@.len() >= 1,
    ensures
        is_store_action(a, operation, views(parts@)),
{
    if parts.len() <= 2 {
        CliAction::Say(String::from_str("Wrong number of arguments, expected key and value"))
    } else {
        let key = String::from_str(parts[1]);
        let value = join_words(parts, 2);
        assert(views(parts@).subrange(2, parts@.len() as int) =~= views(parts@).subrange(
            2,
            views(parts@).len() as int,
        ));
        CliAction::Store { operation, key, value }
    }
}

/// A command that gets one key (see `is_get_action`).
fn get_command_action(parts: &Vec<&str>) -> (a: CliAction)
    ensures
        is_get_action(a, views(parts@)),
{
    if parts.len() == 2 {
        CliAction::Get { key: String::from_str(parts[1]) }
    } else {
        CliAction::Say(String::from_str("Wrong number of arguments, expect exactly one argument."))
    }
}

/// Handle "add".
pub fn cmd_add(parts: &Vec<&str>) -> (a: CliAction)
    requires
        parts@.len() >= 1,
    ensures
        is_store_action(a, Operation::Add, views(parts@)),
{
    store_command_action(parts, Operation::Add)
}

/// Handle "append".
pub fn cmd_append(parts: &Vec<&str>) -> (a: CliAction)
    requires
        parts@.len() >= 1,
    ensures
        is_store_action(a, Operation::Append, views(parts@)),
{
    store_command_action(parts, Operation::Append)
}

/// Handle "prepend".
pub fn cmd_prepend(parts: &Vec<&str>) -> (a: CliAction)
    requires
        parts@.len() >= 1,
    ensures
        is_store_action(a, Operation::Prepend, views(parts@)),
{
    store_command_action(parts, Operation::Prepend)
}

/// Handle "replace".
pub fn cmd_replace(parts: &Vec<&str>) -> (a: CliAction)
    requires
        parts@.len() >= 1,
    ensures
        is_store_action(a, Operation::Replace, views(parts@)),
{
    store_command_action(parts, Operation::Replace)
}

/// Handle "set".
pub fn cmd_set(parts: &Vec<&str>) -> (a: CliAction)
    requires
        parts@.len() >= 1,
    ensures
        is_store_action(a, Operation::SetItem, views(parts@)),
{
    store_command_action(parts, Operation::SetItem)
}

/// Handle "store": stores in the default mode.
pub fn cmd_store(parts: &Vec<&str>) -> (a: CliAction)
    requires
        parts@.len() >= 1,
    ensures
        is_store_action(a, Operation::Upsert, views(parts@)),
{
    store_command_action(parts, Operation::Upsert)
}

/// Handle "upsert".
pub fn cmd_upsert(parts: &Vec<&str>) -> (a: CliAction)
    requires
        parts@.len() >= 1,
    ensures
        is_store_action(a, Operation::Upsert, views(parts@)),
{
    store_command_action(parts, Operation::Upsert)
}

/// Handle "get".
pub fn cmd_get(parts: &Vec<&str>) -> (a: CliAction)
    ensures
        is_get_action(a, views(parts@)),
{
    get_command_action(parts)
}

/// Handle "remove": removes the one key it is given.
pub fn cmd_remove(parts: &Vec<&str>) -> (a: CliAction)
    ensures
        is_remove_action(a, views(parts@)),
{
    if parts.len() == 2 {
        CliAction::Remove { key: String::from_str(parts[1]) }
    } else {
        CliAction::Say(String::from_str("Wrong number of arguments, expect exactly one argument."))
    }
}

/// Handle "info".
pub fn cmd_info() -> (a: CliAction)
    ensures
        a is Info,
{
    CliAction::Info
}

/// Handle "exit" and "quit".
pub fn cmd_exit() -> (a: CliAction)
    ensures
        a is Exit,
{
    CliAction::Exit
}

/// Handle an empty line.
pub fn cmd_empty() -> (a: CliAction)
    ensures
        a is Empty,
{
    CliAction::Empty
}

/// Handle a line whose first word is no command.
pub fn cmd_unknown(cmd: &str) -> (a: CliAction)
    ensures
        a matches CliAction::Unknown(l) && l@ == cmd@,
{
    CliAction::Unknown(String::from_str(cmd))
}

/// What the typed line `cmd` asks for: it is split at every space and
/// handled by its first word.
pub fn process_command(cmd: &str) -> (a: CliAction)
    ensures
        is_command_action(a, cmd@),
{
    let parts = split_words(cmd);
    proof {
        super::words::lemma_split_nonempty(cmd@);
    }
    let w = parts[0];
    if str_eq(w, "add") {
        cmd_add(&parts)
    } else if str_eq(w, "append") {
        cmd_append(&parts)
    } else if str_eq(w, "delete | remove") {
        cmd_remove(&parts)
    } else if str_eq(w, "exit") || str_eq(w, "quit") {
        cmd_exit()
    } else if str_eq(w, "get") {
        cmd_get(&parts)
    } else if str_eq(w, "info") {
        cmd_info()
    } else if str_eq(w, "prepend") {
        cmd_prepend(&parts)
    } else if str_eq(w, "replace") {
        cmd_replace(&parts)
    } else if str_eq(w, "set") {
        cmd_set(&parts)
    } else if str_eq(w, "store") {
        cmd_store(&parts)
    } else if str_eq(w, "upsert") {
        cmd_upsert(&parts)
    } else if str_eq(w, "") {
        cmd_empty()
    } else {
        cmd_unknown(cmd)
    }
}

/// Whether the command line goes on after an action: it stops after exactly `Exit`.
pub fn continues(a: &CliAction) -> (b: bool)
    ensures
        b == !(a is Exit),
{
    match a {
        CliAction::Exit => false,
        _ => true,
    }
}

} // verus!
