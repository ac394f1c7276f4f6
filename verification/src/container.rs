//! What the containers have in common: how a command reaches one element or
//! several, the messages for an index that points nowhere, and lists as JSON.

use vstd::prelude::*;
use vstd::string::*;
use crate::json::{
    json_as_list, json_from_list, json_parse, json_parsed, json_view, json_views, JsonModel,
};
use crate::node::{invalid, invalid_text, Clipboard, ClipboardModel, Node, Outcome};
use crate::node_runner::{well_formed, NodeRunner};
use crate::node_token::Token;
use crate::text::{decimal_text, format_integer};

verus! {

/// The mathematical value of each node of `items`.
pub open spec fn models<T: Node>(items: Seq<T>) -> Seq<T::Model> {
    items.map_values(|item: T| item.model())
}

/// The indices of a container of `len` elements, in order.
pub open spec fn all_indices(len: nat) -> Seq<usize> {
    Seq::new(len, |i: int| i as usize)
}

/// What the elements at the indices `picks` make of a command, one after the
/// other: each answer between bars, in the order of `picks`. An index that
/// points to no element is answered by a message.
pub open spec fn fan_out<T: Node>(
    items: Seq<T::Model>,
    picks: Seq<usize>,
    tokens: Seq<Token>,
    clipboard: ClipboardModel,
) -> Outcome<Seq<T::Model>>
    decreases picks.len(),
{
    if picks.len() == 0 {
        Outcome { text: "|"@, node: items, clipboard }
    } else {
        let before = fan_out::<T>(items, picks.drop_last(), tokens, clipboard);
        let i = picks.last() as int;
        if i < before.node.len() {
            let one = T::outcome(before.node[i], tokens, before.clipboard);
            Outcome {
                text: before.text + one.text + "|"@,
                node: before.node.update(i, one.node),
                clipboard: one.clipboard,
            }
        } else {
            Outcome {
                text: before.text + "Context out of range. This should never happen."@ + "|"@,
                node: before.node,
                clipboard: before.clipboard,
            }
        }
    }
}

/// The message for the index `index` that points to none of `len` elements
/// of a container of the kind `name`.
pub open spec fn used_index_text(name: Seq<char>, index: usize, len: nat) -> Seq<char> {
    if len == 0 {
        "Used index "@ + decimal_text(index as int) + " on an empty "@ + name
    } else if len == 1 {
        "Used index "@ + decimal_text(index as int) + " on a "@ + name + " of size 1 (try 0)"@
    } else {
        "Used index "@ + decimal_text(index as int) + " on a "@ + name + " of size "@
            + decimal_text(len as int) + " (try a value between 0-"@ + decimal_text(len - 1)
            + ")"@
    }
}

/// The message for an action on the index `index` that is greater than `last`,
/// in a container of the kind `name` with `len` elements; `tried` says what
/// was tried.
pub open spec fn tried_index_text(
    tried: Seq<char>,
    name: Seq<char>,
    index: usize,
    len: nat,
    last: nat,
) -> Seq<char> {
    "Tried to "@ + tried + " index "@ + decimal_text(index as int) + " on a "@ + name
        + " of size "@ + decimal_text(len as int) + " (try a value between 0-"@ + decimal_text(
        last as int,
    ) + ")"@
}

/// The message for a removal from a container of the kind `name` that is empty.
pub open spec fn remove_empty_text(name: Seq<char>) -> Seq<char> {
    "Tried to remove from an empty "@ + name + "."@
}

/// The JSON list that stands for the nodes `items`.
pub open spec fn json_list<T: Node>(items: Seq<T::Model>) -> JsonModel {
    JsonModel::List(items.map_values(|item: T::Model| T::json(item)))
}

/// The nodes that the JSON values `values` stand for, or the message of the
/// first of them that stands for none.
pub open spec fn decoded_items<T: Node>(values: Seq<JsonModel>) -> Result<
    Seq<T::Model>,
    Seq<char>,
>
    decreases values.len(),
{
    if values.len() == 0 {
        Ok(Seq::empty())
    } else {
        match decoded_items::<T>(values.drop_last()) {
            Ok(items) => match T::decoded(values.last()) {
                Ok(item) => Ok(items.push(item)),
                Err(message) => Err(message),
            },
            Err(message) => Err(message),
        }
    }
}

/// The nodes that a JSON list stands for; a value that is no list stands for none.
pub open spec fn decoded_list<T: Node>(name: Seq<char>, value: JsonModel) -> Result<
    Seq<T::Model>,
    Seq<char>,
> {
    match value {
        JsonModel::List(values) => decoded_items::<T>(values),
        _ => Err(invalid_text(name, "a list"@)),
    }
}

/// The nodes that a container of the kind `name` is set to by the text
/// `text`, or the message that says why the text stands for none.
pub open spec fn list_set<T: Node>(name: Seq<char>, text: Seq<char>) -> Result<
    Seq<T::Model>,
    Seq<char>,
> {
    match json_parsed(text) {
        Ok(value) => match decoded_list::<T>(name, value) {
            Ok(items) => Ok(items),
            Err(message) => Err(name + " set error: "@ + message),
        },
        Err(message) => Err(name + " set error: "@ + message),
    }
}

/// The message for a text that a node of the kind `name` cannot be set to.
pub fn set_error(name: &str, message: &str) -> (text: String)
    ensures
        text@ == name@ + " set error: "@ + message@,
{
    let mut text = String::from_str(name);
    text.append(" set error: ");
    text.append(message);
    text
}

/// Reads the nodes that a container of the kind `name` is set to.
pub fn set_list<T: Node>(name: &str, text: &str) -> (result: Result<Vec<T>, String>)
    ensures
        match result {
            Ok(items) => list_set::<T>(name@, text@) == Ok::<Seq<T::Model>, Seq<char>>(
                models(items@),
            ),
            Err(message) => list_set::<T>(name@, text@) == Err::<Seq<T::Model>, Seq<char>>(
                message@,
            ),
        },
{
    match json_parse(text) {
        Ok(value) => match list_from_json::<T>(name, &value) {
            Ok(items) => Ok(items),
            Err(message) => Err(set_error(name, message.as_str())),
        },
        Err(message) => Err(set_error(name, message.as_str())),
    }
}

/// The message for `index`, which points to none of the `len` elements.
pub fn used_index(name: &str, index: usize, len: usize) -> (text: String)
    ensures
        text@ == used_index_text(name@, index, len as nat),
{
    let mut text = String::from_str("Used index ");
    text.append(format_integer(index as i128).as_str());
    if len == 0 {
        text.append(" on an empty ");
        text.append(name);
    } else if len == 1 {
        text.append(" on a ");
        text.append(name);
        text.append(" of size 1 (try 0)");
    } else {
        text.append(" on a ");
        text.append(name);
        text.append(" of size ");
        text.append(format_integer(len as i128).as_str());
        text.append(" (try a value between 0-");
        text.append(format_integer((len - 1) as i128).as_str());
        text.append(")");
    }
    text
}

/// The message for an action on `index`, which is greater than `last`.
pub fn tried_index(tried: &str, name: &str, index: usize, len: usize, last: usize) -> (text:
    String)
    ensures
        text@ == tried_index_text(tried@, name@, index, len as nat, last as nat),
{
    let mut text = String::from_str("Tried to ");
    text.append(tried);
    text.append(" index ");
    text.append(format_integer(index as i128).as_str());
    text.append(" on a ");
    text.append(name);
    text.append(" of size ");
    text.append(format_integer(len as i128).as_str());
    text.append(" (try a value between 0-");
    text.append(format_integer(last as i128).as_str());
    text.append(")");
    text
}

/// The message for a removal from an empty container.
pub fn remove_empty(name: &str) -> (text: String)
    ensures
        text@ == remove_empty_text(name@),
{
    let mut text = String::from_str("Tried to remove from an empty ");
    text.append(name);
    text.append(".");
    text
}

/// Hands a command to the element at `index`.
pub fn step_item<T: Node>(
    items: &mut [T],
    index: usize,
    runner: NodeRunner,
    clipboard: &mut Clipboard,
) -> (text: String)
    requires
        index < old(items)@.len(),
        runner.well_formed(),
    ensures
        text@ == T::outcome(models(old(items)@)[index as int], runner@, old(clipboard)@).text,
        models(final(items)@) == models(old(items)@).update(
            index as int,
            T::outcome(models(old(items)@)[index as int], runner@, old(clipboard)@).node,
        ),
        final(clipboard)@ == T::outcome(
            models(old(items)@)[index as int],
            runner@,
            old(clipboard)@,
        ).clipboard,
        final(items)@.len() == old(items)@.len(),
{
    let item = &mut items[index];
    let text = item.node_step_with(runner, clipboard);
    assert(models(items@) =~= models(old(items)@).update(index as int, items@[index as int].model()));
    text
}

/// Hands a command to each of the elements at the indices `picks`, and joins
/// the answers.
pub fn step_picks<T: Node>(
    items: &mut [T],
    picks: &Vec<usize>,
    runner: &NodeRunner,
    clipboard: &mut Clipboard,
) -> (text: String)
    requires
        runner.well_formed(),
    ensures
        text@ == fan_out::<T>(models(old(items)@), picks@, runner@, old(clipboard)@).text,
        models(final(items)@) == fan_out::<T>(
            models(old(items)@),
            picks@,
            runner@,
            old(clipboard)@,
        ).node,
        final(clipboard)@ == fan_out::<T>(
            models(old(items)@),
            picks@,
            runner@,
            old(clipboard)@,
        ).clipboard,
        final(items)@.len() == old(items)@.len(),
{
    let mut combined = String::from_str("|");
    let mut n: usize = 0;
    assert(picks@.take(0) =~= Seq::<usize>::empty());
    while n < picks.len()
        invariant
            n <= picks.len(),
            runner.well_formed(),
            items@.len() == old(items)@.len(),
            combined@ == fan_out::<T>(
                models(old(items)@),
                picks@.take(n as int),
                runner@,
                old(clipboard)@,
            ).text,
            models(items@) == fan_out::<T>(
                models(old(items)@),
                picks@.take(n as int),
                runner@,
                old(clipboard)@,
            ).node,
            clipboard@ == fan_out::<T>(
                models(old(items)@),
                picks@.take(n as int),
                runner@,
                old(clipboard)@,
            ).clipboard,
        decreases picks.len() - n,
    {
        let i = picks[n];
        proof {
            assert(picks@.take(n + 1).drop_last() =~= picks@.take(n as int));
            assert(picks@.take(n + 1).last() == i);
        }
        if i < items.len() {
            let result = step_item(items, i, runner.duplicate(), clipboard);
            combined.append(result.as_str());
        } else {
            combined.append("Context out of range. This should never happen.");
        }
        combined.append("|");
        n += 1;
    }
    assert(picks@.take(n as int) =~= picks@);
    combined
}

/// The indices of a container of `len` elements.
pub fn indices(len: usize) -> (picks: Vec<usize>)
    ensures
        picks@ == all_indices(len as nat),
{
    let mut picks: Vec<usize> = Vec::new();
    let mut n: usize = 0;
    while n < len
        invariant
            n <= len,
            picks@.len() == n,
            forall|i: int| 0 <= i < n ==> picks@[i] == i,
        decreases len - n,
    {
        picks.push(n);
        n += 1;
    }
    assert(picks@ =~= all_indices(len as nat));
    picks
}

/// The JSON value that stands for each of `items`.
pub fn items_to_json<T: Node>(items: &[T]) -> (values: Vec<serde_json::Value>)
    ensures
        json_views(values@) == models(items@).map_values(|item: T::Model| T::json(item)),
        values@.len() == items@.len(),
{
    let mut values: Vec<serde_json::Value> = Vec::new();
    let mut n: usize = 0;
    while n < items.len()
        invariant
            n <= items.len(),
            values@.len() == n,
            forall|i: int| 0 <= i < n ==> json_view(#[trigger] values@[i]) == T::json(items@[i].model()),
        decreases items.len() - n,
    {
        values.push(items[n].to_json());
        n += 1;
    }
    assert(json_views(values@) =~= models(items@).map_values(|item: T::Model| T::json(item)));
    values
}

/// The JSON list that stands for `items`.
pub fn list_to_json<T: Node>(items: &Vec<T>) -> (value: serde_json::Value)
    ensures
        json_view(value) == json_list::<T>(models(items@)),
{
    json_from_list(items_to_json(items.as_slice()))
}

/// The nodes that the JSON values `values` stand for.
pub fn items_from_json<T: Node>(values: &Vec<serde_json::Value>) -> (result: Result<
    Vec<T>,
    String,
>)
    ensures
        match result {
            Ok(items) => decoded_items::<T>(json_views(values@)) == Ok::<
                Seq<T::Model>,
                Seq<char>,
            >(models(items@)) && items@.len() == values@.len(),
            Err(message) => decoded_items::<T>(json_views(values@)) == Err::<
                Seq<T::Model>,
                Seq<char>,
            >(message@),
        },
{
    let mut items: Vec<T> = Vec::new();
    let mut n: usize = 0;
    assert(json_views(values@).take(0) =~= Seq::<JsonModel>::empty());
    assert(models(items@) =~= Seq::<T::Model>::empty());
    while n < values.len()
        invariant
            n <= values.len(),
            items@.len() == n,
            decoded_items::<T>(json_views(values@).take(n as int)) == Ok::<
                Seq<T::Model>,
                Seq<char>,
            >(models(items@)),
        decreases values.len() - n,
    {
        proof {
            assert(json_views(values@).take(n + 1).drop_last() =~= json_views(values@).take(
                n as int,
            ));
            assert(json_views(values@).take(n + 1).last() == json_view(values@[n as int]));
        }
        let ghost before = items@;
        match T::from_json(&values[n]) {
            Ok(item) => {
                items.push(item);
                assert(models(items@) =~= models(before).push(item.model()));
            },
            Err(message) => {
                proof {
                    assert(decoded_items::<T>(json_views(values@).take(n + 1)) == Err::<
                        Seq<T::Model>,
                        Seq<char>,
                    >(message@));
                    lemma_decoded_items_fails::<T>(json_views(values@), n + 1);
                }
                return Err(message);
            },
        }
        n += 1;
    }
    assert(json_views(values@).take(n as int) =~= json_views(values@));
    Ok(items)
}

/// The nodes that the JSON list `value` stands for.
pub fn list_from_json<T: Node>(name: &str, value: &serde_json::Value) -> (result: Result<
    Vec<T>,
    String,
>)
    ensures
        match result {
            Ok(items) => decoded_list::<T>(name@, json_view(*value)) == Ok::<
                Seq<T::Model>,
                Seq<char>,
            >(models(items@)),
            Err(message) => decoded_list::<T>(name@, json_view(*value)) == Err::<
                Seq<T::Model>,
                Seq<char>,
            >(message@),
        },
{
    match json_as_list(value) {
        Some(values) => items_from_json::<T>(&values),
        None => Err(invalid(name, "a list")),
    }
}

/// Where the first `k` values stand for no nodes, neither do all of them, for
/// the same reason.
pub proof fn lemma_decoded_items_fails<T: Node>(values: Seq<JsonModel>, k: int)
    requires
        0 <= k <= values.len(),
        decoded_items::<T>(values.take(k)) is Err,
    ensures
        decoded_items::<T>(values) == decoded_items::<T>(values.take(k)),
    decreases values.len() - k,
{
    if k < values.len() {
        assert(values.take(k + 1).drop_last() =~= values.take(k));
        lemma_decoded_items_fails::<T>(values, k + 1);
    } else {
        assert(values.take(k) =~= values);
    }
}

} // verus!
