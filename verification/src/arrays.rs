//! Arrays of nodes as nodes.

use vstd::prelude::*;
use vstd::string::*;
use crate::container::{
    all_indices, decoded_items, fan_out, indices, items_from_json, items_to_json, json_list, models,
    set_error, step_item, step_picks,
};
use crate::json::{
    json_as_list, json_from_list, json_parse, json_parsed, json_pretty, json_pretty_text,
    json_view, JsonModel,
};
use crate::laws::{
    lemma_fan_out_unchanged_by_reading, lemma_items_round_trip, lemma_rest_reads, reads,
    round_trips, set_fails_without_change, unchanged_by_reading,
};
use crate::node::{cannot, cannot_text, Clipboard, ClipboardModel, Node, Outcome};
use crate::node_runner::{lemma_rest_well_formed, NodeRunner};
use crate::node_token::{NodeToken, Token};
use crate::text::{decimal_text, format_integer};

verus! {

/// The help of an array.
pub open spec fn array_help() -> Seq<char> {
    "\nArray Help\n\nCommands:\n*   help - display this help\n*   get  - display JSON\n*   set  - set to JSON\n\nAccessors:\n*   [index] - access item at index"@
}

/// The message for an index that points to none of the `len` elements of an array.
pub open spec fn array_index_text(index: usize, len: nat) -> Seq<char> {
    "Used index "@ + decimal_text(index as int) + " on an array of length "@ + decimal_text(
        len as int,
    )
}

/// The message for a JSON value that stands for no array of `len` elements.
pub open spec fn array_invalid_text(len: nat) -> Seq<char> {
    "Invalid value for array (needs to be: a list of "@ + decimal_text(len as int) + " values)"@
}

/// The array of `len` elements that a JSON value stands for: a list of as
/// many values, each of which stands for an element.
pub open spec fn array_decoded<T: Node>(len: nat, value: JsonModel) -> Result<
    Seq<T::Model>,
    Seq<char>,
> {
    match value {
        JsonModel::List(values) => if values.len() == len {
            decoded_items::<T>(values)
        } else {
            Err(array_invalid_text(len))
        },
        _ => Err(array_invalid_text(len)),
    }
}

/// The array of `len` elements that the text `text` sets, or the message that
/// says why it sets none.
pub open spec fn array_set<T: Node>(len: nat, text: Seq<char>) -> Result<Seq<T::Model>, Seq<char>> {
    match json_parsed(text) {
        Ok(value) => match array_decoded::<T>(len, value) {
            Ok(items) => Ok(items),
            Err(message) => Err("array"@ + " set error: "@ + message),
        },
        Err(message) => Err("array"@ + " set error: "@ + message),
    }
}

/// What an array of `len` elements makes of a command: `[i]` hands the
/// command to the element at `i`, `[*]` to every element; `get` writes the
/// array as JSON and `set` reads it from JSON.
pub open spec fn array_outcome<T: Node>(
    len: nat,
    node: Seq<T::Model>,
    tokens: Seq<Token>,
    clipboard: ClipboardModel,
) -> Outcome<Seq<T::Model>> {
    let rest = tokens.drop_last();
    let unchanged = |text: Seq<char>| Outcome { text, node, clipboard };
    match tokens.last() {
        Token::ChainIndex(index) => if index < node.len() {
            let one = T::outcome(node[index as int], rest, clipboard);
            Outcome {
                text: one.text,
                node: node.update(index as int, one.node),
                clipboard: one.clipboard,
            }
        } else {
            unchanged(array_index_text(index, len))
        },
        Token::ChainAll => fan_out::<T>(node, all_indices(node.len()), rest, clipboard),
        Token::Get => unchanged(json_pretty_text(json_list::<T>(node))),
        Token::SetValue(value) => match array_set::<T>(len, value) {
            Ok(items) => Outcome { text: Seq::empty(), node: items, clipboard },
            Err(message) => unchanged(message),
        },
        Token::Help => unchanged(array_help()),
        token => unchanged(cannot_text("array"@, token)),
    }
}

/// `std::array::from_fn` with the function that makes the node that a
/// container inserts: an array of such nodes.
#[verifier::external_body]
fn default_array<T: Node, const N: usize>() -> (items: [T; N])
    ensures
        forall|i: int| 0 <= i < N ==> (#[trigger] items@[i]).model() == T::default_model(),
{
    std::array::from_fn(|_| T::default_node())
}

/// The message for a JSON value that stands for no array of `len` elements.
fn array_invalid(len: usize) -> (text: String)
    ensures
        text@ == array_invalid_text(len as nat),
{
    let mut text = String::from_str("Invalid value for array (needs to be: a list of ");
    text.append(format_integer(len as i128).as_str());
    text.append(" values)");
    text
}

/// Puts the nodes `items` in place of the elements of an array.
fn fill<T: Node, const N: usize>(array: &mut [T; N], items: Vec<T>)
    requires
        items@.len() == N,
    ensures
        models(final(array)@) == models(items@),
{
    let mut items = items;
    let ghost all = models(items@);
    let mut n: usize = 0;
    while n < N
        invariant
            n <= N,
            items@.len() == N,
            forall|i: int| 0 <= i < n ==> (#[trigger] array@[i]).model() == all[i],
            forall|i: int| n <= i < N ==> (#[trigger] items@[i]).model() == all[i],
            all.len() == N,
        decreases N - n,
    {
        std::mem::swap(&mut array[n], &mut items[n]);
        n += 1;
    }
    assert(models(array@) =~= all);
}

impl<T: Node, const N: usize> Node for [T; N] {
    type Model = Seq<T::Model>;

    open spec fn model(&self) -> Seq<T::Model> {
        models(self@)
    }

    open spec fn outcome(
        node: Seq<T::Model>,
        tokens: Seq<Token>,
        clipboard: ClipboardModel,
    ) -> Outcome<Seq<T::Model>> {
        array_outcome::<T>(N as nat, node, tokens, clipboard)
    }

    open spec fn json(node: Seq<T::Model>) -> JsonModel {
        json_list::<T>(node)
    }

    open spec fn decoded(value: JsonModel) -> Result<Seq<T::Model>, Seq<char>> {
        array_decoded::<T>(N as nat, value)
    }

    open spec fn default_model() -> Seq<T::Model> {
        Seq::new(N as nat, |i: int| T::default_model())
    }

    fn node_step_with(&mut self, runner: NodeRunner, clipboard: &mut Clipboard) -> (text: String) {
        let mut runner = runner;
        let ghost tokens = runner@;
        let token = runner.step();
        proof {
            if token@.is_chain() {
                lemma_rest_well_formed(tokens);
            }
            assert(Self::outcome(old(self).model(), tokens, old(clipboard)@) == array_outcome::<T>(
                N as nat,
                old(self).model(),
                tokens,
                old(clipboard)@,
            ));
        }
        match token {
            NodeToken::ChainIndex(index) => {
                if index < N {
                    step_item(self, index, runner, clipboard)
                } else {
                    let mut text = String::from_str("Used index ");
                    text.append(format_integer(index as i128).as_str());
                    text.append(" on an array of length ");
                    text.append(format_integer(N as i128).as_str());
                    text
                }
            },
            NodeToken::ChainAll => {
                let picks = indices(N);
                step_picks(self, &picks, &runner, clipboard)
            },
            NodeToken::Get => {
                let value = self.to_json();
                json_pretty(&value)
            },
            NodeToken::SetValue(value) => {
                match json_parse(value.as_str()) {
                    Ok(json) => match decode_array::<T, N>(&json) {
                        Ok(items) => {
                            fill(self, items);
                            String::new()
                        },
                        Err(message) => set_error("array", message.as_str()),
                    },
                    Err(message) => set_error("array", message.as_str()),
                }
            },
            NodeToken::Help => String::from_str(
                "\nArray Help\n\nCommands:\n*   help - display this help\n*   get  - display JSON\n*   set  - set to JSON\n\nAccessors:\n*   [index] - access item at index",
            ),
            action => cannot("array", &action),
        }
    }

    fn to_json(&self) -> (value: serde_json::Value) {
        proof {
            assert(Self::json(self.model()) == json_list::<T>(models(self@)));
        }
        json_from_list(items_to_json(self.as_slice()))
    }

    fn from_json(value: &serde_json::Value) -> (result: Result<[T; N], String>) {
        proof {
            assert(Self::decoded(json_view(*value)) == array_decoded::<T>(
                N as nat,
                json_view(*value),
            ));
        }
        match decode_array::<T, N>(value) {
            Ok(items) => {
                let mut array: [T; N] = default_array();
                fill(&mut array, items);
                Ok(array)
            },
            Err(message) => Err(message),
        }
    }

    fn default_node() -> (node: [T; N]) {
        let node: [T; N] = default_array();
        assert(models(node@) =~= Seq::new(N as nat, |i: int| T::default_model()));
        node
    }
}

/// The elements that the JSON value `value` gives to an array of `N`.
pub fn decode_array<T: Node, const N: usize>(value: &serde_json::Value) -> (result: Result<
    Vec<T>,
    String,
>)
    ensures
        match result {
            Ok(items) => array_decoded::<T>(N as nat, json_view(*value)) == Ok::<
                Seq<T::Model>,
                Seq<char>,
            >(models(items@)) && items@.len() == N,
            Err(message) => array_decoded::<T>(N as nat, json_view(*value)) == Err::<
                Seq<T::Model>,
                Seq<char>,
            >(message@),
        },
{
    match json_as_list(value) {
        Some(values) => {
            if values.len() == N {
                items_from_json::<T>(&values)
            } else {
                Err(array_invalid(N))
            }
        },
        None => Err(array_invalid(N)),
    }
}

/// The laws of an array, where they hold of its elements: reading changes
/// nothing, and a `set` that fails changes nothing.
pub proof fn lemma_array_laws<T: Node, const N: usize>()
    requires
        unchanged_by_reading::<T>(),
    ensures
        unchanged_by_reading::<[T; N]>(),
        set_fails_without_change::<[T; N]>(),
{
    assert forall|node: Seq<T::Model>, tokens: Seq<Token>, clipboard: ClipboardModel|
        reads(tokens) implies (#[trigger] <[T; N]>::outcome(node, tokens, clipboard)).node == node
        && <[T; N]>::outcome(node, tokens, clipboard).clipboard == clipboard by {
        let rest = tokens.drop_last();
        if tokens.last().is_chain() {
            lemma_rest_reads(tokens);
            lemma_fan_out_unchanged_by_reading::<T>(
                node,
                all_indices(node.len()),
                rest,
                clipboard,
            );
            match tokens.last() {
                Token::ChainIndex(index) => {
                    if index < node.len() {
                        let one = T::outcome(node[index as int], rest, clipboard);
                        assert(node.update(index as int, one.node) =~= node);
                    }
                },
                _ => {},
            }
        }
    }
    assert forall|node: Seq<T::Model>, value: Seq<char>, clipboard: ClipboardModel|
        (#[trigger] <[T; N]>::outcome(node, seq![Token::SetValue(value)], clipboard)).text.len()
            > 0 implies <[T; N]>::outcome(node, seq![Token::SetValue(value)], clipboard).node
        == node by {
        assert(seq![Token::SetValue(value)].last() == Token::SetValue(value));
    }
}

/// An array is read back from the JSON list that is written for it, where its
/// elements are read back from theirs.
pub proof fn lemma_array_round_trips<T: Node, const N: usize>(node: Seq<T::Model>)
    requires
        node.len() == N,
        forall|i: int| 0 <= i < node.len() ==> round_trips::<T>(#[trigger] node[i]),
    ensures
        round_trips::<[T; N]>(node),
{
    lemma_items_round_trip::<T>(node);
}

} // verus!
