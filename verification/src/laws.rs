//! What holds of every command: reading changes nothing, a command that only
//! reads answers the same when it is repeated, a `set` that fails changes
//! nothing, and a node is read back from the JSON value that was written for it.

use vstd::prelude::*;
use crate::collections::{option_decoded, option_json, option_outcome, vec_outcome};
use crate::container::{
    all_indices, decoded_items, decoded_list, fan_out, json_list, list_set,
};
use crate::context_vec::{context_vec_decoded, context_vec_outcome, ContextVec, ContextVecModel};
use crate::json::{
    json_members, json_parsed, json_pretty_text, member_names, member_values, JsonModel,
};
use crate::keyed_context_vec::{
    all_texts, json_texts, keyed_decoded, keyed_json, keyed_outcome, text_values,
    KeyedContextVec, KeyedContextVecModel,
};
use crate::keys::{lemma_position, position};
use crate::node::{bool_outcome, string_outcome, ClipboardModel, Node, Outcome};
use crate::node_runner::{lemma_rest_well_formed, well_formed};
use crate::node_token::Token;
use crate::numeric::{integer_decoded, integer_outcome, IntegerKind};
use crate::string_map::{
    lemma_map_of_ascending, map_decoded, map_json, map_outcome, StringMap, StringMapModel,
};
use crate::text::ascending;

verus! {

/// Whether a command only reads: its action is `get` or `help`.
pub open spec fn reads(tokens: Seq<Token>) -> bool {
    well_formed(tokens) && (tokens[0] is Get || tokens[0] is Help)
}

/// Whether no command that only reads changes a node of the type `N` or the
/// clipboard.
pub open spec fn unchanged_by_reading<N: Node>() -> bool {
    forall|node: N::Model, tokens: Seq<Token>, clipboard: ClipboardModel|
        reads(tokens) ==> (#[trigger] N::outcome(node, tokens, clipboard)).node == node
            && N::outcome(node, tokens, clipboard).clipboard == clipboard
}

/// Whether a `set` that a node of the type `N` answers with a message leaves
/// the node as it was.
pub open spec fn set_fails_without_change<N: Node>() -> bool {
    forall|node: N::Model, value: Seq<char>, clipboard: ClipboardModel|
        (#[trigger] N::outcome(node, seq![Token::SetValue(value)], clipboard)).text.len() > 0
            ==> N::outcome(node, seq![Token::SetValue(value)], clipboard).node == node
}

/// Whether the node `node` of the type `N` is read back from the JSON value
/// that is written for it.
pub open spec fn round_trips<N: Node>(node: N::Model) -> bool {
    N::decoded(N::json(node)) == Ok::<N::Model, Seq<char>>(node)
}

/// A command that only reads answers the same text when it is repeated, and
/// leaves the node and the clipboard as they were.
pub proof fn lemma_read_twice<N: Node>(
    node: N::Model,
    tokens: Seq<Token>,
    clipboard: ClipboardModel,
)
    requires
        unchanged_by_reading::<N>(),
        reads(tokens),
    ensures
        ({
            let first = N::outcome(node, tokens, clipboard);
            let second = N::outcome(first.node, tokens, first.clipboard);
            second.text == first.text && second.node == node && second.clipboard == clipboard
        }),
{
}

/// What is left of a command that only reads, after a step into a child, only reads.
pub proof fn lemma_rest_reads(tokens: Seq<Token>)
    requires
        reads(tokens),
        tokens.last().is_chain(),
    ensures
        reads(tokens.drop_last()),
{
    lemma_rest_well_formed(tokens);
}

/// No command that only reads changes an integer or the clipboard.
pub proof fn lemma_integer_unchanged_by_reading(
    kind: IntegerKind,
    node: int,
    tokens: Seq<Token>,
    clipboard: ClipboardModel,
)
    requires
        reads(tokens),
    ensures
        integer_outcome(kind, node, tokens, clipboard).node == node,
        integer_outcome(kind, node, tokens, clipboard).clipboard == clipboard,
{
}

/// A `set` that an integer answers with a message leaves the integer as it was.
pub proof fn lemma_integer_set_fails_without_change(
    kind: IntegerKind,
    node: int,
    value: Seq<char>,
    clipboard: ClipboardModel,
)
    ensures
        integer_outcome(kind, node, seq![Token::SetValue(value)], clipboard).text.len() > 0
            ==> integer_outcome(kind, node, seq![Token::SetValue(value)], clipboard).node
            == node,
{
}

/// An integer of a type is read back from the JSON number that is written for it.
pub proof fn lemma_integer_round_trips(kind: IntegerKind, node: int)
    requires
        kind.holds(node),
    ensures
        integer_decoded(kind, JsonModel::Number(node)) == Ok::<int, Seq<char>>(node),
{
}

/// The laws of `i8`: reading changes none, a `set` that fails changes none,
/// and each value is read back from the JSON number that is written for it.
pub proof fn lemma_i8_laws()
    ensures
        unchanged_by_reading::<i8>(),
        set_fails_without_change::<i8>(),
        forall|node: int| IntegerKind::I8.holds(node) ==> #[trigger] round_trips::<i8>(node),
{
    assert forall|node: int, tokens: Seq<Token>, clipboard: ClipboardModel|
        reads(tokens) implies (#[trigger] i8::outcome(node, tokens, clipboard)).node == node
        && i8::outcome(node, tokens, clipboard).clipboard == clipboard by {
        lemma_integer_unchanged_by_reading(IntegerKind::I8, node, tokens, clipboard);
    }
    assert forall|node: int, value: Seq<char>, clipboard: ClipboardModel|
        (#[trigger] i8::outcome(node, seq![Token::SetValue(value)], clipboard)).text.len()
            > 0 implies i8::outcome(node, seq![Token::SetValue(value)], clipboard).node
        == node by {
        lemma_integer_set_fails_without_change(IntegerKind::I8, node, value, clipboard);
    }
    assert forall|node: int| IntegerKind::I8.holds(node) implies #[trigger] round_trips::<i8>(
        node,
    ) by {
        lemma_integer_round_trips(IntegerKind::I8, node);
    }
}

/// The laws of `i16`: reading changes none, a `set` that fails changes none,
/// and each value is read back from the JSON number that is written for it.
pub proof fn lemma_i16_laws()
    ensures
        unchanged_by_reading::<i16>(),
        set_fails_without_change::<i16>(),
        forall|node: int| IntegerKind::I16.holds(node) ==> #[trigger] round_trips::<i16>(node),
{
    assert forall|node: int, tokens: Seq<Token>, clipboard: ClipboardModel|
        reads(tokens) implies (#[trigger] i16::outcome(node, tokens, clipboard)).node == node
        && i16::outcome(node, tokens, clipboard).clipboard == clipboard by {
        lemma_integer_unchanged_by_reading(IntegerKind::I16, node, tokens, clipboard);
    }
    assert forall|node: int, value: Seq<char>, clipboard: ClipboardModel|
        (#[trigger] i16::outcome(node, seq![Token::SetValue(value)], clipboard)).text.len()
            > 0 implies i16::outcome(node, seq![Token::SetValue(value)], clipboard).node
        == node by {
        lemma_integer_set_fails_without_change(IntegerKind::I16, node, value, clipboard);
    }
    assert forall|node: int| IntegerKind::I16.holds(node) implies #[trigger] round_trips::<i16>(
        node,
    ) by {
        lemma_integer_round_trips(IntegerKind::I16, node);
    }
}

/// The laws of `i32`: reading changes none, a `set` that fails changes none,
/// and each value is read back from the JSON number that is written for it.
pub proof fn lemma_i32_laws()
    ensures
        unchanged_by_reading::<i32>(),
        set_fails_without_change::<i32>(),
        forall|node: int| IntegerKind::I32.holds(node) ==> #[trigger] round_trips::<i32>(node),
{
    assert forall|node: int, tokens: Seq<Token>, clipboard: ClipboardModel|
        reads(tokens) implies (#[trigger] i32::outcome(node, tokens, clipboard)).node == node
        && i32::outcome(node, tokens, clipboard).clipboard == clipboard by {
        lemma_integer_unchanged_by_reading(IntegerKind::I32, node, tokens, clipboard);
    }
    assert forall|node: int, value: Seq<char>, clipboard: ClipboardModel|
        (#[trigger] i32::outcome(node, seq![Token::SetValue(value)], clipboard)).text.len()
            > 0 implies i32::outcome(node, seq![Token::SetValue(value)], clipboard).node
        == node by {
        lemma_integer_set_fails_without_change(IntegerKind::I32, node, value, clipboard);
    }
    assert forall|node: int| IntegerKind::I32.holds(node) implies #[trigger] round_trips::<i32>(
        node,
    ) by {
        lemma_integer_round_trips(IntegerKind::I32, node);
    }
}

/// The laws of `i64`: reading changes none, a `set` that fails changes none,
/// and each value is read back from the JSON number that is written for it.
pub proof fn lemma_i64_laws()
    ensures
        unchanged_by_reading::<i64>(),
        set_fails_without_change::<i64>(),
        forall|node: int| IntegerKind::I64.holds(node) ==> #[trigger] round_trips::<i64>(node),
{
    assert forall|node: int, tokens: Seq<Token>, clipboard: ClipboardModel|
        reads(tokens) implies (#[trigger] i64::outcome(node, tokens, clipboard)).node == node
        && i64::outcome(node, tokens, clipboard).clipboard == clipboard by {
        lemma_integer_unchanged_by_reading(IntegerKind::I64, node, tokens, clipboard);
    }
    assert forall|node: int, value: Seq<char>, clipboard: ClipboardModel|
        (#[trigger] i64::outcome(node, seq![Token::SetValue(value)], clipboard)).text.len()
            > 0 implies i64::outcome(node, seq![Token::SetValue(value)], clipboard).node
        == node by {
        lemma_integer_set_fails_without_change(IntegerKind::I64, node, value, clipboard);
    }
    assert forall|node: int| IntegerKind::I64.holds(node) implies #[trigger] round_trips::<i64>(
        node,
    ) by {
        lemma_integer_round_trips(IntegerKind::I64, node);
    }
}

/// The laws of `isize`: reading changes none, a `set` that fails changes none,
/// and each value is read back from the JSON number that is written for it.
pub proof fn lemma_isize_laws()
    ensures
        unchanged_by_reading::<isize>(),
        set_fails_without_change::<isize>(),
        forall|node: int| IntegerKind::Isize.holds(node) ==> #[trigger] round_trips::<isize>(node),
{
    assert forall|node: int, tokens: Seq<Token>, clipboard: ClipboardModel|
        reads(tokens) implies (#[trigger] isize::outcome(node, tokens, clipboard)).node == node
        && isize::outcome(node, tokens, clipboard).clipboard == clipboard by {
        lemma_integer_unchanged_by_reading(IntegerKind::Isize, node, tokens, clipboard);
    }
    assert forall|node: int, value: Seq<char>, clipboard: ClipboardModel|
        (#[trigger] isize::outcome(node, seq![Token::SetValue(value)], clipboard)).text.len()
            > 0 implies isize::outcome(node, seq![Token::SetValue(value)], clipboard).node
        == node by {
        lemma_integer_set_fails_without_change(IntegerKind::Isize, node, value, clipboard);
    }
    assert forall|node: int| IntegerKind::Isize.holds(node) implies #[trigger] round_trips::<isize>(
        node,
    ) by {
        lemma_integer_round_trips(IntegerKind::Isize, node);
    }
}

/// The laws of `u8`: reading changes none, a `set` that fails changes none,
/// and each value is read back from the JSON number that is written for it.
pub proof fn lemma_u8_laws()
    ensures
        unchanged_by_reading::<u8>(),
        set_fails_without_change::<u8>(),
        forall|node: int| IntegerKind::U8.holds(node) ==> #[trigger] round_trips::<u8>(node),
{
    assert forall|node: int, tokens: Seq<Token>, clipboard: ClipboardModel|
        reads(tokens) implies (#[trigger] u8::outcome(node, tokens, clipboard)).node == node
        && u8::outcome(node, tokens, clipboard).clipboard == clipboard by {
        lemma_integer_unchanged_by_reading(IntegerKind::U8, node, tokens, clipboard);
    }
    assert forall|node: int, value: Seq<char>, clipboard: ClipboardModel|
        (#[trigger] u8::outcome(node, seq![Token::SetValue(value)], clipboard)).text.len()
            > 0 implies u8::outcome(node, seq![Token::SetValue(value)], clipboard).node
        == node by {
        lemma_integer_set_fails_without_change(IntegerKind::U8, node, value, clipboard);
    }
    assert forall|node: int| IntegerKind::U8.holds(node) implies #[trigger] round_trips::<u8>(
        node,
    ) by {
        lemma_integer_round_trips(IntegerKind::U8, node);
    }
}

/// The laws of `u16`: reading changes none, a `set` that fails changes none,
/// and each value is read back from the JSON number that is written for it.
pub proof fn lemma_u16_laws()
    ensures
        unchanged_by_reading::<u16>(),
        set_fails_without_change::<u16>(),
        forall|node: int| IntegerKind::U16.holds(node) ==> #[trigger] round_trips::<u16>(node),
{
    assert forall|node: int, tokens: Seq<Token>, clipboard: ClipboardModel|
        reads(tokens) implies (#[trigger] u16::outcome(node, tokens, clipboard)).node == node
        && u16::outcome(node, tokens, clipboard).clipboard == clipboard by {
        lemma_integer_unchanged_by_reading(IntegerKind::U16, node, tokens, clipboard);
    }
    assert forall|node: int, value: Seq<char>, clipboard: ClipboardModel|
        (#[trigger] u16::outcome(node, seq![Token::SetValue(value)], clipboard)).text.len()
            > 0 implies u16::outcome(node, seq![Token::SetValue(value)], clipboard).node
        == node by {
        lemma_integer_set_fails_without_change(IntegerKind::U16, node, value, clipboard);
    }
    assert forall|node: int| IntegerKind::U16.holds(node) implies #[trigger] round_trips::<u16>(
        node,
    ) by {
        lemma_integer_round_trips(IntegerKind::U16, node);
    }
}

/// The laws of `u32`: reading changes none, a `set` that fails changes none,
/// and each value is read back from the JSON number that is written for it.
pub proof fn lemma_u32_laws()
    ensures
        unchanged_by_reading::<u32>(),
        set_fails_without_change::<u32>(),
        forall|node: int| IntegerKind::U32.holds(node) ==> #[trigger] round_trips::<u32>(node),
{
    assert forall|node: int, tokens: Seq<Token>, clipboard: ClipboardModel|
        reads(tokens) implies (#[trigger] u32::outcome(node, tokens, clipboard)).node == node
        && u32::outcome(node, tokens, clipboard).clipboard == clipboard by {
        lemma_integer_unchanged_by_reading(IntegerKind::U32, node, tokens, clipboard);
    }
    assert forall|node: int, value: Seq<char>, clipboard: ClipboardModel|
        (#[trigger] u32::outcome(node, seq![Token::SetValue(value)], clipboard)).text.len()
            > 0 implies u32::outcome(node, seq![Token::SetValue(value)], clipboard).node
        == node by {
        lemma_integer_set_fails_without_change(IntegerKind::U32, node, value, clipboard);
    }
    assert forall|node: int| IntegerKind::U32.holds(node) implies #[trigger] round_trips::<u32>(
        node,
    ) by {
        lemma_integer_round_trips(IntegerKind::U32, node);
    }
}

/// The laws of `u64`: reading changes none, a `set` that fails changes none,
/// and each value is read back from the JSON number that is written for it.
pub proof fn lemma_u64_laws()
    ensures
        unchanged_by_reading::<u64>(),
        set_fails_without_change::<u64>(),
        forall|node: int| IntegerKind::U64.holds(node) ==> #[trigger] round_trips::<u64>(node),
{
    assert forall|node: int, tokens: Seq<Token>, clipboard: ClipboardModel|
        reads(tokens) implies (#[trigger] u64::outcome(node, tokens, clipboard)).node == node
        && u64::outcome(node, tokens, clipboard).clipboard == clipboard by {
        lemma_integer_unchanged_by_reading(IntegerKind::U64, node, tokens, clipboard);
    }
    assert forall|node: int, value: Seq<char>, clipboard: ClipboardModel|
        (#[trigger] u64::outcome(node, seq![Token::SetValue(value)], clipboard)).text.len()
            > 0 implies u64::outcome(node, seq![Token::SetValue(value)], clipboard).node
        == node by {
        lemma_integer_set_fails_without_change(IntegerKind::U64, node, value, clipboard);
    }
    assert forall|node: int| IntegerKind::U64.holds(node) implies #[trigger] round_trips::<u64>(
        node,
    ) by {
        lemma_integer_round_trips(IntegerKind::U64, node);
    }
}

/// The laws of `usize`: reading changes none, a `set` that fails changes none,
/// and each value is read back from the JSON number that is written for it.
pub proof fn lemma_usize_laws()
    ensures
        unchanged_by_reading::<usize>(),
        set_fails_without_change::<usize>(),
        forall|node: int| IntegerKind::Usize.holds(node) ==> #[trigger] round_trips::<usize>(node),
{
    assert forall|node: int, tokens: Seq<Token>, clipboard: ClipboardModel|
        reads(tokens) implies (#[trigger] usize::outcome(node, tokens, clipboard)).node == node
        && usize::outcome(node, tokens, clipboard).clipboard == clipboard by {
        lemma_integer_unchanged_by_reading(IntegerKind::Usize, node, tokens, clipboard);
    }
    assert forall|node: int, value: Seq<char>, clipboard: ClipboardModel|
        (#[trigger] usize::outcome(node, seq![Token::SetValue(value)], clipboard)).text.len()
            > 0 implies usize::outcome(node, seq![Token::SetValue(value)], clipboard).node
        == node by {
        lemma_integer_set_fails_without_change(IntegerKind::Usize, node, value, clipboard);
    }
    assert forall|node: int| IntegerKind::Usize.holds(node) implies #[trigger] round_trips::<usize>(
        node,
    ) by {
        lemma_integer_round_trips(IntegerKind::Usize, node);
    }
}

/// No command that only reads changes a boolean, and a `set` never fails on one.
pub proof fn lemma_bool_laws()
    ensures
        unchanged_by_reading::<bool>(),
        set_fails_without_change::<bool>(),
        forall|node: bool| round_trips::<bool>(node),
{
    assert forall|node: bool, value: Seq<char>, clipboard: ClipboardModel|
        (#[trigger] bool::outcome(node, seq![Token::SetValue(value)], clipboard)).text.len()
            > 0 implies bool::outcome(node, seq![Token::SetValue(value)], clipboard).node
        == node by {
        assert(seq![Token::SetValue(value)].last() == Token::SetValue(value));
    }
}

/// No command that only reads changes a string, and a `set` never fails on one.
pub proof fn lemma_string_laws()
    ensures
        unchanged_by_reading::<String>(),
        set_fails_without_change::<String>(),
        forall|node: Seq<char>| round_trips::<String>(node),
{
    assert forall|node: Seq<char>, value: Seq<char>, clipboard: ClipboardModel|
        (#[trigger] String::outcome(node, seq![Token::SetValue(value)], clipboard)).text.len()
            > 0 implies String::outcome(node, seq![Token::SetValue(value)], clipboard).node
        == node by {
        assert(seq![Token::SetValue(value)].last() == Token::SetValue(value));
    }
}

/// Where reading changes no element, a command that only reads changes none
/// of the elements it is handed to, nor the clipboard.
pub proof fn lemma_fan_out_unchanged_by_reading<T: Node>(
    items: Seq<T::Model>,
    picks: Seq<usize>,
    tokens: Seq<Token>,
    clipboard: ClipboardModel,
)
    requires
        unchanged_by_reading::<T>(),
        reads(tokens),
    ensures
        fan_out::<T>(items, picks, tokens, clipboard).node == items,
        fan_out::<T>(items, picks, tokens, clipboard).clipboard == clipboard,
    decreases picks.len(),
{
    if picks.len() > 0 {
        lemma_fan_out_unchanged_by_reading::<T>(items, picks.drop_last(), tokens, clipboard);
        let i = picks.last() as int;
        if i < items.len() {
            let one = T::outcome(items[i], tokens, clipboard);
            assert(items.update(i, one.node) =~= items);
        }
    }
}

/// Where the JSON values of the nodes `items` are read back as the nodes, so
/// is their list.
pub proof fn lemma_items_round_trip<T: Node>(items: Seq<T::Model>)
    requires
        forall|i: int| 0 <= i < items.len() ==> round_trips::<T>(#[trigger] items[i]),
    ensures
        decoded_items::<T>(items.map_values(|item: T::Model| T::json(item))) == Ok::<
            Seq<T::Model>,
            Seq<char>,
        >(items),
    decreases items.len(),
{
    let values = items.map_values(|item: T::Model| T::json(item));
    if items.len() > 0 {
        let front = items.drop_last();
        assert(forall|i: int| 0 <= i < front.len() ==> front[i] == items[i]);
        lemma_items_round_trip::<T>(front);
        assert(values.drop_last() =~= front.map_values(|item: T::Model| T::json(item)));
        assert(round_trips::<T>(items[items.len() - 1]));
        assert(front.push(items.last()) =~= items);
    } else {
        assert(items =~= Seq::<T::Model>::empty());
    }
}

/// The laws of a vector, where they hold of its elements.
pub proof fn lemma_vec_laws<T: Node>()
    requires
        unchanged_by_reading::<T>(),
    ensures
        unchanged_by_reading::<Vec<T>>(),
        set_fails_without_change::<Vec<T>>(),
{
    assert forall|node: Seq<T::Model>, tokens: Seq<Token>, clipboard: ClipboardModel|
        reads(tokens) implies (#[trigger] Vec::<T>::outcome(node, tokens, clipboard)).node == node
        && Vec::<T>::outcome(node, tokens, clipboard).clipboard == clipboard by {
        let rest = tokens.drop_last();
        if tokens.last().is_chain() {
            lemma_rest_reads(tokens);
            lemma_fan_out_unchanged_by_reading::<T>(
                node,
                all_indices(node.len()),
                rest,
                clipboard,
            );
            lemma_integer_unchanged_by_reading(
                IntegerKind::Usize,
                node.len() as int,
                rest,
                clipboard,
            );
            match tokens.last() {
                Token::ChainIndex(index) => {
                    if index < node.len() {
                        let one = T::outcome(node[index as int], rest, clipboard);
                        assert(node.update(index as int, one.node) =~= node);
                    }
                },
                _ => {},
            }
        }
    }
    assert forall|node: Seq<T::Model>, value: Seq<char>, clipboard: ClipboardModel|
        (#[trigger] Vec::<T>::outcome(node, seq![Token::SetValue(value)], clipboard)).text.len()
            > 0 implies Vec::<T>::outcome(node, seq![Token::SetValue(value)], clipboard).node
        == node by {
        assert(seq![Token::SetValue(value)].last() == Token::SetValue(value));
    }
}

/// A vector is read back from the JSON list that is written for it, where its
/// elements are read back from theirs.
pub proof fn lemma_vec_round_trips<T: Node>(node: Seq<T::Model>)
    requires
        forall|i: int| 0 <= i < node.len() ==> round_trips::<T>(#[trigger] node[i]),
    ensures
        round_trips::<Vec<T>>(node),
{
    lemma_items_round_trip::<T>(node);
}

/// The laws of an optional node, where they hold of its value.
pub proof fn lemma_option_laws<T: Node>()
    requires
        unchanged_by_reading::<T>(),
    ensures
        unchanged_by_reading::<Option<T>>(),
        set_fails_without_change::<Option<T>>(),
{
    assert forall|node: Option<T::Model>, tokens: Seq<Token>, clipboard: ClipboardModel|
        reads(tokens) implies (#[trigger] Option::<T>::outcome(node, tokens, clipboard)).node
        == node && Option::<T>::outcome(node, tokens, clipboard).clipboard == clipboard by {
        if tokens.last().is_chain() {
            lemma_rest_reads(tokens);
        }
    }
    assert forall|node: Option<T::Model>, value: Seq<char>, clipboard: ClipboardModel|
        (#[trigger] Option::<T>::outcome(
            node,
            seq![Token::SetValue(value)],
            clipboard,
        )).text.len() > 0 implies Option::<T>::outcome(
        node,
        seq![Token::SetValue(value)],
        clipboard,
    ).node == node by {
        assert(seq![Token::SetValue(value)].last() == Token::SetValue(value));
    }
}

/// An optional node is read back from the JSON value that is written for it,
/// where its value is read back from its own and is not written as `null`.
pub proof fn lemma_option_round_trips<T: Node>(node: Option<T::Model>)
    requires
        match node {
            Some(value) => round_trips::<T>(value) && !(T::json(value) is Null),
            None => true,
        },
    ensures
        round_trips::<Option<T>>(node),
{
}

/// The laws of a vector with a context, where they hold of its elements.
pub proof fn lemma_context_vec_laws<T: Node>()
    requires
        unchanged_by_reading::<T>(),
    ensures
        unchanged_by_reading::<ContextVec<T>>(),
        set_fails_without_change::<ContextVec<T>>(),
{
    assert forall|node: ContextVecModel<T::Model>, tokens: Seq<Token>, clipboard: ClipboardModel|
        reads(tokens) implies (#[trigger] ContextVec::<T>::outcome(node, tokens, clipboard)).node
        == node && ContextVec::<T>::outcome(node, tokens, clipboard).clipboard == clipboard by {
        let rest = tokens.drop_last();
        let len = node.vector.len();
        if tokens.last().is_chain() {
            lemma_rest_reads(tokens);
            lemma_fan_out_unchanged_by_reading::<T>(node.vector, all_indices(len), rest, clipboard);
            lemma_fan_out_unchanged_by_reading::<T>(node.vector, node.context, rest, clipboard);
            lemma_integer_unchanged_by_reading(IntegerKind::Usize, len as int, rest, clipboard);
            match tokens.last() {
                Token::ChainIndex(index) => {
                    if index < len {
                        let one = T::outcome(node.vector[index as int], rest, clipboard);
                        assert(node.vector.update(index as int, one.node) =~= node.vector);
                    }
                },
                _ => {},
            }
        }
    }
    assert forall|node: ContextVecModel<T::Model>, value: Seq<char>, clipboard: ClipboardModel|
        (#[trigger] ContextVec::<T>::outcome(
            node,
            seq![Token::SetValue(value)],
            clipboard,
        )).text.len() > 0 implies ContextVec::<T>::outcome(
        node,
        seq![Token::SetValue(value)],
        clipboard,
    ).node == node by {
        assert(seq![Token::SetValue(value)].last() == Token::SetValue(value));
    }
}

/// A vector with a context is read back from the JSON list that is written
/// for it with the same elements in the same order, and with an empty
/// context: the context is no part of what is written.
pub proof fn lemma_context_vec_round_trips<T: Node>(node: ContextVecModel<T::Model>)
    requires
        forall|i: int| 0 <= i < node.vector.len() ==> round_trips::<T>(#[trigger] node.vector[i]),
    ensures
        ContextVec::<T>::decoded(ContextVec::<T>::json(node)) == Ok::<
            ContextVecModel<T::Model>,
            Seq<char>,
        >(ContextVecModel { context: Seq::empty(), vector: node.vector }),
{
    lemma_items_round_trip::<T>(node.vector);
}

/// The laws of a keyed vector with a context, where they hold of its elements.
pub proof fn lemma_keyed_laws<T: Node>()
    requires
        unchanged_by_reading::<T>(),
    ensures
        unchanged_by_reading::<KeyedContextVec<T>>(),
        set_fails_without_change::<KeyedContextVec<T>>(),
{
    assert forall|
        node: KeyedContextVecModel<T::Model>,
        tokens: Seq<Token>,
        clipboard: ClipboardModel,
    |
        reads(tokens) implies (#[trigger] KeyedContextVec::<T>::outcome(
        node,
        tokens,
        clipboard,
    )).node == node && KeyedContextVec::<T>::outcome(node, tokens, clipboard).clipboard
        == clipboard by {
        let rest = tokens.drop_last();
        let len = node.vector.len();
        if tokens.last().is_chain() {
            lemma_rest_reads(tokens);
            lemma_fan_out_unchanged_by_reading::<T>(node.vector, all_indices(len), rest, clipboard);
            lemma_fan_out_unchanged_by_reading::<T>(node.vector, node.context, rest, clipboard);
            lemma_integer_unchanged_by_reading(IntegerKind::Usize, len as int, rest, clipboard);
            match tokens.last() {
                Token::ChainIndex(index) => {
                    if index < len {
                        let one = T::outcome(node.vector[index as int], rest, clipboard);
                        assert(node.vector.update(index as int, one.node) =~= node.vector);
                    }
                },
                Token::ChainKey(key) => {
                    lemma_position(node.keys, key);
                    match position(node.keys, key) {
                        Some(index) => {
                            if index < len {
                                let one = T::outcome(node.vector[index], rest, clipboard);
                                assert(node.vector.update(index, one.node) =~= node.vector);
                            }
                        },
                        None => {},
                    }
                },
                _ => {},
            }
        }
    }
    assert forall|
        node: KeyedContextVecModel<T::Model>,
        value: Seq<char>,
        clipboard: ClipboardModel,
    |
        (#[trigger] KeyedContextVec::<T>::outcome(
            node,
            seq![Token::SetValue(value)],
            clipboard,
        )).text.len() > 0 implies KeyedContextVec::<T>::outcome(
        node,
        seq![Token::SetValue(value)],
        clipboard,
    ).node == node by {
        assert(seq![Token::SetValue(value)].last() == Token::SetValue(value));
    }
}

/// A keyed vector with a context is read back from the JSON object that is
/// written for it with the same keys and elements in the same order, and with
/// an empty context.
pub proof fn lemma_keyed_round_trips<T: Node>(node: KeyedContextVecModel<T::Model>)
    requires
        node.keys.len() == node.vector.len(),
        node.keys.no_duplicates(),
        forall|i: int| 0 <= i < node.vector.len() ==> round_trips::<T>(#[trigger] node.vector[i]),
    ensures
        KeyedContextVec::<T>::decoded(KeyedContextVec::<T>::json(node)) == Ok::<
            KeyedContextVecModel<T::Model>,
            Seq<char>,
        >(
            KeyedContextVecModel { context: Seq::empty(), vector: node.vector, keys: node.keys },
        ),
{
    lemma_items_round_trip::<T>(node.vector);
    let listed = node.keys.map_values(|key: Seq<char>| JsonModel::Text(key));
    assert(text_values(listed) =~= node.keys);
    let members = json_members(
        seq!["vector"@, "keys"@],
        seq![json_list::<T>(node.vector), json_texts(node.keys)],
    );
    let names = member_names(members);
    reveal_strlit("vector");
    reveal_strlit("keys");
    assert("vector"@.len() != "keys"@.len());
    assert(names =~= seq!["vector"@, "keys"@]);
    assert(names.drop_last() =~= seq!["vector"@]);
    assert(names.drop_last().drop_last() =~= Seq::<Seq<char>>::empty());
    reveal_with_fuel(position, 3);
    assert(position(names, "vector"@) == Some(0int));
    assert(position(names, "keys"@) == Some(1int));
    assert(members[0].1 == json_list::<T>(node.vector));
    assert(members[1].1 == json_texts(node.keys));
}

/// The laws of a map, where they hold of its values.
pub proof fn lemma_map_laws<T: Node>()
    requires
        unchanged_by_reading::<T>(),
    ensures
        unchanged_by_reading::<StringMap<T>>(),
        set_fails_without_change::<StringMap<T>>(),
{
    assert forall|node: StringMapModel<T::Model>, tokens: Seq<Token>, clipboard: ClipboardModel|
        reads(tokens) implies (#[trigger] StringMap::<T>::outcome(node, tokens, clipboard)).node
        == node && StringMap::<T>::outcome(node, tokens, clipboard).clipboard == clipboard by {
        let rest = tokens.drop_last();
        let len = node.values.len();
        if tokens.last().is_chain() {
            lemma_rest_reads(tokens);
            lemma_fan_out_unchanged_by_reading::<T>(node.values, all_indices(len), rest, clipboard);
            lemma_integer_unchanged_by_reading(IntegerKind::Usize, len as int, rest, clipboard);
            match tokens.last() {
                Token::ChainKey(key) => {
                    lemma_position(node.keys, key);
                    match position(node.keys, key) {
                        Some(index) => {
                            if index < len {
                                let one = T::outcome(node.values[index], rest, clipboard);
                                assert(node.values.update(index, one.node) =~= node.values);
                            }
                        },
                        None => {},
                    }
                },
                _ => {},
            }
        }
    }
    assert forall|node: StringMapModel<T::Model>, value: Seq<char>, clipboard: ClipboardModel|
        (#[trigger] StringMap::<T>::outcome(
            node,
            seq![Token::SetValue(value)],
            clipboard,
        )).text.len() > 0 implies StringMap::<T>::outcome(
        node,
        seq![Token::SetValue(value)],
        clipboard,
    ).node == node by {
        assert(seq![Token::SetValue(value)].last() == Token::SetValue(value));
    }
}

/// A map is read back from the JSON object that is written for it, where its
/// values are read back from theirs.
pub proof fn lemma_map_round_trips<T: Node>(node: StringMapModel<T::Model>)
    requires
        node.keys.len() == node.values.len(),
        ascending(node.keys),
        forall|i: int| 0 <= i < node.values.len() ==> round_trips::<T>(#[trigger] node.values[i]),
    ensures
        round_trips::<StringMap<T>>(node),
{
    lemma_items_round_trip::<T>(node.values);
    let values = node.values.map_values(|item: T::Model| T::json(item));
    let members = json_members(node.keys, values);
    assert(member_names(members) =~= node.keys);
    assert(member_values(members) =~= values);
    lemma_map_of_ascending(node.keys, node.values);
}

/// Whether `serde_json` reads the value `value` back from the text that it
/// writes for it. This is no part of what is taken on trust of `serde_json`:
/// the laws below hold of the values of which it holds.
pub open spec fn read_back(value: JsonModel) -> bool {
    json_parsed(json_pretty_text(value)) == Ok::<JsonModel, Seq<char>>(value)
}

/// Whether every node of `items` is read back from the JSON value that is
/// written for it.
pub open spec fn all_round_trip<T: Node>(items: Seq<T::Model>) -> bool {
    forall|i: int| 0 <= i < items.len() ==> round_trips::<T>(#[trigger] items[i])
}

/// A list that is set to the text that was written for nodes holds these
/// nodes, in their order.
pub proof fn lemma_list_set_to_written<T: Node>(name: Seq<char>, written: Seq<T::Model>)
    requires
        all_round_trip::<T>(written),
        read_back(json_list::<T>(written)),
    ensures
        list_set::<T>(name, json_pretty_text(json_list::<T>(written))) == Ok::<
            Seq<T::Model>,
            Seq<char>,
        >(written),
{
    lemma_items_round_trip::<T>(written);
}

/// A vector that is set to the text that `get` answered for another one
/// answers nothing, and holds the elements of the other in their order.
pub proof fn lemma_vec_get_then_set<T: Node>(
    written: Seq<T::Model>,
    node: Seq<T::Model>,
    first: ClipboardModel,
    second: ClipboardModel,
)
    requires
        all_round_trip::<T>(written),
        read_back(json_list::<T>(written)),
    ensures
        ({
            let text = Vec::<T>::outcome(written, seq![Token::Get], first).text;
            let set = Vec::<T>::outcome(node, seq![Token::SetValue(text)], second);
            set.text == Seq::<char>::empty() && set.node == written && set.clipboard == second
        }),
{
    lemma_list_set_to_written::<T>("vector"@, written);
    let text = json_pretty_text(json_list::<T>(written));
    assert(seq![Token::Get].last() == Token::Get);
    assert(seq![Token::SetValue(text)].last() == Token::SetValue(text));
}

/// A vector with a context that is set to the text that `get` answered for
/// another one answers nothing, and holds the elements of the other in their
/// order, with an empty context.
pub proof fn lemma_context_vec_get_then_set<T: Node>(
    written: ContextVecModel<T::Model>,
    node: ContextVecModel<T::Model>,
    first: ClipboardModel,
    second: ClipboardModel,
)
    requires
        all_round_trip::<T>(written.vector),
        read_back(json_list::<T>(written.vector)),
    ensures
        ({
            let text = ContextVec::<T>::outcome(written, seq![Token::Get], first).text;
            let set = ContextVec::<T>::outcome(node, seq![Token::SetValue(text)], second);
            set.text == Seq::<char>::empty() && set.node == (ContextVecModel {
                context: Seq::empty(),
                vector: written.vector,
            }) && set.clipboard == second
        }),
{
    lemma_list_set_to_written::<T>("vector"@, written.vector);
    let text = json_pretty_text(json_list::<T>(written.vector));
    assert(seq![Token::Get].last() == Token::Get);
    assert(seq![Token::SetValue(text)].last() == Token::SetValue(text));
}

/// A vector of `i32` with a context that is set to the text that `get`
/// answered for another one answers nothing, and holds the elements of the
/// other in their order, with an empty context.
pub proof fn lemma_context_vec_i32_get_then_set(
    written: ContextVecModel<int>,
    node: ContextVecModel<int>,
    first: ClipboardModel,
    second: ClipboardModel,
)
    requires
        forall|i: int|
            0 <= i < written.vector.len() ==> IntegerKind::I32.holds(#[trigger] written.vector[i]),
        read_back(json_list::<i32>(written.vector)),
    ensures
        ({
            let text = ContextVec::<i32>::outcome(written, seq![Token::Get], first).text;
            let set = ContextVec::<i32>::outcome(node, seq![Token::SetValue(text)], second);
            set.text == Seq::<char>::empty() && set.node == (ContextVecModel {
                context: Seq::empty(),
                vector: written.vector,
            }) && set.clipboard == second
        }),
{
    lemma_i32_laws();
    lemma_context_vec_get_then_set::<i32>(written, node, first, second);
}

/// A keyed vector with a context that is set to the text that `get` answered
/// for another one with as many elements answers nothing, and holds the
/// elements of the other in their order, with its own keys and an empty
/// context.
pub proof fn lemma_keyed_get_then_set<T: Node>(
    written: KeyedContextVecModel<T::Model>,
    node: KeyedContextVecModel<T::Model>,
    first: ClipboardModel,
    second: ClipboardModel,
)
    requires
        all_round_trip::<T>(written.vector),
        read_back(json_list::<T>(written.vector)),
        written.vector.len() == node.vector.len(),
    ensures
        ({
            let text = KeyedContextVec::<T>::outcome(written, seq![Token::Get], first).text;
            let set = KeyedContextVec::<T>::outcome(node, seq![Token::SetValue(text)], second);
            set.text == Seq::<char>::empty() && set.node == (KeyedContextVecModel {
                context: Seq::empty(),
                vector: written.vector,
                keys: node.keys,
            }) && set.clipboard == second
        }),
{
    lemma_list_set_to_written::<T>("keyed context vector"@, written.vector);
    let text = json_pretty_text(json_list::<T>(written.vector));
    assert(seq![Token::Get].last() == Token::Get);
    assert(seq![Token::SetValue(text)].last() == Token::SetValue(text));
}

/// A map that is set to the text that `get` answered for another one answers
/// nothing, and holds the keys and the values of the other.
pub proof fn lemma_map_get_then_set<T: Node>(
    written: StringMapModel<T::Model>,
    node: StringMapModel<T::Model>,
    first: ClipboardModel,
    second: ClipboardModel,
)
    requires
        written.keys.len() == written.values.len(),
        ascending(written.keys),
        all_round_trip::<T>(written.values),
        read_back(map_json::<T>(written)),
    ensures
        ({
            let text = StringMap::<T>::outcome(written, seq![Token::Get], first).text;
            let set = StringMap::<T>::outcome(node, seq![Token::SetValue(text)], second);
            set.text == Seq::<char>::empty() && set.node == written && set.clipboard == second
        }),
{
    lemma_map_round_trips::<T>(written);
    let text = json_pretty_text(map_json::<T>(written));
    assert(seq![Token::Get].last() == Token::Get);
    assert(seq![Token::SetValue(text)].last() == Token::SetValue(text));
}

} // verus!
