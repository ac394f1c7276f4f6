//! Tuples of nodes as nodes, for up to sixteen fields.

use vstd::prelude::*;
use vstd::string::*;
use crate::container::set_error;
use crate::json::{
    json_as_list, json_from_list, json_parse, json_parsed, json_pretty, json_pretty_text,
    json_view, json_views, JsonModel,
};
use crate::laws::{
    lemma_rest_reads, reads, round_trips, set_fails_without_change, unchanged_by_reading,
};
use crate::node::{
    cannot, cannot_text, invalid, invalid_text, Clipboard, ClipboardModel, Node, Outcome,
};
use crate::node_runner::{lemma_rest_well_formed, NodeRunner};
use crate::node_token::{NodeToken, Token};
use crate::text::{decimal_text, format_integer};

verus! {

/// The help of a tuple.
pub open spec fn tuple_help() -> Seq<char> {
    "\nTuple Help\n\nCommands:\n*   help - display this help\n*   get  - display JSON\n*   set  - set to JSON\n\nAccessors:\n*   [index] - access item at index"@
}

/// The JSON list that stands for a tuple of 1: the value of each field, in order.
pub open spec fn tuple1_json<T0: Node>(node: (T0::Model, )) -> JsonModel {
    JsonModel::List(seq![T0::json(node.0)])
}

/// The tuple of 1 that a JSON value stands for: a list of 1 values, each of
/// which stands for the field at its place.
pub open spec fn tuple1_decoded<T0: Node>(value: JsonModel) -> Result<(T0::Model, ), Seq<char>> {
    match value {
        JsonModel::List(values) => if values.len() == 1 {
            match T0::decoded(values[0]) {
            Ok(field0) => Ok((field0, )),
            Err(message) => Err(message),
        }
        } else {
            Err(invalid_text("( T0 , )"@, "a list of 1 value"@))
        },
        _ => Err(invalid_text("( T0 , )"@, "a list of 1 value"@)),
    }
}

/// The tuple of 1 that the text `text` sets, or the message that says why it sets none.
pub open spec fn tuple1_set<T0: Node>(text: Seq<char>) -> Result<(T0::Model, ), Seq<char>> {
    match json_parsed(text) {
        Ok(value) => match tuple1_decoded::<T0>(value) {
            Ok(node) => Ok(node),
            Err(message) => Err("( T0 , )"@ + " set error: "@ + message),
        },
        Err(message) => Err("( T0 , )"@ + " set error: "@ + message),
    }
}

/// What a tuple of 1 makes of a command: `[i]` hands the command to the
/// field at `i`, `[*]` to every field in order; `get` writes the tuple as
/// JSON and `set` reads it from JSON.
pub open spec fn tuple1_outcome<T0: Node>(
    node: (T0::Model, ),
    tokens: Seq<Token>,
    clipboard: ClipboardModel,
) -> Outcome<(T0::Model, )> {
    let rest = tokens.drop_last();
    let unchanged = |text: Seq<char>| Outcome { text, node, clipboard };
    match tokens.last() {
        Token::ChainIndex(index) => if index == 0 {
            let one = T0::outcome(node.0, rest, clipboard);
            Outcome { text: one.text, node: (one.node, ), clipboard: one.clipboard }
        } else {
            unchanged("Used index "@ + decimal_text(index as int) + " on a "@ + "( T0 , )"@)
        },
        Token::ChainAll => {
            let step0 = T0::outcome(node.0, rest, clipboard);
            Outcome {
                text: "|"@ + step0.text + "|"@,
                node: (step0.node, ),
                clipboard: step0.clipboard,
            }
        },
        Token::Get => unchanged(json_pretty_text(tuple1_json::<T0>(node))),
        Token::SetValue(value) => match tuple1_set::<T0>(value) {
            Ok(node) => Outcome { text: Seq::empty(), node, clipboard },
            Err(message) => unchanged(message),
        },
        Token::Help => unchanged(tuple_help()),
        token => unchanged(cannot_text("( T0 , )"@, token)),
    }
}

impl<T0: Node> Node for (T0, ) {
    type Model = (T0::Model, );

    open spec fn model(&self) -> (T0::Model, ) {
        (self.0.model(), )
    }

    open spec fn outcome(node: (T0::Model, ), tokens: Seq<Token>, clipboard: ClipboardModel) -> Outcome<
        (T0::Model, ),
    > {
        tuple1_outcome::<T0>(node, tokens, clipboard)
    }

    open spec fn json(node: (T0::Model, )) -> JsonModel {
        tuple1_json::<T0>(node)
    }

    open spec fn decoded(value: JsonModel) -> Result<(T0::Model, ), Seq<char>> {
        tuple1_decoded::<T0>(value)
    }

    open spec fn default_model() -> (T0::Model, ) {
        (T0::default_model(), )
    }

    fn node_step_with(&mut self, runner: NodeRunner, clipboard: &mut Clipboard) -> (text: String) {
        let mut runner = runner;
        let ghost tokens = runner@;
        let token = runner.step();
        proof {
            if token@.is_chain() {
                lemma_rest_well_formed(tokens);
            }
            assert(Self::outcome(old(self).model(), tokens, old(clipboard)@) == tuple1_outcome::<
                T0,
            >(old(self).model(), tokens, old(clipboard)@));
        }
        match token {
            NodeToken::ChainIndex(index) => {
                match index {
                    0 => self.0.node_step_with(runner, clipboard),
                    _ => {
                        let mut text = String::from_str("Used index ");
                        text.append(format_integer(index as i128).as_str());
                        text.append(" on a ");
                        text.append("( T0 , )");
                        text
                    },
                }
            },
            NodeToken::ChainAll => {
                let mut combined = String::from_str("|");
                combined.append(self.0.node_step_with(runner.duplicate(), clipboard).as_str());
                combined.append("|");
                combined
            },
            NodeToken::Get => {
                let value = self.to_json();
                json_pretty(&value)
            },
            NodeToken::SetValue(value) => {
                match json_parse(value.as_str()) {
                    Ok(json) => match Self::from_json(&json) {
                        Ok(node) => {
                            *self = node;
                            String::new()
                        },
                        Err(message) => set_error("( T0 , )", message.as_str()),
                    },
                    Err(message) => set_error("( T0 , )", message.as_str()),
                }
            },
            NodeToken::Help => String::from_str(
                "\nTuple Help\n\nCommands:\n*   help - display this help\n*   get  - display JSON\n*   set  - set to JSON\n\nAccessors:\n*   [index] - access item at index",
            ),
            action => cannot("( T0 , )", &action),
        }
    }

    fn to_json(&self) -> (value: serde_json::Value) {
        proof {
            assert(Self::json(self.model()) == tuple1_json::<T0>(self.model()));
        }
        let mut values: Vec<serde_json::Value> = Vec::new();
        values.push(self.0.to_json());
        assert(json_views(values@) =~= seq![T0::json(self.0.model())]);
        json_from_list(values)
    }

    fn from_json(value: &serde_json::Value) -> (result: Result<(T0, ), String>) {
        proof {
            assert(Self::decoded(json_view(*value)) == tuple1_decoded::<T0>(
                json_view(*value),
            ));
        }
        let values = match json_as_list(value) {
            Some(values) => values,
            None => {
                return Err(invalid("( T0 , )", "a list of 1 value"));
            },
        };
        if values.len() != 1 {
            return Err(invalid("( T0 , )", "a list of 1 value"));
        }
        proof {
            assert(forall|i: int| 0 <= i < 1 ==> json_views(values@)[i] == json_view(values@[i]));
        }
        let field0 = match T0::from_json(&values[0]) {
            Ok(field) => field,
            Err(message) => {
                return Err(message);
            },
        };
        Ok((field0, ))
    }

    fn default_node() -> (node: (T0, )) {
        (T0::default_node(), )
    }
}

/// The laws of a tuple of 1, where they hold of its fields: reading changes
/// nothing, and a `set` that fails changes nothing.
pub proof fn lemma_tuple1_laws<T0: Node>()
    requires
        unchanged_by_reading::<T0>(),
    ensures
        unchanged_by_reading::<(T0, )>(),
        set_fails_without_change::<(T0, )>(),
{
    assert forall|node: (T0::Model, ), tokens: Seq<Token>, clipboard: ClipboardModel|
        reads(tokens) implies (#[trigger] <(T0, )>::outcome(node, tokens, clipboard)).node == node
        && <(T0, )>::outcome(node, tokens, clipboard).clipboard == clipboard by {
        if tokens.last().is_chain() {
            lemma_rest_reads(tokens);
        }
    }
    assert forall|node: (T0::Model, ), value: Seq<char>, clipboard: ClipboardModel|
        (#[trigger] <(T0, )>::outcome(node, seq![Token::SetValue(value)], clipboard)).text.len()
            > 0 implies <(T0, )>::outcome(node, seq![Token::SetValue(value)], clipboard).node
        == node by {
        assert(seq![Token::SetValue(value)].last() == Token::SetValue(value));
    }
}

/// A tuple of 1 is read back from the JSON list that is written for it, where
/// its fields are read back from their values.
pub proof fn lemma_tuple1_round_trips<T0: Node>(node: (T0::Model, ))
    requires
        round_trips::<T0>(node.0),
    ensures
        round_trips::<(T0, )>(node),
{
}

/// The JSON list that stands for a tuple of 2: the value of each field, in order.
pub open spec fn tuple2_json<T0: Node, T1: Node>(node: (T0::Model, T1::Model, )) -> JsonModel {
    JsonModel::List(seq![T0::json(node.0), T1::json(node.1)])
}

/// The tuple of 2 that a JSON value stands for: a list of 2 values, each of
/// which stands for the field at its place.
pub open spec fn tuple2_decoded<T0: Node, T1: Node>(value: JsonModel) -> Result<(T0::Model, T1::Model, ), Seq<char>> {
    match value {
        JsonModel::List(values) => if values.len() == 2 {
            match T0::decoded(values[0]) {
            Ok(field0) => match T1::decoded(values[1]) {
            Ok(field1) => Ok((field0, field1, )),
            Err(message) => Err(message),
        },
            Err(message) => Err(message),
        }
        } else {
            Err(invalid_text("( T0 , T1 , )"@, "a list of 2 values"@))
        },
        _ => Err(invalid_text("( T0 , T1 , )"@, "a list of 2 values"@)),
    }
}

/// The tuple of 2 that the text `text` sets, or the message that says why it sets none.
pub open spec fn tuple2_set<T0: Node, T1: Node>(text: Seq<char>) -> Result<(T0::Model, T1::Model, ), Seq<char>> {
    match json_parsed(text) {
        Ok(value) => match tuple2_decoded::<T0, T1>(value) {
            Ok(node) => Ok(node),
            Err(message) => Err("( T0 , T1 , )"@ + " set error: "@ + message),
        },
        Err(message) => Err("( T0 , T1 , )"@ + " set error: "@ + message),
    }
}

/// What a tuple of 2 makes of a command: `[i]` hands the command to the
/// field at `i`, `[*]` to every field in order; `get` writes the tuple as
/// JSON and `set` reads it from JSON.
pub open spec fn tuple2_outcome<T0: Node, T1: Node>(
    node: (T0::Model, T1::Model, ),
    tokens: Seq<Token>,
    clipboard: ClipboardModel,
) -> Outcome<(T0::Model, T1::Model, )> {
    let rest = tokens.drop_last();
    let unchanged = |text: Seq<char>| Outcome { text, node, clipboard };
    match tokens.last() {
        Token::ChainIndex(index) => if index == 0 {
            let one = T0::outcome(node.0, rest, clipboard);
            Outcome { text: one.text, node: (one.node, node.1, ), clipboard: one.clipboard }
        } else {
            if index == 1 {
            let one = T1::outcome(node.1, rest, clipboard);
            Outcome { text: one.text, node: (node.0, one.node, ), clipboard: one.clipboard }
        } else {
            unchanged("Used index "@ + decimal_text(index as int) + " on a "@ + "( T0 , T1 , )"@)
        }
        },
        Token::ChainAll => {
            let step0 = T0::outcome(node.0, rest, clipboard);
            let step1 = T1::outcome(node.1, rest, step0.clipboard);
            Outcome {
                text: "|"@ + step0.text + "|"@ + step1.text + "|"@,
                node: (step0.node, step1.node, ),
                clipboard: step1.clipboard,
            }
        },
        Token::Get => unchanged(json_pretty_text(tuple2_json::<T0, T1>(node))),
        Token::SetValue(value) => match tuple2_set::<T0, T1>(value) {
            Ok(node) => Outcome { text: Seq::empty(), node, clipboard },
            Err(message) => unchanged(message),
        },
        Token::Help => unchanged(tuple_help()),
        token => unchanged(cannot_text("( T0 , T1 , )"@, token)),
    }
}

impl<T0: Node, T1: Node> Node for (T0, T1, ) {
    type Model = (T0::Model, T1::Model, );

    open spec fn model(&self) -> (T0::Model, T1::Model, ) {
        (self.0.model(), self.1.model(), )
    }

    open spec fn outcome(node: (T0::Model, T1::Model, ), tokens: Seq<Token>, clipboard: ClipboardModel) -> Outcome<
        (T0::Model, T1::Model, ),
    > {
        tuple2_outcome::<T0, T1>(node, tokens, clipboard)
    }

    open spec fn json(node: (T0::Model, T1::Model, )) -> JsonModel {
        tuple2_json::<T0, T1>(node)
    }

    open spec fn decoded(value: JsonModel) -> Result<(T0::Model, T1::Model, ), Seq<char>> {
        tuple2_decoded::<T0, T1>(value)
    }

    open spec fn default_model() -> (T0::Model, T1::Model, ) {
        (T0::default_model(), T1::default_model(), )
    }

    fn node_step_with(&mut self, runner: NodeRunner, clipboard: &mut Clipboard) -> (text: String) {
        let mut runner = runner;
        let ghost tokens = runner@;
        let token = runner.step();
        proof {
            if token@.is_chain() {
                lemma_rest_well_formed(tokens);
            }
            assert(Self::outcome(old(self).model(), tokens, old(clipboard)@) == tuple2_outcome::<
                T0, T1,
            >(old(self).model(), tokens, old(clipboard)@));
        }
        match token {
            NodeToken::ChainIndex(index) => {
                match index {
                    0 => self.0.node_step_with(runner, clipboard),
                    1 => self.1.node_step_with(runner, clipboard),
                    _ => {
                        let mut text = String::from_str("Used index ");
                        text.append(format_integer(index as i128).as_str());
                        text.append(" on a ");
                        text.append("( T0 , T1 , )");
                        text
                    },
                }
            },
            NodeToken::ChainAll => {
                let mut combined = String::from_str("|");
                combined.append(self.0.node_step_with(runner.duplicate(), clipboard).as_str());
                combined.append("|");
                combined.append(self.1.node_step_with(runner.duplicate(), clipboard).as_str());
                combined.append("|");
                combined
            },
            NodeToken::Get => {
                let value = self.to_json();
                json_pretty(&value)
            },
            NodeToken::SetValue(value) => {
                match json_parse(value.as_str()) {
                    Ok(json) => match Self::from_json(&json) {
                        Ok(node) => {
                            *self = node;
                            String::new()
                        },
                        Err(message) => set_error("( T0 , T1 , )", message.as_str()),
                    },
                    Err(message) => set_error("( T0 , T1 , )", message.as_str()),
                }
            },
            NodeToken::Help => String::from_str(
                "\nTuple Help\n\nCommands:\n*   help - display this help\n*   get  - display JSON\n*   set  - set to JSON\n\nAccessors:\n*   [index] - access item at index",
            ),
            action => cannot("( T0 , T1 , )", &action),
        }
    }

    fn to_json(&self) -> (value: serde_json::Value) {
        proof {
            assert(Self::json(self.model()) == tuple2_json::<T0, T1>(self.model()));
        }
        let mut values: Vec<serde_json::Value> = Vec::new();
        values.push(self.0.to_json());
        values.push(self.1.to_json());
        assert(json_views(values@) =~= seq![T0::json(self.0.model()), T1::json(self.1.model())]);
        json_from_list(values)
    }

    fn from_json(value: &serde_json::Value) -> (result: Result<(T0, T1, ), String>) {
        proof {
            assert(Self::decoded(json_view(*value)) == tuple2_decoded::<T0, T1>(
                json_view(*value),
            ));
        }
        let values = match json_as_list(value) {
            Some(values) => values,
            None => {
                return Err(invalid("( T0 , T1 , )", "a list of 2 values"));
            },
        };
        if values.len() != 2 {
            return Err(invalid("( T0 , T1 , )", "a list of 2 values"));
        }
        proof {
            assert(forall|i: int| 0 <= i < 2 ==> json_views(values@)[i] == json_view(values@[i]));
        }
        let field0 = match T0::from_json(&values[0]) {
            Ok(field) => field,
            Err(message) => {
                return Err(message);
            },
        };
        let field1 = match T1::from_json(&values[1]) {
            Ok(field) => field,
            Err(message) => {
                return Err(message);
            },
        };
        Ok((field0, field1, ))
    }

    fn default_node() -> (node: (T0, T1, )) {
        (T0::default_node(), T1::default_node(), )
    }
}

/// The laws of a tuple of 2, where they hold of its fields: reading changes
/// nothing, and a `set` that fails changes nothing.
pub proof fn lemma_tuple2_laws<T0: Node, T1: Node>()
    requires
        unchanged_by_reading::<T0>(),
        unchanged_by_reading::<T1>(),
    ensures
        unchanged_by_reading::<(T0, T1, )>(),
        set_fails_without_change::<(T0, T1, )>(),
{
    assert forall|node: (T0::Model, T1::Model, ), tokens: Seq<Token>, clipboard: ClipboardModel|
        reads(tokens) implies (#[trigger] <(T0, T1, )>::outcome(node, tokens, clipboard)).node == node
        && <(T0, T1, )>::outcome(node, tokens, clipboard).clipboard == clipboard by {
        if tokens.last().is_chain() {
            lemma_rest_reads(tokens);
        }
    }
    assert forall|node: (T0::Model, T1::Model, ), value: Seq<char>, clipboard: ClipboardModel|
        (#[trigger] <(T0, T1, )>::outcome(node, seq![Token::SetValue(value)], clipboard)).text.len()
            > 0 implies <(T0, T1, )>::outcome(node, seq![Token::SetValue(value)], clipboard).node
        == node by {
        assert(seq![Token::SetValue(value)].last() == Token::SetValue(value));
    }
}

/// A tuple of 2 is read back from the JSON list that is written for it, where
/// its fields are read back from their values.
pub proof fn lemma_tuple2_round_trips<T0: Node, T1: Node>(node: (T0::Model, T1::Model, ))
    requires
        round_trips::<T0>(node.0),
        round_trips::<T1>(node.1),
    ensures
        round_trips::<(T0, T1, )>(node),
{
}

/// The JSON list that stands for a tuple of 3: the value of each field, in order.
pub open spec fn tuple3_json<T0: Node, T1: Node, T2: Node>(node: (T0::Model, T1::Model, T2::Model, )) -> JsonModel {
    JsonModel::List(seq![T0::json(node.0), T1::json(node.1), T2::json(node.2)])
}

/// The tuple of 3 that a JSON value stands for: a list of 3 values, each of
/// which stands for the field at its place.
pub open spec fn tuple3_decoded<T0: Node, T1: Node, T2: Node>(value: JsonModel) -> Result<(T0::Model, T1::Model, T2::Model, ), Seq<char>> {
    match value {
        JsonModel::List(values) => if values.len() == 3 {
            match T0::decoded(values[0]) {
            Ok(field0) => match T1::decoded(values[1]) {
            Ok(field1) => match T2::decoded(values[2]) {
            Ok(field2) => Ok((field0, field1, field2, )),
            Err(message) => Err(message),
        },
            Err(message) => Err(message),
        },
            Err(message) => Err(message),
        }
        } else {
            Err(invalid_text("( T0 , T1 , T2 , )"@, "a list of 3 values"@))
        },
        _ => Err(invalid_text("( T0 , T1 , T2 , )"@, "a list of 3 values"@)),
    }
}

/// The tuple of 3 that the text `text` sets, or the message that says why it sets none.
pub open spec fn tuple3_set<T0: Node, T1: Node, T2: Node>(text: Seq<char>) -> Result<(T0::Model, T1::Model, T2::Model, ), Seq<char>> {
    match json_parsed(text) {
        Ok(value) => match tuple3_decoded::<T0, T1, T2>(value) {
            Ok(node) => Ok(node),
            Err(message) => Err("( T0 , T1 , T2 , )"@ + " set error: "@ + message),
        },
        Err(message) => Err("( T0 , T1 , T2 , )"@ + " set error: "@ + message),
    }
}

/// What a tuple of 3 makes of a command: `[i]` hands the command to the
/// field at `i`, `[*]` to every field in order; `get` writes the tuple as
/// JSON and `set` reads it from JSON.
pub open spec fn tuple3_outcome<T0: Node, T1: Node, T2: Node>(
    node: (T0::Model, T1::Model, T2::Model, ),
    tokens: Seq<Token>,
    clipboard: ClipboardModel,
) -> Outcome<(T0::Model, T1::Model, T2::Model, )> {
    let rest = tokens.drop_last();
    let unchanged = |text: Seq<char>| Outcome { text, node, clipboard };
    match tokens.last() {
        Token::ChainIndex(index) => if index == 0 {
            let one = T0::outcome(node.0, rest, clipboard);
            Outcome { text: one.text, node: (one.node, node.1, node.2, ), clipboard: one.clipboard }
        } else {
            if index == 1 {
            let one = T1::outcome(node.1, rest, clipboard);
            Outcome { text: one.text, node: (node.0, one.node, node.2, ), clipboard: one.clipboard }
        } else {
            if index == 2 {
            let one = T2::outcome(node.2, rest, clipboard);
            Outcome { text: one.text, node: (node.0, node.1, one.node, ), clipboard: one.clipboard }
        } else {
            unchanged("Used index "@ + decimal_text(index as int) + " on a "@ + "( T0 , T1 , T2 , )"@)
        }
        }
        },
        Token::ChainAll => {
            let step0 = T0::outcome(node.0, rest, clipboard);
            let step1 = T1::outcome(node.1, rest, step0.clipboard);
            let step2 = T2::outcome(node.2, rest, step1.clipboard);
            Outcome {
                text: "|"@ + step0.text + "|"@ + step1.text + "|"@ + step2.text + "|"@,
                node: (step0.node, step1.node, step2.node, ),
                clipboard: step2.clipboard,
            }
        },
        Token::Get => unchanged(json_pretty_text(tuple3_json::<T0, T1, T2>(node))),
        Token::SetValue(value) => match tuple3_set::<T0, T1, T2>(value) {
            Ok(node) => Outcome { text: Seq::empty(), node, clipboard },
            Err(message) => unchanged(message),
        },
        Token::Help => unchanged(tuple_help()),
        token => unchanged(cannot_text("( T0 , T1 , T2 , )"@, token)),
    }
}

impl<T0: Node, T1: Node, T2: Node> Node for (T0, T1, T2, ) {
    type Model = (T0::Model, T1::Model, T2::Model, );

    open spec fn model(&self) -> (T0::Model, T1::Model, T2::Model, ) {
        (self.0.model(), self.1.model(), self.2.model(), )
    }

    open spec fn outcome(node: (T0::Model, T1::Model, T2::Model, ), tokens: Seq<Token>, clipboard: ClipboardModel) -> Outcome<
        (T0::Model, T1::Model, T2::Model, ),
    > {
        tuple3_outcome::<T0, T1, T2>(node, tokens, clipboard)
    }

    open spec fn json(node: (T0::Model, T1::Model, T2::Model, )) -> JsonModel {
        tuple3_json::<T0, T1, T2>(node)
    }

    open spec fn decoded(value: JsonModel) -> Result<(T0::Model, T1::Model, T2::Model, ), Seq<char>> {
        tuple3_decoded::<T0, T1, T2>(value)
    }

    open spec fn default_model() -> (T0::Model, T1::Model, T2::Model, ) {
        (T0::default_model(), T1::default_model(), T2::default_model(), )
    }

    fn node_step_with(&mut self, runner: NodeRunner, clipboard: &mut Clipboard) -> (text: String) {
        let mut runner = runner;
        let ghost tokens = runner@;
        let token = runner.step();
        proof {
            if token@.is_chain() {
                lemma_rest_well_formed(tokens);
            }
            assert(Self::outcome(old(self).model(), tokens, old(clipboard)@) == tuple3_outcome::<
                T0, T1, T2,
            >(old(self).model(), tokens, old(clipboard)@));
        }
        match token {
            NodeToken::ChainIndex(index) => {
                match index {
                    0 => self.0.node_step_with(runner, clipboard),
                    1 => self.1.node_step_with(runner, clipboard),
                    2 => self.2.node_step_with(runner, clipboard),
                    _ => {
                        let mut text = String::from_str("Used index ");
                        text.append(format_integer(index as i128).as_str());
                        text.append(" on a ");
                        text.append("( T0 , T1 , T2 , )");
                        text
                    },
                }
            },
            NodeToken::ChainAll => {
                let mut combined = String::from_str("|");
                combined.append(self.0.node_step_with(runner.duplicate(), clipboard).as_str());
                combined.append("|");
                combined.append(self.1.node_step_with(runner.duplicate(), clipboard).as_str());
                combined.append("|");
                combined.append(self.2.node_step_with(runner.duplicate(), clipboard).as_str());
                combined.append("|");
                combined
            },
            NodeToken::Get => {
                let value = self.to_json();
                json_pretty(&value)
            },
            NodeToken::SetValue(value) => {
                match json_parse(value.as_str()) {
                    Ok(json) => match Self::from_json(&json) {
                        Ok(node) => {
                            *self = node;
                            String::new()
                        },
                        Err(message) => set_error("( T0 , T1 , T2 , )", message.as_str()),
                    },
                    Err(message) => set_error("( T0 , T1 , T2 , )", message.as_str()),
                }
            },
            NodeToken::Help => String::from_str(
                "\nTuple Help\n\nCommands:\n*   help - display this help\n*   get  - display JSON\n*   set  - set to JSON\n\nAccessors:\n*   [index] - access item at index",
            ),
            action => cannot("( T0 , T1 , T2 , )", &action),
        }
    }

    fn to_json(&self) -> (value: serde_json::Value) {
        proof {
            assert(Self::json(self.model()) == tuple3_json::<T0, T1, T2>(self.model()));
        }
        let mut values: Vec<serde_json::Value> = Vec::new();
        values.push(self.0.to_json());
        values.push(self.1.to_json());
        values.push(self.2.to_json());
        assert(json_views(values@) =~= seq![T0::json(self.0.model()), T1::json(self.1.model()), T2::json(self.2.model())]);
        json_from_list(values)
    }

    fn from_json(value: &serde_json::Value) -> (result: Result<(T0, T1, T2, ), String>) {
        proof {
            assert(Self::decoded(json_view(*value)) == tuple3_decoded::<T0, T1, T2>(
                json_view(*value),
            ));
        }
        let values = match json_as_list(value) {
            Some(values) => values,
            None => {
                return Err(invalid("( T0 , T1 , T2 , )", "a list of 3 values"));
            },
        };
        if values.len() != 3 {
            return Err(invalid("( T0 , T1 , T2 , )", "a list of 3 values"));
        }
        proof {
            assert(forall|i: int| 0 <= i < 3 ==> json_views(values@)[i] == json_view(values@[i]));
        }
        let field0 = match T0::from_json(&values[0]) {
            Ok(field) => field,
            Err(message) => {
                return Err(message);
            },
        };
        let field1 = match T1::from_json(&values[1]) {
            Ok(field) => field,
            Err(message) => {
                return Err(message);
            },
        };
        let field2 = match T2::from_json(&values[2]) {
            Ok(field) => field,
            Err(message) => {
                return Err(message);
            },
        };
        Ok((field0, field1, field2, ))
    }

    fn default_node() -> (node: (T0, T1, T2, )) {
        (T0::default_node(), T1::default_node(), T2::default_node(), )
    }
}

/// The laws of a tuple of 3, where they hold of its fields: reading changes
/// nothing, and a `set` that fails changes nothing.
pub proof fn lemma_tuple3_laws<T0: Node, T1: Node, T2: Node>()
    requires
        unchanged_by_reading::<T0>(),
        unchanged_by_reading::<T1>(),
        unchanged_by_reading::<T2>(),
    ensures
        unchanged_by_reading::<(T0, T1, T2, )>(),
        set_fails_without_change::<(T0, T1, T2, )>(),
{
    assert forall|node: (T0::Model, T1::Model, T2::Model, ), tokens: Seq<Token>, clipboard: ClipboardModel|
        reads(tokens) implies (#[trigger] <(T0, T1, T2, )>::outcome(node, tokens, clipboard)).node == node
        && <(T0, T1, T2, )>::outcome(node, tokens, clipboard).clipboard == clipboard by {
        if tokens.last().is_chain() {
            lemma_rest_reads(tokens);
        }
    }
    assert forall|node: (T0::Model, T1::Model, T2::Model, ), value: Seq<char>, clipboard: ClipboardModel|
        (#[trigger] <(T0, T1, T2, )>::outcome(node, seq![Token::SetValue(value)], clipboard)).text.len()
            > 0 implies <(T0, T1, T2, )>::outcome(node, seq![Token::SetValue(value)], clipboard).node
        == node by {
        assert(seq![Token::SetValue(value)].last() == Token::SetValue(value));
    }
}

/// A tuple of 3 is read back from the JSON list that is written for it, where
/// its fields are read back from their values.
pub proof fn lemma_tuple3_round_trips<T0: Node, T1: Node, T2: Node>(node: (T0::Model, T1::Model, T2::Model, ))
    requires
        round_trips::<T0>(node.0),
        round_trips::<T1>(node.1),
        round_trips::<T2>(node.2),
    ensures
        round_trips::<(T0, T1, T2, )>(node),
{
}

/// The JSON list that stands for a tuple of 4: the value of each field, in order.
pub open spec fn tuple4_json<T0: Node, T1: Node, T2: Node, T3: Node>(node: (T0::Model, T1::Model, T2::Model, T3::Model, )) -> JsonModel {
    JsonModel::List(seq![T0::json(node.0), T1::json(node.1), T2::json(node.2), T3::json(node.3)])
}

/// The tuple of 4 that a JSON value stands for: a list of 4 values, each of
/// which stands for the field at its place.
pub open spec fn tuple4_decoded<T0: Node, T1: Node, T2: Node, T3: Node>(value: JsonModel) -> Result<(T0::Model, T1::Model, T2::Model, T3::Model, ), Seq<char>> {
    match value {
        JsonModel::List(values) => if values.len() == 4 {
            match T0::decoded(values[0]) {
            Ok(field0) => match T1::decoded(values[1]) {
            Ok(field1) => match T2::decoded(values[2]) {
            Ok(field2) => match T3::decoded(values[3]) {
            Ok(field3) => Ok((field0, field1, field2, field3, )),
            Err(message) => Err(message),
        },
            Err(message) => Err(message),
        },
            Err(message) => Err(message),
        },
            Err(message) => Err(message),
        }
        } else {
            Err(invalid_text("( T0 , T1 , T2 , T3 , )"@, "a list of 4 values"@))
        },
        _ => Err(invalid_text("( T0 , T1 , T2 , T3 , )"@, "a list of 4 values"@)),
    }
}

/// The tuple of 4 that the text `text` sets, or the message that says why it sets none.
pub open spec fn tuple4_set<T0: Node, T1: Node, T2: Node, T3: Node>(text: Seq<char>) -> Result<(T0::Model, T1::Model, T2::Model, T3::Model, ), Seq<char>> {
    match json_parsed(text) {
        Ok(value) => match tuple4_decoded::<T0, T1, T2, T3>(value) {
            Ok(node) => Ok(node),
            Err(message) => Err("( T0 , T1 , T2 , T3 , )"@ + " set error: "@ + message),
        },
        Err(message) => Err("( T0 , T1 , T2 , T3 , )"@ + " set error: "@ + message),
    }
}

/// What a tuple of 4 makes of a command: `[i]` hands the command to the
/// field at `i`, `[*]` to every field in order; `get` writes the tuple as
/// JSON and `set` reads it from JSON.
pub open spec fn tuple4_outcome<T0: Node, T1: Node, T2: Node, T3: Node>(
    node: (T0::Model, T1::Model, T2::Model, T3::Model, ),
    tokens: Seq<Token>,
    clipboard: ClipboardModel,
) -> Outcome<(T0::Model, T1::Model, T2::Model, T3::Model, )> {
    let rest = tokens.drop_last();
    let unchanged = |text: Seq<char>| Outcome { text, node, clipboard };
    match tokens.last() {
        Token::ChainIndex(index) => if index == 0 {
            let one = T0::outcome(node.0, rest, clipboard);
            Outcome { text: one.text, node: (one.node, node.1, node.2, node.3, ), clipboard: one.clipboard }
        } else {
            if index == 1 {
            let one = T1::outcome(node.1, rest, clipboard);
            Outcome { text: one.text, node: (node.0, one.node, node.2, node.3, ), clipboard: one.clipboard }
        } else {
            if index == 2 {
            let one = T2::outcome(node.2, rest, clipboard);
            Outcome { text: one.text, node: (node.0, node.1, one.node, node.3, ), clipboard: one.clipboard }
        } else {
            if index == 3 {
            let one = T3::outcome(node.3, rest, clipboard);
            Outcome { text: one.text, node: (node.0, node.1, node.2, one.node, ), clipboard: one.clipboard }
        } else {
            unchanged("Used index "@ + decimal_text(index as int) + " on a "@ + "( T0 , T1 , T2 , T3 , )"@)
        }
        }
        }
        },
        Token::ChainAll => {
            let step0 = T0::outcome(node.0, rest, clipboard);
            let step1 = T1::outcome(node.1, rest, step0.clipboard);
            let step2 = T2::outcome(node.2, rest, step1.clipboard);
            let step3 = T3::outcome(node.3, rest, step2.clipboard);
            Outcome {
                text: "|"@ + step0.text + "|"@ + step1.text + "|"@ + step2.text + "|"@ + step3.text + "|"@,
                node: (step0.node, step1.node, step2.node, step3.node, ),
                clipboard: step3.clipboard,
            }
        },
        Token::Get => unchanged(json_pretty_text(tuple4_json::<T0, T1, T2, T3>(node))),
        Token::SetValue(value) => match tuple4_set::<T0, T1, T2, T3>(value) {
            Ok(node) => Outcome { text: Seq::empty(), node, clipboard },
            Err(message) => unchanged(message),
        },
        Token::Help => unchanged(tuple_help()),
        token => unchanged(cannot_text("( T0 , T1 , T2 , T3 , )"@, token)),
    }
}

impl<T0: Node, T1: Node, T2: Node, T3: Node> Node for (T0, T1, T2, T3, ) {
    type Model = (T0::Model, T1::Model, T2::Model, T3::Model, );

    open spec fn model(&self) -> (T0::Model, T1::Model, T2::Model, T3::Model, ) {
        (self.0.model(), self.1.model(), self.2.model(), self.3.model(), )
    }

    open spec fn outcome(node: (T0::Model, T1::Model, T2::Model, T3::Model, ), tokens: Seq<Token>, clipboard: ClipboardModel) -> Outcome<
        (T0::Model, T1::Model, T2::Model, T3::Model, ),
    > {
        tuple4_outcome::<T0, T1, T2, T3>(node, tokens, clipboard)
    }

    open spec fn json(node: (T0::Model, T1::Model, T2::Model, T3::Model, )) -> JsonModel {
        tuple4_json::<T0, T1, T2, T3>(node)
    }

    open spec fn decoded(value: JsonModel) -> Result<(T0::Model, T1::Model, T2::Model, T3::Model, ), Seq<char>> {
        tuple4_decoded::<T0, T1, T2, T3>(value)
    }

    open spec fn default_model() -> (T0::Model, T1::Model, T2::Model, T3::Model, ) {
        (T0::default_model(), T1::default_model(), T2::default_model(), T3::default_model(), )
    }

    fn node_step_with(&mut self, runner: NodeRunner, clipboard: &mut Clipboard) -> (text: String) {
        let mut runner = runner;
        let ghost tokens = runner@;
        let token = runner.step();
        proof {
            if token@.is_chain() {
                lemma_rest_well_formed(tokens);
            }
            assert(Self::outcome(old(self).model(), tokens, old(clipboard)@) == tuple4_outcome::<
                T0, T1, T2, T3,
            >(old(self).model(), tokens, old(clipboard)@));
        }
        match token {
            NodeToken::ChainIndex(index) => {
                match index {
                    0 => self.0.node_step_with(runner, clipboard),
                    1 => self.1.node_step_with(runner, clipboard),
                    2 => self.2.node_step_with(runner, clipboard),
                    3 => self.3.node_step_with(runner, clipboard),
                    _ => {
                        let mut text = String::from_str("Used index ");
                        text.append(format_integer(index as i128).as_str());
                        text.append(" on a ");
                        text.append("( T0 , T1 , T2 , T3 , )");
                        text
                    },
                }
            },
            NodeToken::ChainAll => {
                let mut combined = String::from_str("|");
                combined.append(self.0.node_step_with(runner.duplicate(), clipboard).as_str());
                combined.append("|");
                combined.append(self.1.node_step_with(runner.duplicate(), clipboard).as_str());
                combined.append("|");
                combined.append(self.2.node_step_with(runner.duplicate(), clipboard).as_str());
                combined.append("|");
                combined.append(self.3.node_step_with(runner.duplicate(), clipboard).as_str());
                combined.append("|");
                combined
            },
            NodeToken::Get => {
                let value = self.to_json();
                json_pretty(&value)
            },
            NodeToken::SetValue(value) => {
                match json_parse(value.as_str()) {
                    Ok(json) => match Self::from_json(&json) {
                        Ok(node) => {
                            *self = node;
                            String::new()
                        },
                        Err(message) => set_error("( T0 , T1 , T2 , T3 , )", message.as_str()),
                    },
                    Err(message) => set_error("( T0 , T1 , T2 , T3 , )", message.as_str()),
                }
            },
            NodeToken::Help => String::from_str(
                "\nTuple Help\n\nCommands:\n*   help - display this help\n*   get  - display JSON\n*   set  - set to JSON\n\nAccessors:\n*   [index] - access item at index",
            ),
            action => cannot("( T0 , T1 , T2 , T3 , )", &action),
        }
    }

    fn to_json(&self) -> (value: serde_json::Value) {
        proof {
            assert(Self::json(self.model()) == tuple4_json::<T0, T1, T2, T3>(self.model()));
        }
        let mut values: Vec<serde_json::Value> = Vec::new();
        values.push(self.0.to_json());
        values.push(self.1.to_json());
        values.push(self.2.to_json());
        values.push(self.3.to_json());
        assert(json_views(values@) =~= seq![T0::json(self.0.model()), T1::json(self.1.model()), T2::json(self.2.model()), T3::json(self.3.model())]);
        json_from_list(values)
    }

    fn from_json(value: &serde_json::Value) -> (result: Result<(T0, T1, T2, T3, ), String>) {
        proof {
            assert(Self::decoded(json_view(*value)) == tuple4_decoded::<T0, T1, T2, T3>(
                json_view(*value),
            ));
        }
        let values = match json_as_list(value) {
            Some(values) => values,
            None => {
                return Err(invalid("( T0 , T1 , T2 , T3 , )", "a list of 4 values"));
            },
        };
        if values.len() != 4 {
            return Err(invalid("( T0 , T1 , T2 , T3 , )", "a list of 4 values"));
        }
        proof {
            assert(forall|i: int| 0 <= i < 4 ==> json_views(values@)[i] == json_view(values@[i]));
        }
        let field0 = match T0::from_json(&values[0]) {
            Ok(field) => field,
            Err(message) => {
                return Err(message);
            },
        };
        let field1 = match T1::from_json(&values[1]) {
            Ok(field) => field,
            Err(message) => {
                return Err(message);
            },
        };
        let field2 = match T2::from_json(&values[2]) {
            Ok(field) => field,
            Err(message) => {
                return Err(message);
            },
        };
        let field3 = match T3::from_json(&values[3]) {
            Ok(field) => field,
            Err(message) => {
                return Err(message);
            },
        };
        Ok((field0, field1, field2, field3, ))
    }

    fn default_node() -> (node: (T0, T1, T2, T3, )) {
        (T0::default_node(), T1::default_node(), T2::default_node(), T3::default_node(), )
    }
}

/// The laws of a tuple of 4, where they hold of its fields: reading changes
/// nothing, and a `set` that fails changes nothing.
pub proof fn lemma_tuple4_laws<T0: Node, T1: Node, T2: Node, T3: Node>()
    requires
        unchanged_by_reading::<T0>(),
        unchanged_by_reading::<T1>(),
        unchanged_by_reading::<T2>(),
        unchanged_by_reading::<T3>(),
    ensures
        unchanged_by_reading::<(T0, T1, T2, T3, )>(),
        set_fails_without_change::<(T0, T1, T2, T3, )>(),
{
    assert forall|node: (T0::Model, T1::Model, T2::Model, T3::Model, ), tokens: Seq<Token>, clipboard: ClipboardModel|
        reads(tokens) implies (#[trigger] <(T0, T1, T2, T3, )>::outcome(node, tokens, clipboard)).node == node
        && <(T0, T1, T2, T3, )>::outcome(node, tokens, clipboard).clipboard == clipboard by {
        if tokens.last().is_chain() {
            lemma_rest_reads(tokens);
        }
    }
    assert forall|node: (T0::Model, T1::Model, T2::Model, T3::Model, ), value: Seq<char>, clipboard: ClipboardModel|
        (#[trigger] <(T0, T1, T2, T3, )>::outcome(node, seq![Token::SetValue(value)], clipboard)).text.len()
            > 0 implies <(T0, T1, T2, T3, )>::outcome(node, seq![Token::SetValue(value)], clipboard).node
        == node by {
        assert(seq![Token::SetValue(value)].last() == Token::SetValue(value));
    }
}

/// A tuple of 4 is read back from the JSON list that is written for it, where
/// its fields are read back from their values.
pub proof fn lemma_tuple4_round_trips<T0: Node, T1: Node, T2: Node, T3: Node>(node: (T0::Model, T1::Model, T2::Model, T3::Model, ))
    requires
        round_trips::<T0>(node.0),
        round_trips::<T1>(node.1),
        round_trips::<T2>(node.2),
        round_trips::<T3>(node.3),
    ensures
        round_trips::<(T0, T1, T2, T3, )>(node),
{
}

/// The JSON list that stands for a tuple of 5: the value of each field, in order.
pub open spec fn tuple5_json<T0: Node, T1: Node, T2: Node, T3: Node, T4: Node>(node: (T0::Model, T1::Model, T2::Model, T3::Model, T4::Model, )) -> JsonModel {
    JsonModel::List(seq![T0::json(node.0), T1::json(node.1), T2::json(node.2), T3::json(node.3), T4::json(node.4)])
}

/// The tuple of 5 that a JSON value stands for: a list of 5 values, each of
/// which stands for the field at its place.
pub open spec fn tuple5_decoded<T0: Node, T1: Node, T2: Node, T3: Node, T4: Node>(value: JsonModel) -> Result<(T0::Model, T1::Model, T2::Model, T3::Model, T4::Model, ), Seq<char>> {
    match value {
        JsonModel::List(values) => if values.len() == 5 {
            match T0::decoded(values[0]) {
            Ok(field0) => match T1::decoded(values[1]) {
            Ok(field1) => match T2::decoded(values[2]) {
            Ok(field2) => match T3::decoded(values[3]) {
            Ok(field3) => match T4::decoded(values[4]) {
            Ok(field4) => Ok((field0, field1, field2, field3, field4, )),
            Err(message) => Err(message),
        },
            Err(message) => Err(message),
        },
            Err(message) => Err(message),
        },
            Err(message) => Err(message),
        },
            Err(message) => Err(message),
        }
        } else {
            Err(invalid_text("( T0 , T1 , T2 , T3 , T4 , )"@, "a list of 5 values"@))
        },
        _ => Err(invalid_text("( T0 , T1 , T2 , T3 , T4 , )"@, "a list of 5 values"@)),
    }
}

/// The tuple of 5 that the text `text` sets, or the message that says why it sets none.
pub open spec fn tuple5_set<T0: Node, T1: Node, T2: Node, T3: Node, T4: Node>(text: Seq<char>) -> Result<(T0::Model, T1::Model, T2::Model, T3::Model, T4::Model, ), Seq<char>> {
    match json_parsed(text) {
        Ok(value) => match tuple5_decoded::<T0, T1, T2, T3, T4>(value) {
            Ok(node) => Ok(node),
            Err(message) => Err("( T0 , T1 , T2 , T3 , T4 , )"@ + " set error: "@ + message),
        },
        Err(message) => Err("( T0 , T1 , T2 , T3 , T4 , )"@ + " set error: "@ + message),
    }
}

/// What a tuple of 5 makes of a command: `[i]` hands the command to the
/// field at `i`, `[*]` to every field in order; `get` writes the tuple as
/// JSON and `set` reads it from JSON.
pub open spec fn tuple5_outcome<T0: Node, T1: Node, T2: Node, T3: Node, T4: Node>(
    node: (T0::Model, T1::Model, T2::Model, T3::Model, T4::Model, ),
    tokens: Seq<Token>,
    clipboard: ClipboardModel,
) -> Outcome<(T0::Model, T1::Model, T2::Model, T3::Model, T4::Model, )> {
    let rest = tokens.drop_last();
    let unchanged = |text: Seq<char>| Outcome { text, node, clipboard };
    match tokens.last() {
        Token::ChainIndex(index) => if index == 0 {
            let one = T0::outcome(node.0, rest, clipboard);
            Outcome { text: one.text, node: (one.node, node.1, node.2, node.3, node.4, ), clipboard: one.clipboard }
        } else {
            if index == 1 {
            let one = T1::outcome(node.1, rest, clipboard);
            Outcome { text: one.text, node: (node.0, one.node, node.2, node.3, node.4, ), clipboard: one.clipboard }
        } else {
            if index == 2 {
            let one = T2::outcome(node.2, rest, clipboard);
            Outcome { text: one.text, node: (node.0, node.1, one.node, node.3, node.4, ), clipboard: one.clipboard }
        } else {
            if index == 3 {
            let one = T3::outcome(node.3, rest, clipboard);
            Outcome { text: one.text, node: (node.0, node.1, node.2, one.node, node.4, ), clipboard: one.clipboard }
        } else {
            if index == 4 {
            let one = T4::outcome(node.4, rest, clipboard);
            Outcome { text: one.text, node: (node.0, node.1, node.2, node.3, one.node, ), clipboard: one.clipboard }
        } else {
            unchanged("Used index "@ + decimal_text(index as int) + " on a "@ + "( T0 , T1 , T2 , T3 , T4 , )"@)
        }
        }
        }
        }
        },
        Token::ChainAll => {
            let step0 = T0::outcome(node.0, rest, clipboard);
            let step1 = T1::outcome(node.1, rest, step0.clipboard);
            let step2 = T2::outcome(node.2, rest, step1.clipboard);
            let step3 = T3::outcome(node.3, rest, step2.clipboard);
            let step4 = T4::outcome(node.4, rest, step3.clipboard);
            Outcome {
                text: "|"@ + step0.text + "|"@ + step1.text + "|"@ + step2.text + "|"@ + step3.text + "|"@ + step4.text + "|"@,
                node: (step0.node, step1.node, step2.node, step3.node, step4.node, ),
                clipboard: step4.clipboard,
            }
        },
        Token::Get => unchanged(json_pretty_text(tuple5_json::<T0, T1, T2, T3, T4>(node))),
        Token::SetValue(value) => match tuple5_set::<T0, T1, T2, T3, T4>(value) {
            Ok(node) => Outcome { text: Seq::empty(), node, clipboard },
            Err(message) => unchanged(message),
        },
        Token::Help => unchanged(tuple_help()),
        token => unchanged(cannot_text("( T0 , T1 , T2 , T3 , T4 , )"@, token)),
    }
}

impl<T0: Node, T1: Node, T2: Node, T3: Node, T4: Node> Node for (T0, T1, T2, T3, T4, ) {
    type Model = (T0::Model, T1::Model, T2::Model, T3::Model, T4::Model, );

    open spec fn model(&self) -> (T0::Model, T1::Model, T2::Model, T3::Model, T4::Model, ) {
        (self.0.model(), self.1.model(), self.2.model(), self.3.model(), self.4.model(), )
    }

    open spec fn outcome(node: (T0::Model, T1::Model, T2::Model, T3::Model, T4::Model, ), tokens: Seq<Token>, clipboard: ClipboardModel) -> Outcome<
        (T0::Model, T1::Model, T2::Model, T3::Model, T4::Model, ),
    > {
        tuple5_outcome::<T0, T1, T2, T3, T4>(node, tokens, clipboard)
    }

    open spec fn json(node: (T0::Model, T1::Model, T2::Model, T3::Model, T4::Model, )) -> JsonModel {
        tuple5_json::<T0, T1, T2, T3, T4>(node)
    }

    open spec fn decoded(value: JsonModel) -> Result<(T0::Model, T1::Model, T2::Model, T3::Model, T4::Model, ), Seq<char>> {
        tuple5_decoded::<T0, T1, T2, T3, T4>(value)
    }

    open spec fn default_model() -> (T0::Model, T1::Model, T2::Model, T3::Model, T4::Model, ) {
        (T0::default_model(), T1::default_model(), T2::default_model(), T3::default_model(), T4::default_model(), )
    }

    fn node_step_with(&mut self, runner: NodeRunner, clipboard: &mut Clipboard) -> (text: String) {
        let mut runner = runner;
        let ghost tokens = runner@;
        let token = runner.step();
        proof {
            if token@.is_chain() {
                lemma_rest_well_formed(tokens);
            }
            assert(Self::outcome(old(self).model(), tokens, old(clipboard)@) == tuple5_outcome::<
                T0, T1, T2, T3, T4,
            >(old(self).model(), tokens, old(clipboard)@));
        }
        match token {
            NodeToken::ChainIndex(index) => {
                match index {
                    0 => self.0.node_step_with(runner, clipboard),
                    1 => self.1.node_step_with(runner, clipboard),
                    2 => self.2.node_step_with(runner, clipboard),
                    3 => self.3.node_step_with(runner, clipboard),
                    4 => self.4.node_step_with(runner, clipboard),
                    _ => {
                        let mut text = String::from_str("Used index ");
                        text.append(format_integer(index as i128).as_str());
                        text.append(" on a ");
                        text.append("( T0 , T1 , T2 , T3 , T4 , )");
                        text
                    },
                }
            },
            NodeToken::ChainAll => {
                let mut combined = String::from_str("|");
                combined.append(self.0.node_step_with(runner.duplicate(), clipboard).as_str());
                combined.append("|");
                combined.append(self.1.node_step_with(runner.duplicate(), clipboard).as_str());
                combined.append("|");
                combined.append(self.2.node_step_with(runner.duplicate(), clipboard).as_str());
                combined.append("|");
                combined.append(self.3.node_step_with(runner.duplicate(), clipboard).as_str());
                combined.append("|");
                combined.append(self.4.node_step_with(runner.duplicate(), clipboard).as_str());
                combined.append("|");
                combined
            },
            NodeToken::Get => {
                let value = self.to_json();
                json_pretty(&value)
            },
            NodeToken::SetValue(value) => {
                match json_parse(value.as_str()) {
                    Ok(json) => match Self::from_json(&json) {
                        Ok(node) => {
                            *self = node;
                            String::new()
                        },
                        Err(message) => set_error("( T0 , T1 , T2 , T3 , T4 , )", message.as_str()),
                    },
                    Err(message) => set_error("( T0 , T1 , T2 , T3 , T4 , )", message.as_str()),
                }
            },
            NodeToken::Help => String::from_str(
                "\nTuple Help\n\nCommands:\n*   help - display this help\n*   get  - display JSON\n*   set  - set to JSON\n\nAccessors:\n*   [index] - access item at index",
            ),
            action => cannot("( T0 , T1 , T2 , T3 , T4 , )", &action),
        }
    }

    fn to_json(&self) -> (value: serde_json::Value) {
        proof {
            assert(Self::json(self.model()) == tuple5_json::<T0, T1, T2, T3, T4>(self.model()));
        }
        let mut values: Vec<serde_json::Value> = Vec::new();
        values.push(self.0.to_json());
        values.push(self.1.to_json());
        values.push(self.2.to_json());
        values.push(self.3.to_json());
        values.push(self.4.to_json());
        assert(json_views(values@) =~= seq![T0::json(self.0.model()), T1::json(self.1.model()), T2::json(self.2.model()), T3::json(self.3.model()), T4::json(self.4.model())]);
        json_from_list(values)
    }

    fn from_json(value: &serde_json::Value) -> (result: Result<(T0, T1, T2, T3, T4, ), String>) {
        proof {
            assert(Self::decoded(json_view(*value)) == tuple5_decoded::<T0, T1, T2, T3, T4>(
                json_view(*value),
            ));
        }
        let values = match json_as_list(value) {
            Some(values) => values,
            None => {
                return Err(invalid("( T0 , T1 , T2 , T3 , T4 , )", "a list of 5 values"));
            },
        };
        if values.len() != 5 {
            return Err(invalid("( T0 , T1 , T2 , T3 , T4 , )", "a list of 5 values"));
        }
        proof {
            assert(forall|i: int| 0 <= i < 5 ==> json_views(values@)[i] == json_view(values@[i]));
        }
        let field0 = match T0::from_json(&values[0]) {
            Ok(field) => field,
            Err(message) => {
                return Err(message);
            },
        };
        let field1 = match T1::from_json(&values[1]) {
            Ok(field) => field,
            Err(message) => {
                return Err(message);
            },
        };
        let field2 = match T2::from_json(&values[2]) {
            Ok(field) => field,
            Err(message) => {
                return Err(message);
            },
        };
        let field3 = match T3::from_json(&values[3]) {
            Ok(field) => field,
            Err(message) => {
                return Err(message);
            },
        };
        let field4 = match T4::from_json(&values[4]) {
            Ok(field) => field,
            Err(message) => {
                return Err(message);
            },
        };
        Ok((field0, field1, field2, field3, field4, ))
    }

    fn default_node() -> (node: (T0, T1, T2, T3, T4, )) {
        (T0::default_node(), T1::default_node(), T2::default_node(), T3::default_node(), T4::default_node(), )
    }
}

/// The laws of a tuple of 5, where they hold of its fields: reading changes
/// nothing, and a `set` that fails changes nothing.
pub proof fn lemma_tuple5_laws<T0: Node, T1: Node, T2: Node, T3: Node, T4: Node>()
    requires
        unchanged_by_reading::<T0>(),
        unchanged_by_reading::<T1>(),
        unchanged_by_reading::<T2>(),
        unchanged_by_reading::<T3>(),
        unchanged_by_reading::<T4>(),
    ensures
        unchanged_by_reading::<(T0, T1, T2, T3, T4, )>(),
        set_fails_without_change::<(T0, T1, T2, T3, T4, )>(),
{
    assert forall|node: (T0::Model, T1::Model, T2::Model, T3::Model, T4::Model, ), tokens: Seq<Token>, clipboard: ClipboardModel|
        reads(tokens) implies (#[trigger] <(T0, T1, T2, T3, T4, )>::outcome(node, tokens, clipboard)).node == node
        && <(T0, T1, T2, T3, T4, )>::outcome(node, tokens, clipboard).clipboard == clipboard by {
        if tokens.last().is_chain() {
            lemma_rest_reads(tokens);
        }
    }
    assert forall|node: (T0::Model, T1::Model, T2::Model, T3::Model, T4::Model, ), value: Seq<char>, clipboard: ClipboardModel|
        (#[trigger] <(T0, T1, T2, T3, T4, )>::outcome(node, seq![Token::SetValue(value)], clipboard)).text.len()
            > 0 implies <(T0, T1, T2, T3, T4, )>::outcome(node, seq![Token::SetValue(value)], clipboard).node
        == node by {
        assert(seq![Token::SetValue(value)].last() == Token::SetValue(value));
    }
}

/// A tuple of 5 is read back from the JSON list that is written for it, where
/// its fields are read back from their values.
pub proof fn lemma_tuple5_round_trips<T0: Node, T1: Node, T2: Node, T3: Node, T4: Node>(node: (T0::Model, T1::Model, T2::Model, T3::Model, T4::Model, ))
    requires
        round_trips::<T0>(node.0),
        round_trips::<T1>(node.1),
        round_trips::<T2>(node.2),
        round_trips::<T3>(node.3),
        round_trips::<T4>(node.4),
    ensures
        round_trips::<(T0, T1, T2, T3, T4, )>(node),
{
}

/// The JSON list that stands for a tuple of 6: the value of each field, in order.
pub open spec fn tuple6_json<T0: Node, T1: Node, T2: Node, T3: Node, T4: Node, T5: Node>(node: (T0::Model, T1::Model, T2::Model, T3::Model, T4::Model, T5::Model, )) -> JsonModel {
    JsonModel::List(seq![T0::json(node.0), T1::json(node.1), T2::json(node.2), T3::json(node.3), T4::json(node.4), T5::json(node.5)])
}

/// The tuple of 6 that a JSON value stands for: a list of 6 values, each of
/// which stands for the field at its place.
pub open spec fn tuple6_decoded<T0: Node, T1: Node, T2: Node, T3: Node, T4: Node, T5: Node>(value: JsonModel) -> Result<(T0::Model, T1::Model, T2::Model, T3::Model, T4::Model, T5::Model, ), Seq<char>> {
    match value {
        JsonModel::List(values) => if values.len() == 6 {
            match T0::decoded(values[0]) {
            Ok(field0) => match T1::decoded(values[1]) {
            Ok(field1) => match T2::decoded(values[2]) {
            Ok(field2) => match T3::decoded(values[3]) {
            Ok(field3) => match T4::decoded(values[4]) {
            Ok(field4) => match T5::decoded(values[5]) {
            Ok(field5) => Ok((field0, field1, field2, field3, field4, field5, )),
            Err(message) => Err(message),
        },
            Err(message) => Err(message),
        },
            Err(message) => Err(message),
        },
            Err(message) => Err(message),
        },
            Err(message) => Err(message),
        },
            Err(message) => Err(message),
        }
        } else {
            Err(invalid_text("( T0 , T1 , T2 , T3 , T4 , T5 , )"@, "a list of 6 values"@))
        },
        _ => Err(invalid_text("( T0 , T1 , T2 , T3 , T4 , T5 , )"@, "a list of 6 values"@)),
    }
}

/// The tuple of 6 that the text `text` sets, or the message that says why it sets none.
pub open spec fn tuple6_set<T0: Node, T1: Node, T2: Node, T3: Node, T4: Node, T5: Node>(text: Seq<char>) -> Result<(T0::Model, T1::Model, T2::Model, T3::Model, T4::Model, T5::Model, ), Seq<char>> {
    match json_parsed(text) {
        Ok(value) => match tuple6_decoded::<T0, T1, T2, T3, T4, T5>(value) {
            Ok(node) => Ok(node),
            Err(message) => Err("( T0 , T1 , T2 , T3 , T4 , T5 , )"@ + " set error: "@ + message),
        },
        Err(message) => Err("( T0 , T1 , T2 , T3 , T4 , T5 , )"@ + " set error: "@ + message),
    }
}

/// What a tuple of 6 makes of a command: `[i]` hands the command to the
/// field at `i`, `[*]` to every field in order; `get` writes the tuple as
/// JSON and `set` reads it from JSON.
pub open spec fn tuple6_outcome<T0: Node, T1: Node, T2: Node, T3: Node, T4: Node, T5: Node>(
    node: (T0::Model, T1::Model, T2::Model, T3::Model, T4::Model, T5::Model, ),
    tokens: Seq<Token>,
    clipboard: ClipboardModel,
) -> Outcome<(T0::Model, T1::Model, T2::Model, T3::Model, T4::Model, T5::Model, )> {
    let rest = tokens.drop_last();
    let unchanged = |text: Seq<char>| Outcome { text, node, clipboard };
    match tokens.last() {
        Token::ChainIndex(index) => if index == 0 {
            let one = T0::outcome(node.0, rest, clipboard);
            Outcome { text: one.text, node: (one.node, node.1, node.2, node.3, node.4, node.5, ), clipboard: one.clipboard }
        } else {
            if index == 1 {
            let one = T1::outcome(node.1, rest, clipboard);
            Outcome { text: one.text, node: (node.0, one.node, node.2, node.3, node.4, node.5, ), clipboard: one.clipboard }
        } else {
            if index == 2 {
            let one = T2::outcome(node.2, rest, clipboard);
            Outcome { text: one.text, node: (node.0, node.1, one.node, node.3, node.4, node.5, ), clipboard: one.clipboard }
        } else {
            if index == 3 {
            let one = T3::outcome(node.3, rest, clipboard);
            Outcome { text: one.text, node: (node.0, node.1, node.2, one.node, node.4, node.5, ), clipboard: one.clipboard }
        } else {
            if index == 4 {
            let one = T4::outcome(node.4, rest, clipboard);
            Outcome { text: one.text, node: (node.0, node.1, node.2, node.3, one.node, node.5, ), clipboard: one.clipboard }
        } else {
            if index == 5 {
            let one = T5::outcome(node.5, rest, clipboard);
            Outcome { text: one.text, node: (node.0, node.1, node.2, node.3, node.4, one.node, ), clipboard: one.clipboard }
        } else {
            unchanged("Used index "@ + decimal_text(index as int) + " on a "@ + "( T0 , T1 , T2 , T3 , T4 , T5 , )"@)
        }
        }
        }
        }
        }
        },
        Token::ChainAll => {
            let step0 = T0::outcome(node.0, rest, clipboard);
            let step1 = T1::outcome(node.1, rest, step0.clipboard);
            let step2 = T2::outcome(node.2, rest, step1.clipboard);
            let step3 = T3::outcome(node.3, rest, step2.clipboard);
            let step4 = T4::outcome(node.4, rest, step3.clipboard);
            let step5 = T5::outcome(node.5, rest, step4.clipboard);
            Outcome {
                text: "|"@ + step0.text + "|"@ + step1.text + "|"@ + step2.text + "|"@ + step3.text + "|"@ + step4.text + "|"@ + step5.text + "|"@,
                node: (step0.node, step1.node, step2.node, step3.node, step4.node, step5.node, ),
                clipboard: step5.clipboard,
            }
        },
        Token::Get => unchanged(json_pretty_text(tuple6_json::<T0, T1, T2, T3, T4, T5>(node))),
        Token::SetValue(value) => match tuple6_set::<T0, T1, T2, T3, T4, T5>(value) {
            Ok(node) => Outcome { text: Seq::empty(), node, clipboard },
            Err(message) => unchanged(message),
        },
        Token::Help => unchanged(tuple_help()),
        token => unchanged(cannot_text("( T0 , T1 , T2 , T3 , T4 , T5 , )"@, token)),
    }
}

impl<T0: Node, T1: Node, T2: Node, T3: Node, T4: Node, T5: Node> Node for (T0, T1, T2, T3, T4, T5, ) {
    type Model = (T0::Model, T1::Model, T2::Model, T3::Model, T4::Model, T5::Model, );

    open spec fn model(&self) -> (T0::Model, T1::Model, T2::Model, T3::Model, T4::Model, T5::Model, ) {
        (self.0.model(), self.1.model(), self.2.model(), self.3.model(), self.4.model(), self.5.model(), )
    }

    open spec fn outcome(node: (T0::Model, T1::Model, T2::Model, T3::Model, T4::Model, T5::Model, ), tokens: Seq<Token>, clipboard: ClipboardModel) -> Outcome<
        (T0::Model, T1::Model, T2::Model, T3::Model, T4::Model, T5::Model, ),
    > {
        tuple6_outcome::<T0, T1, T2, T3, T4, T5>(node, tokens, clipboard)
    }

    open spec fn json(node: (T0::Model, T1::Model, T2::Model, T3::Model, T4::Model, T5::Model, )) -> JsonModel {
        tuple6_json::<T0, T1, T2, T3, T4, T5>(node)
    }

    open spec fn decoded(value: JsonModel) -> Result<(T0::Model, T1::Model, T2::Model, T3::Model, T4::Model, T5::Model, ), Seq<char>> {
        tuple6_decoded::<T0, T1, T2, T3, T4, T5>(value)
    }

    open spec fn default_model() -> (T0::Model, T1::Model, T2::Model, T3::Model, T4::Model, T5::Model, ) {
        (T0::default_model(), T1::default_model(), T2::default_model(), T3::default_model(), T4::default_model(), T5::default_model(), )
    }

    fn node_step_with(&mut self, runner: NodeRunner, clipboard: &mut Clipboard) -> (text: String) {
        let mut runner = runner;
        let ghost tokens = runner@;
        let token = runner.step();
        proof {
            if token@.is_chain() {
                lemma_rest_well_formed(tokens);
            }
            assert(Self::outcome(old(self).model(), tokens, old(clipboard)@) == tuple6_outcome::<
                T0, T1, T2, T3, T4, T5,
            >(old(self).model(), tokens, old(clipboard)@));
        }
        match token {
            NodeToken::ChainIndex(index) => {
                match index {
                    0 => self.0.node_step_with(runner, clipboard),
                    1 => self.1.node_step_with(runner, clipboard),
                    2 => self.2.node_step_with(runner, clipboard),
                    3 => self.3.node_step_with(runner, clipboard),
                    4 => self.4.node_step_with(runner, clipboard),
                    5 => self.5.node_step_with(runner, clipboard),
                    _ => {
                        let mut text = String::from_str("Used index ");
                        text.append(format_integer(index as i128).as_str());
                        text.append(" on a ");
                        text.append("( T0 , T1 , T2 , T3 , T4 , T5 , )");
                        text
                    },
                }
            },
            NodeToken::ChainAll => {
                let mut combined = String::from_str("|");
                combined.append(self.0.node_step_with(runner.duplicate(), clipboard).as_str());
                combined.append("|");
                combined.append(self.1.node_step_with(runner.duplicate(), clipboard).as_str());
                combined.append("|");
                combined.append(self.2.node_step_with(runner.duplicate(), clipboard).as_str());
                combined.append("|");
                combined.append(self.3.node_step_with(runner.duplicate(), clipboard).as_str());
                combined.append("|");
                combined.append(self.4.node_step_with(runner.duplicate(), clipboard).as_str());
                combined.append("|");
                combined.append(self.5.node_step_with(runner.duplicate(), clipboard).as_str());
                combined.append("|");
                combined
            },
            NodeToken::Get => {
                let value = self.to_json();
                json_pretty(&value)
            },
            NodeToken::SetValue(value) => {
                match json_parse(value.as_str()) {
                    Ok(json) => match Self::from_json(&json) {
                        Ok(node) => {
                            *self = node;
                            String::new()
                        },
                        Err(message) => set_error("( T0 , T1 , T2 , T3 , T4 , T5 , )", message.as_str()),
                    },
                    Err(message) => set_error("( T0 , T1 , T2 , T3 , T4 , T5 , )", message.as_str()),
                }
            },
            NodeToken::Help => String::from_str(
                "\nTuple Help\n\nCommands:\n*   help - display this help\n*   get  - display JSON\n*   set  - set to JSON\n\nAccessors:\n*   [index] - access item at index",
            ),
            action => cannot("( T0 , T1 , T2 , T3 , T4 , T5 , )", &action),
        }
    }

    fn to_json(&self) -> (value: serde_json::Value) {
        proof {
            assert(Self::json(self.model()) == tuple6_json::<T0, T1, T2, T3, T4, T5>(self.model()));
        }
        let mut values: Vec<serde_json::Value> = Vec::new();
        values.push(self.0.to_json());
        values.push(self.1.to_json());
        values.push(self.2.to_json());
        values.push(self.3.to_json());
        values.push(self.4.to_json());
        values.push(self.5.to_json());
        assert(json_views(values@) =~= seq![T0::json(self.0.model()), T1::json(self.1.model()), T2::json(self.2.model()), T3::json(self.3.model()), T4::json(self.4.model()), T5::json(self.5.model())]);
        json_from_list(values)
    }

    fn from_json(value: &serde_json::Value) -> (result: Result<(T0, T1, T2, T3, T4, T5, ), String>) {
        proof {
            assert(Self::decoded(json_view(*value)) == tuple6_decoded::<T0, T1, T2, T3, T4, T5>(
                json_view(*value),
            ));
        }
        let values = match json_as_list(value) {
            Some(values) => values,
            None => {
                return Err(invalid("( T0 , T1 , T2 , T3 , T4 , T5 , )", "a list of 6 values"));
            },
        };
        if values.len() != 6 {
            return Err(invalid("( T0 , T1 , T2 , T3 , T4 , T5 , )", "a list of 6 values"));
        }
        proof {
            assert(forall|i: int| 0 <= i < 6 ==> json_views(values@)[i] == json_view(values@[i]));
        }
        let field0 = match T0::from_json(&values[0]) {
            Ok(field) => field,
            Err(message) => {
                return Err(message);
            },
        };
        let field1 = match T1::from_json(&values[1]) {
            Ok(field) => field,
            Err(message) => {
                return Err(message);
            },
        };
        let field2 = match T2::from_json(&values[2]) {
            Ok(field) => field,
            Err(message) => {
                return Err(message);
            },
        };
        let field3 = match T3::from_json(&values[3]) {
            Ok(field) => field,
            Err(message) => {
                return Err(message);
            },
        };
        let field4 = match T4::from_json(&values[4]) {
            Ok(field) => field,
            Err(message) => {
                return Err(message);
            },
        };
        let field5 = match T5::from_json(&values[5]) {
            Ok(field) => field,
            Err(message) => {
                return Err(message);
            },
        };
        Ok((field0, field1, field2, field3, field4, field5, ))
    }

    fn default_node() -> (node: (T0, T1, T2, T3, T4, T5, )) {
        (T0::default_node(), T1::default_node(), T2::default_node(), T3::default_node(), T4::default_node(), T5::default_node(), )
    }
}

/// The laws of a tuple of 6, where they hold of its fields: reading changes
/// nothing, and a `set` that fails changes nothing.
pub proof fn lemma_tuple6_laws<T0: Node, T1: Node, T2: Node, T3: Node, T4: Node, T5: Node>()
    requires
        unchanged_by_reading::<T0>(),
        unchanged_by_reading::<T1>(),
        unchanged_by_reading::<T2>(),
        unchanged_by_reading::<T3>(),
        unchanged_by_reading::<T4>(),
        unchanged_by_reading::<T5>(),
    ensures
        unchanged_by_reading::<(T0, T1, T2, T3, T4, T5, )>(),
        set_fails_without_change::<(T0, T1, T2, T3, T4, T5, )>(),
{
    assert forall|node: (T0::Model, T1::Model, T2::Model, T3::Model, T4::Model, T5::Model, ), tokens: Seq<Token>, clipboard: ClipboardModel|
        reads(tokens) implies (#[trigger] <(T0, T1, T2, T3, T4, T5, )>::outcome(node, tokens, clipboard)).node == node
        && <(T0, T1, T2, T3, T4, T5, )>::outcome(node, tokens, clipboard).clipboard == clipboard by {
        if tokens.last().is_chain() {
            lemma_rest_reads(tokens);
        }
    }
    assert forall|node: (T0::Model, T1::Model, T2::Model, T3::Model, T4::Model, T5::Model, ), value: Seq<char>, clipboard: ClipboardModel|
        (#[trigger] <(T0, T1, T2, T3, T4, T5, )>::outcome(node, seq![Token::SetValue(value)], clipboard)).text.len()
            > 0 implies <(T0, T1, T2, T3, T4, T5, )>::outcome(node, seq![Token::SetValue(value)], clipboard).node
        == node by {
        assert(seq![Token::SetValue(value)].last() == Token::SetValue(value));
    }
}

/// A tuple of 6 is read back from the JSON list that is written for it, where
/// its fields are read back from their values.
pub proof fn lemma_tuple6_round_trips<T0: Node, T1: Node, T2: Node, T3: Node, T4: Node, T5: Node>(node: (T0::Model, T1::Model, T2::Model, T3::Model, T4::Model, T5::Model, ))
    requires
        round_trips::<T0>(node.0),
        round_trips::<T1>(node.1),
        round_trips::<T2>(node.2),
        round_trips::<T3>(node.3),
        round_trips::<T4>(node.4),
        round_trips::<T5>(node.5),
    ensures
        round_trips::<(T0, T1, T2, T3, T4, T5, )>(node),
{
}

/// The JSON list that stands for a tuple of 7: the value of each field, in order.
pub open spec fn tuple7_json<T0: Node, T1: Node, T2: Node, T3: Node, T4: Node, T5: Node, T6: Node>(node: (T0::Model, T1::Model, T2::Model, T3::Model, T4::Model, T5::Model, T6::Model, )) -> JsonModel {
    JsonModel::List(seq![T0::json(node.0), T1::json(node.1), T2::json(node.2), T3::json(node.3), T4::json(node.4), T5::json(node.5), T6::json(node.6)])
}

/// The tuple of 7 that a JSON value stands for: a list of 7 values, each of
/// which stands for the field at its place.
pub open spec fn tuple7_decoded<T0: Node, T1: Node, T2: Node, T3: Node, T4: Node, T5: Node, T6: Node>(value: JsonModel) -> Result<(T0::Model, T1::Model, T2::Model, T3::Model, T4::Model, T5::Model, T6::Model, ), Seq<char>> {
    match value {
        JsonModel::List(values) => if values.len() == 7 {
            match T0::decoded(values[0]) {
            Ok(field0) => match T1::decoded(values[1]) {
            Ok(field1) => match T2::decoded(values[2]) {
            Ok(field2) => match T3::decoded(values[3]) {
            Ok(field3) => match T4::decoded(values[4]) {
            Ok(field4) => match T5::decoded(values[5]) {
            Ok(field5) => match T6::decoded(values[6]) {
            Ok(field6) => Ok((field0, field1, field2, field3, field4, field5, field6, )),
            Err(message) => Err(message),
        },
            Err(message) => Err(message),
        },
            Err(message) => Err(message),
        },
            Err(message) => Err(message),
        },
            Err(message) => Err(message),
        },
            Err(message) => Err(message),
        },
            Err(message) => Err(message),
        }
        } else {
            Err(invalid_text("( T0 , T1 , T2 , T3 , T4 , T5 , T6 , )"@, "a list of 7 values"@))
        },
        _ => Err(invalid_text("( T0 , T1 , T2 , T3 , T4 , T5 , T6 , )"@, "a list of 7 values"@)),
    }
}

/// The tuple of 7 that the text `text` sets, or the message that says why it sets none.
pub open spec fn tuple7_set<T0: Node, T1: Node, T2: Node, T3: Node, T4: Node, T5: Node, T6: Node>(text: Seq<char>) -> Result<(T0::Model, T1::Model, T2::Model, T3::Model, T4::Model, T5::Model, T6::Model, ), Seq<char>> {
    match json_parsed(text) {
        Ok(value) => match tuple7_decoded::<T0, T1, T2, T3, T4, T5, T6>(value) {
            Ok(node) => Ok(node),
            Err(message) => Err("( T0 , T1 , T2 , T3 , T4 , T5 , T6 , )"@ + " set error: "@ + message),
        },
        Err(message) => Err("( T0 , T1 , T2 , T3 , T4 , T5 , T6 , )"@ + " set error: "@ + message),
    }
}

/// What a tuple of 7 makes of a command: `[i]` hands the command to the
/// field at `i`, `[*]` to every field in order; `get` writes the tuple as
/// JSON and `set` reads it from JSON.
pub open spec fn tuple7_outcome<T0: Node, T1: Node, T2: Node, T3: Node, T4: Node, T5: Node, T6: Node>(
    node: (T0::Model, T1::Model, T2::Model, T3::Model, T4::Model, T5::Model, T6::Model, ),
    tokens: Seq<Token>,
    clipboard: ClipboardModel,
) -> Outcome<(T0::Model, T1::Model, T2::Model, T3::Model, T4::Model, T5::Model, T6::Model, )> {
    let rest = tokens.drop_last();
    let unchanged = |text: Seq<char>| Outcome { text, node, clipboard };
    match tokens.last() {
        Token::ChainIndex(index) => if index == 0 {
            let one = T0::outcome(node.0, rest, clipboard);
            Outcome { text: one.text, node: (one.node, node.1, node.2, node.3, node.4, node.5, node.6, ), clipboard: one.clipboard }
        } else {
            if index == 1 {
            let one = T1::outcome(node.1, rest, clipboard);
            Outcome { text: one.text, node: (node.0, one.node, node.2, node.3, node.4, node.5, node.6, ), clipboard: one.clipboard }
        } else {
            if index == 2 {
            let one = T2::outcome(node.2, rest, clipboard);
            Outcome { text: one.text, node: (node.0, node.1, one.node, node.3, node.4, node.5, node.6, ), clipboard: one.clipboard }
        } else {
            if index == 3 {
            let one = T3::outcome(node.3, rest, clipboard);
            Outcome { text: one.text, node: (node.0, node.1, node.2, one.node, node.4, node.5, node.6, ), clipboard: one.clipboard }
        } else {
            if index == 4 {
            let one = T4::outcome(node.4, rest, clipboard);
            Outcome { text: one.text, node: (node.0, node.1, node.2, node.3, one.node, node.5, node.6, ), clipboard: one.clipboard }
        } else {
            if index == 5 {
            let one = T5::outcome(node.5, rest, clipboard);
            Outcome { text: one.text, node: (node.0, node.1, node.2, node.3, node.4, one.node, node.6, ), clipboard: one.clipboard }
        } else {
            if index == 6 {
            let one = T6::outcome(node.6, rest, clipboard);
            Outcome { text: one.text, node: (node.0, node.1, node.2, node.3, node.4, node.5, one.node, ), clipboard: one.clipboard }
        } else {
            unchanged("Used index "@ + decimal_text(index as int) + " on a "@ + "( T0 , T1 , T2 , T3 , T4 , T5 , T6 , )"@)
        }
        }
        }
        }
        }
        }
        },
        Token::ChainAll => {
            let step0 = T0::outcome(node.0, rest, clipboard);
            let step1 = T1::outcome(node.1, rest, step0.clipboard);
            let step2 = T2::outcome(node.2, rest, step1.clipboard);
            let step3 = T3::outcome(node.3, rest, step2.clipboard);
            let step4 = T4::outcome(node.4, rest, step3.clipboard);
            let step5 = T5::outcome(node.5, rest, step4.clipboard);
            let step6 = T6::outcome(node.6, rest, step5.clipboard);
            Outcome {
                text: "|"@ + step0.text + "|"@ + step1.text + "|"@ + step2.text + "|"@ + step3.text + "|"@ + step4.text + "|"@ + step5.text + "|"@ + step6.text + "|"@,
                node: (step0.node, step1.node, step2.node, step3.node, step4.node, step5.node, step6.node, ),
                clipboard: step6.clipboard,
            }
        },
        Token::Get => unchanged(json_pretty_text(tuple7_json::<T0, T1, T2, T3, T4, T5, T6>(node))),
        Token::SetValue(value) => match tuple7_set::<T0, T1, T2, T3, T4, T5, T6>(value) {
            Ok(node) => Outcome { text: Seq::empty(), node, clipboard },
            Err(message) => unchanged(message),
        },
        Token::Help => unchanged(tuple_help()),
        token => unchanged(cannot_text("( T0 , T1 , T2 , T3 , T4 , T5 , T6 , )"@, token)),
    }
}

impl<T0: Node, T1: Node, T2: Node, T3: Node, T4: Node, T5: Node, T6: Node> Node for (T0, T1, T2, T3, T4, T5, T6, ) {
    type Model = (T0::Model, T1::Model, T2::Model, T3::Model, T4::Model, T5::Model, T6::Model, );

    open spec fn model(&self) -> (T0::Model, T1::Model, T2::Model, T3::Model, T4::Model, T5::Model, T6::Model, ) {
        (self.0.model(), self.1.model(), self.2.model(), self.3.model(), self.4.model(), self.5.model(), self.6.model(), )
    }

    open spec fn outcome(node: (T0::Model, T1::Model, T2::Model, T3::Model, T4::Model, T5::Model, T6::Model, ), tokens: Seq<Token>, clipboard: ClipboardModel) -> Outcome<
        (T0::Model, T1::Model, T2::Model, T3::Model, T4::Model, T5::Model, T6::Model, ),
    > {
        tuple7_outcome::<T0, T1, T2, T3, T4, T5, T6>(node, tokens, clipboard)
    }

    open spec fn json(node: (T0::Model, T1::Model, T2::Model, T3::Model, T4::Model, T5::Model, T6::Model, )) -> JsonModel {
        tuple7_json::<T0, T1, T2, T3, T4, T5, T6>(node)
    }

    open spec fn decoded(value: JsonModel) -> Result<(T0::Model, T1::Model, T2::Model, T3::Model, T4::Model, T5::Model, T6::Model, ), Seq<char>> {
        tuple7_decoded::<T0, T1, T2, T3, T4, T5, T6>(value)
    }

    open spec fn default_model() -> (T0::Model, T1::Model, T2::Model, T3::Model, T4::Model, T5::Model, T6::Model, ) {
        (T0::default_model(), T1::default_model(), T2::default_model(), T3::default_model(), T4::default_model(), T5::default_model(), T6::default_model(), )
    }

    fn node_step_with(&mut self, runner: NodeRunner, clipboard: &mut Clipboard) -> (text: String) {
        let mut runner = runner;
        let ghost tokens = runner@;
        let token = runner.step();
        proof {
            if token@.is_chain() {
                lemma_rest_well_formed(tokens);
            }
            assert(Self::outcome(old(self).model(), tokens, old(clipboard)@) == tuple7_outcome::<
                T0, T1, T2, T3, T4, T5, T6,
            >(old(self).model(), tokens, old(clipboard)@));
        }
        match token {
            NodeToken::ChainIndex(index) => {
                match index {
                    0 => self.0.node_step_with(runner, clipboard),
                    1 => self.1.node_step_with(runner, clipboard),
                    2 => self.2.node_step_with(runner, clipboard),
                    3 => self.3.node_step_with(runner, clipboard),
                    4 => self.4.node_step_with(runner, clipboard),
                    5 => self.5.node_step_with(runner, clipboard),
                    6 => self.6.node_step_with(runner, clipboard),
                    _ => {
                        let mut text = String::from_str("Used index ");
                        text.append(format_integer(index as i128).as_str());
                        text.append(" on a ");
                        text.append("( T0 , T1 , T2 , T3 , T4 , T5 , T6 , )");
                        text
                    },
                }
            },
            NodeToken::ChainAll => {
                let mut combined = String::from_str("|");
                combined.append(self.0.node_step_with(runner.duplicate(), clipboard).as_str());
                combined.append("|");
                combined.append(self.1.node_step_with(runner.duplicate(), clipboard).as_str());
                combined.append("|");
                combined.append(self.2.node_step_with(runner.duplicate(), clipboard).as_str());
                combined.append("|");
                combined.append(self.3.node_step_with(runner.duplicate(), clipboard).as_str());
                combined.append("|");
                combined.append(self.4.node_step_with(runner.duplicate(), clipboard).as_str());
                combined.append("|");
                combined.append(self.5.node_step_with(runner.duplicate(), clipboard).as_str());
                combined.append("|");
                combined.append(self.6.node_step_with(runner.duplicate(), clipboard).as_str());
                combined.append("|");
                combined
            },
            NodeToken::Get => {
                let value = self.to_json();
                json_pretty(&value)
            },
            NodeToken::SetValue(value) => {
                match json_parse(value.as_str()) {
                    Ok(json) => match Self::from_json(&json) {
                        Ok(node) => {
                            *self = node;
                            String::new()
                        },
                        Err(message) => set_error("( T0 , T1 , T2 , T3 , T4 , T5 , T6 , )", message.as_str()),
                    },
                    Err(message) => set_error("( T0 , T1 , T2 , T3 , T4 , T5 , T6 , )", message.as_str()),
                }
            },
            NodeToken::Help => String::from_str(
                "\nTuple Help\n\nCommands:\n*   help - display this help\n*   get  - display JSON\n*   set  - set to JSON\n\nAccessors:\n*   [index] - access item at index",
            ),
            action => cannot("( T0 , T1 , T2 , T3 , T4 , T5 , T6 , )", &action),
        }
    }

    fn to_json(&self) -> (value: serde_json::Value) {
        proof {
            assert(Self::json(self.model()) == tuple7_json::<T0, T1, T2, T3, T4, T5, T6>(self.model()));
        }
        let mut values: Vec<serde_json::Value> = Vec::new();
        values.push(self.0.to_json());
        values.push(self.1.to_json());
        values.push(self.2.to_json());
        values.push(self.3.to_json());
        values.push(self.4.to_json());
        values.push(self.5.to_json());
        values.push(self.6.to_json());
        assert(json_views(values@) =~= seq![T0::json(self.0.model()), T1::json(self.1.model()), T2::json(self.2.model()), T3::json(self.3.model()), T4::json(self.4.model()), T5::json(self.5.model()), T6::json(self.6.model())]);
        json_from_list(values)
    }

    fn from_json(value: &serde_json::Value) -> (result: Result<(T0, T1, T2, T3, T4, T5, T6, ), String>) {
        proof {
            assert(Self::decoded(json_view(*value)) == tuple7_decoded::<T0, T1, T2, T3, T4, T5, T6>(
                json_view(*value),
            ));
        }
        let values = match json_as_list(value) {
            Some(values) => values,
            None => {
                return Err(invalid("( T0 , T1 , T2 , T3 , T4 , T5 , T6 , )", "a list of 7 values"));
            },
        };
        if values.len() != 7 {
            return Err(invalid("( T0 , T1 , T2 , T3 , T4 , T5 , T6 , )", "a list of 7 values"));
        }
        proof {
            assert(forall|i: int| 0 <= i < 7 ==> json_views(values@)[i] == json_view(values@[i]));
        }
        let field0 = match T0::from_json(&values[0]) {
            Ok(field) => field,
            Err(message) => {
                return Err(message);
            },
        };
        let field1 = match T1::from_json(&values[1]) {
            Ok(field) => field,
            Err(message) => {
                return Err(message);
            },
        };
        let field2 = match T2::from_json(&values[2]) {
            Ok(field) => field,
            Err(message) => {
                return Err(message);
            },
        };
        let field3 = match T3::from_json(&values[3]) {
            Ok(field) => field,
            Err(message) => {
                return Err(message);
            },
        };
        let field4 = match T4::from_json(&values[4]) {
            Ok(field) => field,
            Err(message) => {
                return Err(message);
            },
        };
        let field5 = match T5::from_json(&values[5]) {
            Ok(field) => field,
            Err(message) => {
                return Err(message);
            },
        };
        let field6 = match T6::from_json(&values[6]) {
            Ok(field) => field,
            Err(message) => {
                return Err(message);
            },
        };
        Ok((field0, field1, field2, field3, field4, field5, field6, ))
    }

    fn default_node() -> (node: (T0, T1, T2, T3, T4, T5, T6, )) {
        (T0::default_node(), T1::default_node(), T2::default_node(), T3::default_node(), T4::default_node(), T5::default_node(), T6::default_node(), )
    }
}

/// The laws of a tuple of 7, where they hold of its fields: reading changes
/// nothing, and a `set` that fails changes nothing.
pub proof fn lemma_tuple7_laws<T0: Node, T1: Node, T2: Node, T3: Node, T4: Node, T5: Node, T6: Node>()
    requires
        unchanged_by_reading::<T0>(),
        unchanged_by_reading::<T1>(),
        unchanged_by_reading::<T2>(),
        unchanged_by_reading::<T3>(),
        unchanged_by_reading::<T4>(),
        unchanged_by_reading::<T5>(),
        unchanged_by_reading::<T6>(),
    ensures
        unchanged_by_reading::<(T0, T1, T2, T3, T4, T5, T6, )>(),
        set_fails_without_change::<(T0, T1, T2, T3, T4, T5, T6, )>(),
{
    assert forall|node: (T0::Model, T1::Model, T2::Model, T3::Model, T4::Model, T5::Model, T6::Model, ), tokens: Seq<Token>, clipboard: ClipboardModel|
        reads(tokens) implies (#[trigger] <(T0, T1, T2, T3, T4, T5, T6, )>::outcome(node, tokens, clipboard)).node == node
        && <(T0, T1, T2, T3, T4, T5, T6, )>::outcome(node, tokens, clipboard).clipboard == clipboard by {
        if tokens.last().is_chain() {
            lemma_rest_reads(tokens);
        }
    }
    assert forall|node: (T0::Model, T1::Model, T2::Model, T3::Model, T4::Model, T5::Model, T6::Model, ), value: Seq<char>, clipboard: ClipboardModel|
        (#[trigger] <(T0, T1, T2, T3, T4, T5, T6, )>::outcome(node, seq![Token::SetValue(value)], clipboard)).text.len()
            > 0 implies <(T0, T1, T2, T3, T4, T5, T6, )>::outcome(node, seq![Token::SetValue(value)], clipboard).node
        == node by {
        assert(seq![Token::SetValue(value)].last() == Token::SetValue(value));
    }
}

/// A tuple of 7 is read back from the JSON list that is written for it, where
/// its fields are read back from their values.
pub proof fn lemma_tuple7_round_trips<T0: Node, T1: Node, T2: Node, T3: Node, T4: Node, T5: Node, T6: Node>(node: (T0::Model, T1::Model, T2::Model, T3::Model, T4::Model, T5::Model, T6::Model, ))
    requires
        round_trips::<T0>(node.0),
        round_trips::<T1>(node.1),
        round_trips::<T2>(node.2),
        round_trips::<T3>(node.3),
        round_trips::<T4>(node.4),
        round_trips::<T5>(node.5),
        round_trips::<T6>(node.6),
    ensures
        round_trips::<(T0, T1, T2, T3, T4, T5, T6, )>(node),
{
}

/// The JSON list that stands for a tuple of 8: the value of each field, in order.
pub open spec fn tuple8_json<T0: Node, T1: Node, T2: Node, T3: Node, T4: Node, T5: Node, T6: Node, T7: Node>(node: (T0::Model, T1::Model, T2::Model, T3::Model, T4::Model, T5::Model, T6::Model, T7::Model, )) -> JsonModel {
    JsonModel::List(seq![T0::json(node.0), T1::json(node.1), T2::json(node.2), T3::json(node.3), T4::json(node.4), T5::json(node.5), T6::json(node.6), T7::json(node.7)])
}

/// The tuple of 8 that a JSON value stands for: a list of 8 values, each of
/// which stands for the field at its place.
pub open spec fn tuple8_decoded<T0: Node, T1: Node, T2: Node, T3: Node, T4: Node, T5: Node, T6: Node, T7: Node>(value: JsonModel) -> Result<(T0::Model, T1::Model, T2::Model, T3::Model, T4::Model, T5::Model, T6::Model, T7::Model, ), Seq<char>> {
    match value {
        JsonModel::List(values) => if values.len() == 8 {
            match T0::decoded(values[0]) {
            Ok(field0) => match T1::decoded(values[1]) {
            Ok(field1) => match T2::decoded(values[2]) {
            Ok(field2) => match T3::decoded(values[3]) {
            Ok(field3) => match T4::decoded(values[4]) {
            Ok(field4) => match T5::decoded(values[5]) {
            Ok(field5) => match T6::decoded(values[6]) {
            Ok(field6) => match T7::decoded(values[7]) {
            Ok(field7) => Ok((field0, field1, field2, field3, field4, field5, field6, field7, )),
            Err(message) => Err(message),
        },
            Err(message) => Err(message),
        },
            Err(message) => Err(message),
        },
            Err(message) => Err(message),
        },
            Err(message) => Err(message),
        },
            Err(message) => Err(message),
        },
            Err(message) => Err(message),
        },
            Err(message) => Err(message),
        }
        } else {
            Err(invalid_text("( T0 , T1 , T2 , T3 , T4 , T5 , T6 , T7 , )"@, "a list of 8 values"@))
        },
        _ => Err(invalid_text("( T0 , T1 , T2 , T3 , T4 , T5 , T6 , T7 , )"@, "a list of 8 values"@)),
    }
}

/// The tuple of 8 that the text `text` sets, or the message that says why it sets none.
pub open spec fn tuple8_set<T0: Node, T1: Node, T2: Node, T3: Node, T4: Node, T5: Node, T6: Node, T7: Node>(text: Seq<char>) -> Result<(T0::Model, T1::Model, T2::Model, T3::Model, T4::Model, T5::Model, T6::Model, T7::Model, ), Seq<char>> {
    match json_parsed(text) {
        Ok(value) => match tuple8_decoded::<T0, T1, T2, T3, T4, T5, T6, T7>(value) {
            Ok(node) => Ok(node),
            Err(message) => Err("( T0 , T1 , T2 , T3 , T4 , T5 , T6 , T7 , )"@ + " set error: "@ + message),
        },
        Err(message) => Err("( T0 , T1 , T2 , T3 , T4 , T5 , T6 , T7 , )"@ + " set error: "@ + message),
    }
}

/// What a tuple of 8 makes of a command: `[i]` hands the command to the
/// field at `i`, `[*]` to every field in order; `get` writes the tuple as
/// JSON and `set` reads it from JSON.
pub open spec fn tuple8_outcome<T0: Node, T1: Node, T2: Node, T3: Node, T4: Node, T5: Node, T6: Node, T7: Node>(
    node: (T0::Model, T1::Model, T2::Model, T3::Model, T4::Model, T5::Model, T6::Model, T7::Model, ),
    tokens: Seq<Token>,
    clipboard: ClipboardModel,
) -> Outcome<(T0::Model, T1::Model, T2::Model, T3::Model, T4::Model, T5::Model, T6::Model, T7::Model, )> {
    let rest = tokens.drop_last();
    let unchanged = |text: Seq<char>| Outcome { text, node, clipboard };
    match tokens.last() {
        Token::ChainIndex(index) => if index == 0 {
            let one = T0::outcome(node.0, rest, clipboard);
            Outcome { text: one.text, node: (one.node, node.1, node.2, node.3, node.4, node.5, node.6, node.7, ), clipboard: one.clipboard }
        } else {
            if index == 1 {
            let one = T1::outcome(node.1, rest, clipboard);
            Outcome { text: one.text, node: (node.0, one.node, node.2, node.3, node.4, node.5, node.6, node.7, ), clipboard: one.clipboard }
        } else {
            if index == 2 {
            let one = T2::outcome(node.2, rest, clipboard);
            Outcome { text: one.text, node: (node.0, node.1, one.node, node.3, node.4, node.5, node.6, node.7, ), clipboard: one.clipboard }
        } else {
            if index == 3 {
            let one = T3::outcome(node.3, rest, clipboard);
            Outcome { text: one.text, node: (node.0, node.1, node.2, one.node, node.4, node.5, node.6, node.7, ), clipboard: one.clipboard }
        } else {
            if index == 4 {
            let one = T4::outcome(node.4, rest, clipboard);
            Outcome { text: one.text, node: (node.0, node.1, node.2, node.3, one.node, node.5, node.6, node.7, ), clipboard: one.clipboard }
        } else {
            if index == 5 {
            let one = T5::outcome(node.5, rest, clipboard);
            Outcome { text: one.text, node: (node.0, node.1, node.2, node.3, node.4, one.node, node.6, node.7, ), clipboard: one.clipboard }
        } else {
            if index == 6 {
            let one = T6::outcome(node.6, rest, clipboard);
            Outcome { text: one.text, node: (node.0, node.1, node.2, node.3, node.4, node.5, one.node, node.7, ), clipboard: one.clipboard }
        } else {
            if index == 7 {
            let one = T7::outcome(node.7, rest, clipboard);
            Outcome { text: one.text, node: (node.0, node.1, node.2, node.3, node.4, node.5, node.6, one.node, ), clipboard: one.clipboard }
        } else {
            unchanged("Used index "@ + decimal_text(index as int) + " on a "@ + "( T0 , T1 , T2 , T3 , T4 , T5 , T6 , T7 , )"@)
        }
        }
        }
        }
        }
        }
        }
        },
        Token::ChainAll => {
            let step0 = T0::outcome(node.0, rest, clipboard);
            let step1 = T1::outcome(node.1, rest, step0.clipboard);
            let step2 = T2::outcome(node.2, rest, step1.clipboard);
            let step3 = T3::outcome(node.3, rest, step2.clipboard);
            let step4 = T4::outcome(node.4, rest, step3.clipboard);
            let step5 = T5::outcome(node.5, rest, step4.clipboard);
            let step6 = T6::outcome(node.6, rest, step5.clipboard);
            let step7 = T7::outcome(node.7, rest, step6.clipboard);
            Outcome {
                text: "|"@ + step0.text + "|"@ + step1.text + "|"@ + step2.text + "|"@ + step3.text + "|"@ + step4.text + "|"@ + step5.text + "|"@ + step6.text + "|"@ + step7.text + "|"@,
                node: (step0.node, step1.node, step2.node, step3.node, step4.node, step5.node, step6.node, step7.node, ),
                clipboard: step7.clipboard,
            }
        },
        Token::Get => unchanged(json_pretty_text(tuple8_json::<T0, T1, T2, T3, T4, T5, T6, T7>(node))),
        Token::SetValue(value) => match tuple8_set::<T0, T1, T2, T3, T4, T5, T6, T7>(value) {
            Ok(node) => Outcome { text: Seq::empty(), node, clipboard },
            Err(message) => unchanged(message),
        },
        Token::Help => unchanged(tuple_help()),
        token => unchanged(cannot_text("( T0 , T1 , T2 , T3 , T4 , T5 , T6 , T7 , )"@, token)),
    }
}

impl<T0: Node, T1: Node, T2: Node, T3: Node, T4: Node, T5: Node, T6: Node, T7: Node> Node for (T0, T1, T2, T3, T4, T5, T6, T7, ) {
    type Model = (T0::Model, T1::Model, T2::Model, T3::Model, T4::Model, T5::Model, T6::Model, T7::Model, );

    open spec fn model(&self) -> (T0::Model, T1::Model, T2::Model, T3::Model, T4::Model, T5::Model, T6::Model, T7::Model, ) {
        (self.0.model(), self.1.model(), self.2.model(), self.3.model(), self.4.model(), self.5.model(), self.6.model(), self.7.model(), )
    }

    open spec fn outcome(node: (T0::Model, T1::Model, T2::Model, T3::Model, T4::Model, T5::Model, T6::Model, T7::Model, ), tokens: Seq<Token>, clipboard: ClipboardModel) -> Outcome<
        (T0::Model, T1::Model, T2::Model, T3::Model, T4::Model, T5::Model, T6::Model, T7::Model, ),
    > {
        tuple8_outcome::<T0, T1, T2, T3, T4, T5, T6, T7>(node, tokens, clipboard)
    }

    open spec fn json(node: (T0::Model, T1::Model, T2::Model, T3::Model, T4::Model, T5::Model, T6::Model, T7::Model, )) -> JsonModel {
        tuple8_json::<T0, T1, T2, T3, T4, T5, T6, T7>(node)
    }

    open spec fn decoded(value: JsonModel) -> Result<(T0::Model, T1::Model, T2::Model, T3::Model, T4::Model, T5::Model, T6::Model, T7::Model, ), Seq<char>> {
        tuple8_decoded::<T0, T1, T2, T3, T4, T5, T6, T7>(value)
    }

    open spec fn default_model() -> (T0::Model, T1::Model, T2::Model, T3::Model, T4::Model, T5::Model, T6::Model, T7::Model, ) {
        (T0::default_model(), T1::default_model(), T2::default_model(), T3::default_model(), T4::default_model(), T5::default_model(), T6::default_model(), T7::default_model(), )
    }

    fn node_step_with(&mut self, runner: NodeRunner, clipboard: &mut Clipboard) -> (text: String) {
        let mut runner = runner;
        let ghost tokens = runner@;
        let token = runner.step();
        proof {
            if token@.is_chain() {
                lemma_rest_well_formed(tokens);
            }
            assert(Self::outcome(old(self).model(), tokens, old(clipboard)@) == tuple8_outcome::<
                T0, T1, T2, T3, T4, T5, T6, T7,
            >(old(self).model(), tokens, old(clipboard)@));
        }
        match token {
            NodeToken::ChainIndex(index) => {
                match index {
                    0 => self.0.node_step_with(runner, clipboard),
                    1 => self.1.node_step_with(runner, clipboard),
                    2 => self.2.node_step_with(runner, clipboard),
                    3 => self.3.node_step_with(runner, clipboard),
                    4 => self.4.node_step_with(runner, clipboard),
                    5 => self.5.node_step_with(runner, clipboard),
                    6 => self.6.node_step_with(runner, clipboard),
                    7 => self.7.node_step_with(runner, clipboard),
                    _ => {
                        let mut text = String::from_str("Used index ");
                        text.append(format_integer(index as i128).as_str());
                        text.append(" on a ");
                        text.append("( T0 , T1 , T2 , T3 , T4 , T5 , T6 , T7 , )");
                        text
                    },
                }
            },
            NodeToken::ChainAll => {
                let mut combined = String::from_str("|");
                combined.append(self.0.node_step_with(runner.duplicate(), clipboard).as_str());
                combined.append("|");
                combined.append(self.1.node_step_with(runner.duplicate(), clipboard).as_str());
                combined.append("|");
                combined.append(self.2.node_step_with(runner.duplicate(), clipboard).as_str());
                combined.append("|");
                combined.append(self.3.node_step_with(runner.duplicate(), clipboard).as_str());
                combined.append("|");
                combined.append(self.4.node_step_with(runner.duplicate(), clipboard).as_str());
                combined.append("|");
                combined.append(self.5.node_step_with(runner.duplicate(), clipboard).as_str());
                combined.append("|");
                combined.append(self.6.node_step_with(runner.duplicate(), clipboard).as_str());
                combined.append("|");
                combined.append(self.7.node_step_with(runner.duplicate(), clipboard).as_str());
                combined.append("|");
                combined
            },
            NodeToken::Get => {
                let value = self.to_json();
                json_pretty(&value)
            },
            NodeToken::SetValue(value) => {
                match json_parse(value.as_str()) {
                    Ok(json) => match Self::from_json(&json) {
                        Ok(node) => {
                            *self = node;
                            String::new()
                        },
                        Err(message) => set_error("( T0 , T1 , T2 , T3 , T4 , T5 , T6 , T7 , )", message.as_str()),
                    },
                    Err(message) => set_error("( T0 , T1 , T2 , T3 , T4 , T5 , T6 , T7 , )", message.as_str()),
                }
            },
            NodeToken::Help => String::from_str(
                "\nTuple Help\n\nCommands:\n*   help - display this help\n*   get  - display JSON\n*   set  - set to JSON\n\nAccessors:\n*   [index] - access item at index",
            ),
            action => cannot("( T0 , T1 , T2 , T3 , T4 , T5 , T6 , T7 , )", &action),
        }
    }

    fn to_json(&self) -> (value: serde_json::Value) {
        proof {
            assert(Self::json(self.model()) == tuple8_json::<T0, T1, T2, T3, T4, T5, T6, T7>(self.model()));
        }
        let mut values: Vec<serde_json::Value> = Vec::new();
        values.push(self.0.to_json());
        values.push(self.1.to_json());
        values.push(self.2.to_json());
        values.push(self.3.to_json());
        values.push(self.4.to_json());
        values.push(self.5.to_json());
        values.push(self.6.to_json());
        values.push(self.7.to_json());
        assert(json_views(values@) =~= seq![T0::json(self.0.model()), T1::json(self.1.model()), T2::json(self.2.model()), T3::json(self.3.model()), T4::json(self.4.model()), T5::json(self.5.model()), T6::json(self.6.model()), T7::json(self.7.model())]);
        json_from_list(values)
    }

    fn from_json(value: &serde_json::Value) -> (result: Result<(T0, T1, T2, T3, T4, T5, T6, T7, ), String>) {
        proof {
            assert(Self::decoded(json_view(*value)) == tuple8_decoded::<T0, T1, T2, T3, T4, T5, T6, T7>(
                json_view(*value),
            ));
        }
        let values = match json_as_list(value) {
            Some(values) => values,
            None => {
                return Err(invalid("( T0 , T1 , T2 , T3 , T4 , T5 , T6 , T7 , )", "a list of 8 values"));
            },
        };
        if values.len() != 8 {
            return Err(invalid("( T0 , T1 , T2 , T3 , T4 , T5 , T6 , T7 , )", "a list of 8 values"));
        }
        proof {
            assert(forall|i: int| 0 <= i < 8 ==> json_views(values@)[i] == json_view(values@[i]));
        }
        let field0 = match T0::from_json(&values[0]) {
            Ok(field) => field,
            Err(message) => {
                return Err(message);
            },
        };
        let field1 = match T1::from_json(&values[1]) {
            Ok(field) => field,
            Err(message) => {
                return Err(message);
            },
        };
        let field2 = match T2::from_json(&values[2]) {
            Ok(field) => field,
            Err(message) => {
                return Err(message);
            },
        };
        let field3 = match T3::from_json(&values[3]) {
            Ok(field) => field,
            Err(message) => {
                return Err(message);
            },
        };
        let field4 = match T4::from_json(&values[4]) {
            Ok(field) => field,
            Err(message) => {
                return Err(message);
            },
        };
        let field5 = match T5::from_json(&values[5]) {
            Ok(field) => field,
            Err(message) => {
                return Err(message);
            },
        };
        let field6 = match T6::from_json(&values[6]) {
            Ok(field) => field,
            Err(message) => {
                return Err(message);
            },
        };
        let field7 = match T7::from_json(&values[7]) {
            Ok(field) => field,
            Err(message) => {
                return Err(message);
            },
        };
        Ok((field0, field1, field2, field3, field4, field5, field6, field7, ))
    }

    fn default_node() -> (node: (T0, T1, T2, T3, T4, T5, T6, T7, )) {
        (T0::default_node(), T1::default_node(), T2::default_node(), T3::default_node(), T4::default_node(), T5::default_node(), T6::default_node(), T7::default_node(), )
    }
}

/// The laws of a tuple of 8, where they hold of its fields: reading changes
/// nothing, and a `set` that fails changes nothing.
pub proof fn lemma_tuple8_laws<T0: Node, T1: Node, T2: Node, T3: Node, T4: Node, T5: Node, T6: Node, T7: Node>()
    requires
        unchanged_by_reading::<T0>(),
        unchanged_by_reading::<T1>(),
        unchanged_by_reading::<T2>(),
        unchanged_by_reading::<T3>(),
        unchanged_by_reading::<T4>(),
        unchanged_by_reading::<T5>(),
        unchanged_by_reading::<T6>(),
        unchanged_by_reading::<T7>(),
    ensures
        unchanged_by_reading::<(T0, T1, T2, T3, T4, T5, T6, T7, )>(),
        set_fails_without_change::<(T0, T1, T2, T3, T4, T5, T6, T7, )>(),
{
    assert forall|node: (T0::Model, T1::Model, T2::Model, T3::Model, T4::Model, T5::Model, T6::Model, T7::Model, ), tokens: Seq<Token>, clipboard: ClipboardModel|
        reads(tokens) implies (#[trigger] <(T0, T1, T2, T3, T4, T5, T6, T7, )>::outcome(node, tokens, clipboard)).node == node
        && <(T0, T1, T2, T3, T4, T5, T6, T7, )>::outcome(node, tokens, clipboard).clipboard == clipboard by {
        if tokens.last().is_chain() {
            lemma_rest_reads(tokens);
        }
    }
    assert forall|node: (T0::Model, T1::Model, T2::Model, T3::Model, T4::Model, T5::Model, T6::Model, T7::Model, ), value: Seq<char>, clipboard: ClipboardModel|
        (#[trigger] <(T0, T1, T2, T3, T4, T5, T6, T7, )>::outcome(node, seq![Token::SetValue(value)], clipboard)).text.len()
            > 0 implies <(T0, T1, T2, T3, T4, T5, T6, T7, )>::outcome(node, seq![Token::SetValue(value)], clipboard).node
        == node by {
        assert(seq![Token::SetValue(value)].last() == Token::SetValue(value));
    }
}

/// A tuple of 8 is read back from the JSON list that is written for it, where
/// its fields are read back from their values.
pub proof fn lemma_tuple8_round_trips<T0: Node, T1: Node, T2: Node, T3: Node, T4: Node, T5: Node, T6: Node, T7: Node>(node: (T0::Model, T1::Model, T2::Model, T3::Model, T4::Model, T5::Model, T6::Model, T7::Model, ))
    requires
        round_trips::<T0>(node.0),
        round_trips::<T1>(node.1),
        round_trips::<T2>(node.2),
        round_trips::<T3>(node.3),
        round_trips::<T4>(node.4),
        round_trips::<T5>(node.5),
        round_trips::<T6>(node.6),
        round_trips::<T7>(node.7),
    ensures
        round_trips::<(T0, T1, T2, T3, T4, T5, T6, T7, )>(node),
{
}

/// The JSON list that stands for a tuple of 9: the value of each field, in order.
pub open spec fn tuple9_json<T0: Node, T1: Node, T2: Node, T3: Node, T4: Node, T5: Node, T6: Node, T7: Node, T8: Node>(node: (T0::Model, T1::Model, T2::Model, T3::Model, T4::Model, T5::Model, T6::Model, T7::Model, T8::Model, )) -> JsonModel {
    JsonModel::List(seq![T0::json(node.0), T1::json(node.1), T2::json(node.2), T3::json(node.3), T4::json(node.4), T5::json(node.5), T6::json(node.6), T7::json(node.7), T8::json(node.8)])
}

/// The tuple of 9 that a JSON value stands for: a list of 9 values, each of
/// which stands for the field at its place.
pub open spec fn tuple9_decoded<T0: Node, T1: Node, T2: Node, T3: Node, T4: Node, T5: Node, T6: Node, T7: Node, T8: Node>(value: JsonModel) -> Result<(T0::Model, T1::Model, T2::Model, T3::Model, T4::Model, T5::Model, T6::Model, T7::Model, T8::Model, ), Seq<char>> {
    match value {
        JsonModel::List(values) => if values.len() == 9 {
            match T0::decoded(values[0]) {
            Ok(field0) => match T1::decoded(values[1]) {
            Ok(field1) => match T2::decoded(values[2]) {
            Ok(field2) => match T3::decoded(values[3]) {
            Ok(field3) => match T4::decoded(values[4]) {
            Ok(field4) => match T5::decoded(values[5]) {
            Ok(field5) => match T6::decoded(values[6]) {
            Ok(field6) => match T7::decoded(values[7]) {
            Ok(field7) => match T8::decoded(values[8]) {
            Ok(field8) => Ok((field0, field1, field2, field3, field4, field5, field6, field7, field8, )),
            Err(message) => Err(message),
        },
            Err(message) => Err(message),
        },
            Err(message) => Err(message),
        },
            Err(message) => Err(message),
        },
            Err(message) => Err(message),
        },
            Err(message) => Err(message),
        },
            Err(message) => Err(message),
        },
            Err(message) => Err(message),
        },
            Err(message) => Err(message),
        }
        } else {
            Err(invalid_text("( T0 , T1 , T2 , T3 , T4 , T5 , T6 , T7 , T8 , )"@, "a list of 9 values"@))
        },
        _ => Err(invalid_text("( T0 , T1 , T2 , T3 , T4 , T5 , T6 , T7 , T8 , )"@, "a list of 9 values"@)),
    }
}

/// The tuple of 9 that the text `text` sets, or the message that says why it sets none.
pub open spec fn tuple9_set<T0: Node, T1: Node, T2: Node, T3: Node, T4: Node, T5: Node, T6: Node, T7: Node, T8: Node>(text: Seq<char>) -> Result<(T0::Model, T1::Model, T2::Model, T3::Model, T4::Model, T5::Model, T6::Model, T7::Model, T8::Model, ), Seq<char>> {
    match json_parsed(text) {
        Ok(value) => match tuple9_decoded::<T0, T1, T2, T3, T4, T5, T6, T7, T8>(value) {
            Ok(node) => Ok(node),
            Err(message) => Err("( T0 , T1 , T2 , T3 , T4 , T5 , T6 , T7 , T8 , )"@ + " set error: "@ + message),
        },
        Err(message) => Err("( T0 , T1 , T2 , T3 , T4 , T5 , T6 , T7 , T8 , )"@ + " set error: "@ + message),
    }
}

/// What a tuple of 9 makes of a command: `[i]` hands the command to the
/// field at `i`, `[*]` to every field in order; `get` writes the tuple as
/// JSON and `set` reads it from JSON.
pub open spec fn tuple9_outcome<T0: Node, T1: Node, T2: Node, T3: Node, T4: Node, T5: Node, T6: Node, T7: Node, T8: Node>(
    node: (T0::Model, T1::Model, T2::Model, T3::Model, T4::Model, T5::Model, T6::Model, T7::Model, T8::Model, ),
    tokens: Seq<Token>,
    clipboard: ClipboardModel,
) -> Outcome<(T0::Model, T1::Model, T2::Model, T3::Model, T4::Model, T5::Model, T6::Model, T7::Model, T8::Model, )> {
    let rest = tokens.drop_last();
    let unchanged = |text: Seq<char>| Outcome { text, node, clipboard };
    match tokens.last() {
        Token::ChainIndex(index) => if index == 0 {
            let one = T0::outcome(node.0, rest, clipboard);
            Outcome { text: one.text, node: (one.node, node.1, node.2, node.3, node.4, node.5, node.6, node.7, node.8, ), clipboard: one.clipboard }
        } else {
            if index == 1 {
            let one = T1::outcome(node.1, rest, clipboard);
            Outcome { text: one.text, node: (node.0, one.node, node.2, node.3, node.4, node.5, node.6, node.7, node.8, ), clipboard: one.clipboard }
        } else {
            if index == 2 {
            let one = T2::outcome(node.2, rest, clipboard);
            Outcome { text: one.text, node: (node.0, node.1, one.node, node.3, node.4, node.5, node.6, node.7, node.8, ), clipboard: one.clipboard }
        } else {
            if index == 3 {
            let one = T3::outcome(node.3, rest, clipboard);
            Outcome { text: one.text, node: (node.0, node.1, node.2, one.node, node.4, node.5, node.6, node.7, node.8, ), clipboard: one.clipboard }
        } else {
            if index == 4 {
            let one = T4::outcome(node.4, rest, clipboard);
            Outcome { text: one.text, node: (node.0, node.1, node.2, node.3, one.node, node.5, node.6, node.7, node.8, ), clipboard: one.clipboard }
        } else {
            if index == 5 {
            let one = T5::outcome(node.5, rest, clipboard);
            Outcome { text: one.text, node: (node.0, node.1, node.2, node.3, node.4, one.node, node.6, node.7, node.8, ), clipboard: one.clipboard }
        } else {
            if index == 6 {
            let one = T6::outcome(node.6, rest, clipboard);
            Outcome { text: one.text, node: (node.0, node.1, node.2, node.3, node.4, node.5, one.node, node.7, node.8, ), clipboard: one.clipboard }
        } else {
            if index == 7 {
            let one = T7::outcome(node.7, rest, clipboard);
            Outcome { text: one.text, node: (node.0, node.1, node.2, node.3, node.4, node.5, node.6, one.node, node.8, ), clipboard: one.clipboard }
        } else {
            if index == 8 {
            let one = T8::outcome(node.8, rest, clipboard);
            Outcome { text: one.text, node: (node.0, node.1, node.2, node.3, node.4, node.5, node.6, node.7, one.node, ), clipboard: one.clipboard }
        } else {
            unchanged("Used index "@ + decimal_text(index as int) + " on a "@ + "( T0 , T1 , T2 , T3 , T4 , T5 , T6 , T7 , T8 , )"@)
        }
        }
        }
        }
        }
        }
        }
        }
        },
        Token::ChainAll => {
            let step0 = T0::outcome(node.0, rest, clipboard);
            let step1 = T1::outcome(node.1, rest, step0.clipboard);
            let step2 = T2::outcome(node.2, rest, step1.clipboard);
            let step3 = T3::outcome(node.3, rest, step2.clipboard);
            let step4 = T4::outcome(node.4, rest, step3.clipboard);
            let step5 = T5::outcome(node.5, rest, step4.clipboard);
            let step6 = T6::outcome(node.6, rest, step5.clipboard);
            let step7 = T7::outcome(node.7, rest, step6.clipboard);
            let step8 = T8::outcome(node.8, rest, step7.clipboard);
            Outcome {
                text: "|"@ + step0.text + "|"@ + step1.text + "|"@ + step2.text + "|"@ + step3.text + "|"@ + step4.text + "|"@ + step5.text + "|"@ + step6.text + "|"@ + step7.text + "|"@ + step8.text + "|"@,
                node: (step0.node, step1.node, step2.node, step3.node, step4.node, step5.node, step6.node, step7.node, step8.node, ),
                clipboard: step8.clipboard,
            }
        },
        Token::Get => unchanged(json_pretty_text(tuple9_json::<T0, T1, T2, T3, T4, T5, T6, T7, T8>(node))),
        Token::SetValue(value) => match tuple9_set::<T0, T1, T2, T3, T4, T5, T6, T7, T8>(value) {
            Ok(node) => Outcome { text: Seq::empty(), node, clipboard },
            Err(message) => unchanged(message),
        },
        Token::Help => unchanged(tuple_help()),
        token => unchanged(cannot_text("( T0 , T1 , T2 , T3 , T4 , T5 , T6 , T7 , T8 , )"@, token)),
    }
}

impl<T0: Node, T1: Node, T2: Node, T3: Node, T4: Node, T5: Node, T6: Node, T7: Node, T8: Node> Node for (T0, T1, T2, T3, T4, T5, T6, T7, T8, ) {
    type Model = (T0::Model, T1::Model, T2::Model, T3::Model, T4::Model, T5::Model, T6::Model, T7::Model, T8::Model, );

    open spec fn model(&self) -> (T0::Model, T1::Model, T2::Model, T3::Model, T4::Model, T5::Model, T6::Model, T7::Model, T8::Model, ) {
        (self.0.model(), self.1.model(), self.2.model(), self.3.model(), self.4.model(), self.5.model(), self.6.model(), self.7.model(), self.8.model(), )
    }

    open spec fn outcome(node: (T0::Model, T1::Model, T2::Model, T3::Model, T4::Model, T5::Model, T6::Model, T7::Model, T8::Model, ), tokens: Seq<Token>, clipboard: ClipboardModel) -> Outcome<
        (T0::Model, T1::Model, T2::Model, T3::Model, T4::Model, T5::Model, T6::Model, T7::Model, T8::Model, ),
    > {
        tuple9_outcome::<T0, T1, T2, T3, T4, T5, T6, T7, T8>(node, tokens, clipboard)
    }

    open spec fn json(node: (T0::Model, T1::Model, T2::Model, T3::Model, T4::Model, T5::Model, T6::Model, T7::Model, T8::Model, )) -> JsonModel {
        tuple9_json::<T0, T1, T2, T3, T4, T5, T6, T7, T8>(node)
    }

    open spec fn decoded(value: JsonModel) -> Result<(T0::Model, T1::Model, T2::Model, T3::Model, T4::Model, T5::Model, T6::Model, T7::Model, T8::Model, ), Seq<char>> {
        tuple9_decoded::<T0, T1, T2, T3, T4, T5, T6, T7, T8>(value)
    }

    open spec fn default_model() -> (T0::Model, T1::Model, T2::Model, T3::Model, T4::Model, T5::Model, T6::Model, T7::Model, T8::Model, ) {
        (T0::default_model(), T1::default_model(), T2::default_model(), T3::default_model(), T4::default_model(), T5::default_model(), T6::default_model(), T7::default_model(), T8::default_model(), )
    }

    fn node_step_with(&mut self, runner: NodeRunner, clipboard: &mut Clipboard) -> (text: String) {
        let mut runner = runner;
        let ghost tokens = runner@;
        let token = runner.step();
        proof {
            if token@.is_chain() {
                lemma_rest_well_formed(tokens);
            }
            assert(Self::outcome(old(self).model(), tokens, old(clipboard)@) == tuple9_outcome::<
                T0, T1, T2, T3, T4, T5, T6, T7, T8,
            >(old(self).model(), tokens, old(clipboard)@));
        }
        match token {
            NodeToken::ChainIndex(index) => {
                match index {
                    0 => self.0.node_step_with(runner, clipboard),
                    1 => self.1.node_step_with(runner, clipboard),
                    2 => self.2.node_step_with(runner, clipboard),
                    3 => self.3.node_step_with(runner, clipboard),
                    4 => self.4.node_step_with(runner, clipboard),
                    5 => self.5.node_step_with(runner, clipboard),
                    6 => self.6.node_step_with(runner, clipboard),
                    7 => self.7.node_step_with(runner, clipboard),
                    8 => self.8.node_step_with(runner, clipboard),
                    _ => {
                        let mut text = String::from_str("Used index ");
                        text.append(format_integer(index as i128).as_str());
                        text.append(" on a ");
                        text.append("( T0 , T1 , T2 , T3 , T4 , T5 , T6 , T7 , T8 , )");
                        text
                    },
                }
            },
            NodeToken::ChainAll => {
                let mut combined = String::from_str("|");
                combined.append(self.0.node_step_with(runner.duplicate(), clipboard).as_str());
                combined.append("|");
                combined.append(self.1.node_step_with(runner.duplicate(), clipboard).as_str());
                combined.append("|");
                combined.append(self.2.node_step_with(runner.duplicate(), clipboard).as_str());
                combined.append("|");
                combined.append(self.3.node_step_with(runner.duplicate(), clipboard).as_str());
                combined.append("|");
                combined.append(self.4.node_step_with(runner.duplicate(), clipboard).as_str());
                combined.append("|");
                combined.append(self.5.node_step_with(runner.duplicate(), clipboard).as_str());
                combined.append("|");
                combined.append(self.6.node_step_with(runner.duplicate(), clipboard).as_str());
                combined.append("|");
                combined.append(self.7.node_step_with(runner.duplicate(), clipboard).as_str());
                combined.append("|");
                combined.append(self.8.node_step_with(runner.duplicate(), clipboard).as_str());
                combined.append("|");
                combined
            },
            NodeToken::Get => {
                let value = self.to_json();
                json_pretty(&value)
            },
            NodeToken::SetValue(value) => {
                match json_parse(value.as_str()) {
                    Ok(json) => match Self::from_json(&json) {
                        Ok(node) => {
                            *self = node;
                            String::new()
                        },
                        Err(message) => set_error("( T0 , T1 , T2 , T3 , T4 , T5 , T6 , T7 , T8 , )", message.as_str()),
                    },
                    Err(message) => set_error("( T0 , T1 , T2 , T3 , T4 , T5 , T6 , T7 , T8 , )", message.as_str()),
                }
            },
            NodeToken::Help => String::from_str(
                "\nTuple Help\n\nCommands:\n*   help - display this help\n*   get  - display JSON\n*   set  - set to JSON\n\nAccessors:\n*   [index] - access item at index",
            ),
            action => cannot("( T0 , T1 , T2 , T3 , T4 , T5 , T6 , T7 , T8 , )", &action),
        }
    }

    fn to_json(&self) -> (value: serde_json::Value) {
        proof {
            assert(Self::json(self.model()) == tuple9_json::<T0, T1, T2, T3, T4, T5, T6, T7, T8>(self.model()));
        }
        let mut values: Vec<serde_json::Value> = Vec::new();
        values.push(self.0.to_json());
        values.push(self.1.to_json());
        values.push(self.2.to_json());
        values.push(self.3.to_json());
        values.push(self.4.to_json());
        values.push(self.5.to_json());
        values.push(self.6.to_json());
        values.push(self.7.to_json());
        values.push(self.8.to_json());
        assert(json_views(values@) =~= seq![T0::json(self.0.model()), T1::json(self.1.model()), T2::json(self.2.model()), T3::json(self.3.model()), T4::json(self.4.model()), T5::json(self.5.model()), T6::json(self.6.model()), T7::json(self.7.model()), T8::json(self.8.model())]);
        json_from_list(values)
    }

    fn from_json(value: &serde_json::Value) -> (result: Result<(T0, T1, T2, T3, T4, T5, T6, T7, T8, ), String>) {
        proof {
            assert(Self::decoded(json_view(*value)) == tuple9_decoded::<T0, T1, T2, T3, T4, T5, T6, T7, T8>(
                json_view(*value),
            ));
        }
        let values = match json_as_list(value) {
            Some(values) => values,
            None => {
                return Err(invalid("( T0 , T1 , T2 , T3 , T4 , T5 , T6 , T7 , T8 , )", "a list of 9 values"));
            },
        };
        if values.len() != 9 {
            return Err(invalid("( T0 , T1 , T2 , T3 , T4 , T5 , T6 , T7 , T8 , )", "a list of 9 values"));
        }
        proof {
            assert(forall|i: int| 0 <= i < 9 ==> json_views(values@)[i] == json_view(values@[i]));
        }
        let field0 = match T0::from_json(&values[0]) {
            Ok(field) => field,
            Err(message) => {
                return Err(message);
            },
        };
        let field1 = match T1::from_json(&values[1]) {
            Ok(field) => field,
            Err(message) => {
                return Err(message);
            },
        };
        let field2 = match T2::from_json(&values[2]) {
            Ok(field) => field,
            Err(message) => {
                return Err(message);
            },
        };
        let field3 = match T3::from_json(&values[3]) {
            Ok(field) => field,
            Err(message) => {
                return Err(message);
            },
        };
        let field4 = match T4::from_json(&values[4]) {
            Ok(field) => field,
            Err(message) => {
                return Err(message);
            },
        };
        let field5 = match T5::from_json(&values[5]) {
            Ok(field) => field,
            Err(message) => {
                return Err(message);
            },
        };
        let field6 = match T6::from_json(&values[6]) {
            Ok(field) => field,
            Err(message) => {
                return Err(message);
            },
        };
        let field7 = match T7::from_json(&values[7]) {
            Ok(field) => field,
            Err(message) => {
                return Err(message);
            },
        };
        let field8 = match T8::from_json(&values[8]) {
            Ok(field) => field,
            Err(message) => {
                return Err(message);
            },
        };
        Ok((field0, field1, field2, field3, field4, field5, field6, field7, field8, ))
    }

    fn default_node() -> (node: (T0, T1, T2, T3, T4, T5, T6, T7, T8, )) {
        (T0::default_node(), T1::default_node(), T2::default_node(), T3::default_node(), T4::default_node(), T5::default_node(), T6::default_node(), T7::default_node(), T8::default_node(), )
    }
}

/// The laws of a tuple of 9, where they hold of its fields: reading changes
/// nothing, and a `set` that fails changes nothing.
pub proof fn lemma_tuple9_laws<T0: Node, T1: Node, T2: Node, T3: Node, T4: Node, T5: Node, T6: Node, T7: Node, T8: Node>()
    requires
        unchanged_by_reading::<T0>(),
        unchanged_by_reading::<T1>(),
        unchanged_by_reading::<T2>(),
        unchanged_by_reading::<T3>(),
        unchanged_by_reading::<T4>(),
        unchanged_by_reading::<T5>(),
        unchanged_by_reading::<T6>(),
        unchanged_by_reading::<T7>(),
        unchanged_by_reading::<T8>(),
    ensures
        unchanged_by_reading::<(T0, T1, T2, T3, T4, T5, T6, T7, T8, )>(),
        set_fails_without_change::<(T0, T1, T2, T3, T4, T5, T6, T7, T8, )>(),
{
    assert forall|node: (T0::Model, T1::Model, T2::Model, T3::Model, T4::Model, T5::Model, T6::Model, T7::Model, T8::Model, ), tokens: Seq<Token>, clipboard: ClipboardModel|
        reads(tokens) implies (#[trigger] <(T0, T1, T2, T3, T4, T5, T6, T7, T8, )>::outcome(node, tokens, clipboard)).node == node
        && <(T0, T1, T2, T3, T4, T5, T6, T7, T8, )>::outcome(node, tokens, clipboard).clipboard == clipboard by {
        if tokens.last().is_chain() {
            lemma_rest_reads(tokens);
        }
    }
    assert forall|node: (T0::Model, T1::Model, T2::Model, T3::Model, T4::Model, T5::Model, T6::Model, T7::Model, T8::Model, ), value: Seq<char>, clipboard: ClipboardModel|
        (#[trigger] <(T0, T1, T2, T3, T4, T5, T6, T7, T8, )>::outcome(node, seq![Token::SetValue(value)], clipboard)).text.len()
            > 0 implies <(T0, T1, T2, T3, T4, T5, T6, T7, T8, )>::outcome(node, seq![Token::SetValue(value)], clipboard).node
        == node by {
        assert(seq![Token::SetValue(value)].last() == Token::SetValue(value));
    }
}

/// A tuple of 9 is read back from the JSON list that is written for it, where
/// its fields are read back from their values.
pub proof fn lemma_tuple9_round_trips<T0: Node, T1: Node, T2: Node, T3: Node, T4: Node, T5: Node, T6: Node, T7: Node, T8: Node>(node: (T0::Model, T1::Model, T2::Model, T3::Model, T4::Model, T5::Model, T6::Model, T7::Model, T8::Model, ))
    requires
        round_trips::<T0>(node.0),
        round_trips::<T1>(node.1),
        round_trips::<T2>(node.2),
        round_trips::<T3>(node.3),
        round_trips::<T4>(node.4),
        round_trips::<T5>(node.5),
        round_trips::<T6>(node.6),
        round_trips::<T7>(node.7),
        round_trips::<T8>(node.8),
    ensures
        round_trips::<(T0, T1, T2, T3, T4, T5, T6, T7, T8, )>(node),
{
}

/// The JSON list that stands for a tuple of 10: the value of each field, in order.
pub open spec fn tuple10_json<T0: Node, T1: Node, T2: Node, T3: Node, T4: Node, T5: Node, T6: Node, T7: Node, T8: Node, T9: Node>(node: (T0::Model, T1::Model, T2::Model, T3::Model, T4::Model, T5::Model, T6::Model, T7::Model, T8::Model, T9::Model, )) -> JsonModel {
    JsonModel::List(seq![T0::json(node.0), T1::json(node.1), T2::json(node.2), T3::json(node.3), T4::json(node.4), T5::json(node.5), T6::json(node.6), T7::json(node.7), T8::json(node.8), T9::json(node.9)])
}

/// The tuple of 10 that a JSON value stands for: a list of 10 values, each of
/// which stands for the field at its place.
pub open spec fn tuple10_decoded<T0: Node, T1: Node, T2: Node, T3: Node, T4: Node, T5: Node, T6: Node, T7: Node, T8: Node, T9: Node>(value: JsonModel) -> Result<(T0::Model, T1::Model, T2::Model, T3::Model, T4::Model, T5::Model, T6::Model, T7::Model, T8::Model, T9::Model, ), Seq<char>> {
    match value {
        JsonModel::List(values) => if values.len() == 10 {
            match T0::decoded(values[0]) {
            Ok(field0) => match T1::decoded(values[1]) {
            Ok(field1) => match T2::decoded(values[2]) {
            Ok(field2) => match T3::decoded(values[3]) {
            Ok(field3) => match T4::decoded(values[4]) {
            Ok(field4) => match T5::decoded(values[5]) {
            Ok(field5) => match T6::decoded(values[6]) {
            Ok(field6) => match T7::decoded(values[7]) {
            Ok(field7) => match T8::decoded(values[8]) {
            Ok(field8) => match T9::decoded(values[9]) {
            Ok(field9) => Ok((field0, field1, field2, field3, field4, field5, field6, field7, field8, field9, )),
            Err(message) => Err(message),
        },
            Err(message) => Err(message),
        },
            Err(message) => Err(message),
        },
            Err(message) => Err(message),
        },
            Err(message) => Err(message),
        },
            Err(message) => Err(message),
        },
            Err(message) => Err(message),
        },
            Err(message) => Err(message),
        },
            Err(message) => Err(message),
        },
            Err(message) => Err(message),
        }
        } else {
            Err(invalid_text("( T0 , T1 , T2 , T3 , T4 , T5 , T6 , T7 , T8 , T9 , )"@, "a list of 10 values"@))
        },
        _ => Err(invalid_text("( T0 , T1 , T2 , T3 , T4 , T5 , T6 , T7 , T8 , T9 , )"@, "a list of 10 values"@)),
    }
}

/// The tuple of 10 that the text `text` sets, or the message that says why it sets none.
pub open spec fn tuple10_set<T0: Node, T1: Node, T2: Node, T3: Node, T4: Node, T5: Node, T6: Node, T7: Node, T8: Node, T9: Node>(text: Seq<char>) -> Result<(T0::Model, T1::Model, T2::Model, T3::Model, T4::Model, T5::Model, T6::Model, T7::Model, T8::Model, T9::Model, ), Seq<char>> {
    match json_parsed(text) {
        Ok(value) => match tuple10_decoded::<T0, T1, T2, T3, T4, T5, T6, T7, T8, T9>(value) {
            Ok(node) => Ok(node),
            Err(message) => Err("( T0 , T1 , T2 , T3 , T4 , T5 , T6 , T7 , T8 , T9 , )"@ + " set error: "@ + message),
        },
        Err(message) => Err("( T0 , T1 , T2 , T3 , T4 , T5 , T6 , T7 , T8 , T9 , )"@ + " set error: "@ + message),
    }
}

/// What a tuple of 10 makes of a command: `[i]` hands the command to the
/// field at `i`, `[*]` to every field in order; `get` writes the tuple as
/// JSON and `set` reads it from JSON.
pub open spec fn tuple10_outcome<T0: Node, T1: Node, T2: Node, T3: Node, T4: Node, T5: Node, T6: Node, T7: Node, T8: Node, T9: Node>(
    node: (T0::Model, T1::Model, T2::Model, T3::Model, T4::Model, T5::Model, T6::Model, T7::Model, T8::Model, T9::Model, ),
    tokens: Seq<Token>,
    clipboard: ClipboardModel,
) -> Outcome<(T0::Model, T1::Model, T2::Model, T3::Model, T4::Model, T5::Model, T6::Model, T7::Model, T8::Model, T9::Model, )> {
    let rest = tokens.drop_last();
    let unchanged = |text: Seq<char>| Outcome { text, node, clipboard };
    match tokens.last() {
        Token::ChainIndex(index) => if index == 0 {
            let one = T0::outcome(node.0, rest, clipboard);
            Outcome { text: one.text, node: (one.node, node.1, node.2, node.3, node.4, node.5, node.6, node.7, node.8, node.9, ), clipboard: one.clipboard }
        } else {
            if index == 1 {
            let one = T1::outcome(node.1, rest, clipboard);
            Outcome { text: one.text, node: (node.0, one.node, node.2, node.3, node.4, node.5, node.6, node.7, node.8, node.9, ), clipboard: one.clipboard }
        } else {
            if index == 2 {
            let one = T2::outcome(node.2, rest, clipboard);
            Outcome { text: one.text, node: (node.0, node.1, one.node, node.3, node.4, node.5, node.6, node.7, node.8, node.9, ), clipboard: one.clipboard }
        } else {
            if index == 3 {
            let one = T3::outcome(node.3, rest, clipboard);
            Outcome { text: one.text, node: (node.0, node.1, node.2, one.node, node.4, node.5, node.6, node.7, node.8, node.9, ), clipboard: one.clipboard }
        } else {
            if index == 4 {
            let one = T4::outcome(node.4, rest, clipboard);
            Outcome { text: one.text, node: (node.0, node.1, node.2, node.3, one.node, node.5, node.6, node.7, node.8, node.9, ), clipboard: one.clipboard }
        } else {
            if index == 5 {
            let one = T5::outcome(node.5, rest, clipboard);
            Outcome { text: one.text, node: (node.0, node.1, node.2, node.3, node.4, one.node, node.6, node.7, node.8, node.9, ), clipboard: one.clipboard }
        } else {
            if index == 6 {
            let one = T6::outcome(node.6, rest, clipboard);
            Outcome { text: one.text, node: (node.0, node.1, node.2, node.3, node.4, node.5, one.node, node.7, node.8, node.9, ), clipboard: one.clipboard }
        } else {
            if index == 7 {
            let one = T7::outcome(node.7, rest, clipboard);
            Outcome { text: one.text, node: (node.0, node.1, node.2, node.3, node.4, node.5, node.6, one.node, node.8, node.9, ), clipboard: one.clipboard }
        } else {
            if index == 8 {
            let one = T8::outcome(node.8, rest, clipboard);
            Outcome { text: one.text, node: (node.0, node.1, node.2, node.3, node.4, node.5, node.6, node.7, one.node, node.9, ), clipboard: one.clipboard }
        } else {
            if index == 9 {
            let one = T9::outcome(node.9, rest, clipboard);
            Outcome { text: one.text, node: (node.0, node.1, node.2, node.3, node.4, node.5, node.6, node.7, node.8, one.node, ), clipboard: one.clipboard }
        } else {
            unchanged("Used index "@ + decimal_text(index as int) + " on a "@ + "( T0 , T1 , T2 , T3 , T4 , T5 , T6 , T7 , T8 , T9 , )"@)
        }
        }
        }
        }
        }
        }
        }
        }
        }
        },
        Token::ChainAll => {
            let step0 = T0::outcome(node.0, rest, clipboard);
            let step1 = T1::outcome(node.1, rest, step0.clipboard);
            let step2 = T2::outcome(node.2, rest, step1.clipboard);
            let step3 = T3::outcome(node.3, rest, step2.clipboard);
            let step4 = T4::outcome(node.4, rest, step3.clipboard);
            let step5 = T5::outcome(node.5, rest, step4.clipboard);
            let step6 = T6::outcome(node.6, rest, step5.clipboard);
            let step7 = T7::outcome(node.7, rest, step6.clipboard);
            let step8 = T8::outcome(node.8, rest, step7.clipboard);
            let step9 = T9::outcome(node.9, rest, step8.clipboard);
            Outcome {
                text: "|"@ + step0.text + "|"@ + step1.text + "|"@ + step2.text + "|"@ + step3.text + "|"@ + step4.text + "|"@ + step5.text + "|"@ + step6.text + "|"@ + step7.text + "|"@ + step8.text + "|"@ + step9.text + "|"@,
                node: (step0.node, step1.node, step2.node, step3.node, step4.node, step5.node, step6.node, step7.node, step8.node, step9.node, ),
                clipboard: step9.clipboard,
            }
        },
        Token::Get => unchanged(json_pretty_text(tuple10_json::<T0, T1, T2, T3, T4, T5, T6, T7, T8, T9>(node))),
        Token::SetValue(value) => match tuple10_set::<T0, T1, T2, T3, T4, T5, T6, T7, T8, T9>(value) {
            Ok(node) => Outcome { text: Seq::empty(), node, clipboard },
            Err(message) => unchanged(message),
        },
        Token::Help => unchanged(tuple_help()),
        token => unchanged(cannot_text("( T0 , T1 , T2 , T3 , T4 , T5 , T6 , T7 , T8 , T9 , )"@, token)),
    }
}

impl<T0: Node, T1: Node, T2: Node, T3: Node, T4: Node, T5: Node, T6: Node, T7: Node, T8: Node, T9: Node> Node for (T0, T1, T2, T3, T4, T5, T6, T7, T8, T9, ) {
    type Model = (T0::Model, T1::Model, T2::Model, T3::Model, T4::Model, T5::Model, T6::Model, T7::Model, T8::Model, T9::Model, );

    open spec fn model(&self) -> (T0::Model, T1::Model, T2::Model, T3::Model, T4::Model, T5::Model, T6::Model, T7::Model, T8::Model, T9::Model, ) {
        (self.0.model(), self.1.model(), self.2.model(), self.3.model(), self.4.model(), self.5.model(), self.6.model(), self.7.model(), self.8.model(), self.9.model(), )
    }

    open spec fn outcome(node: (T0::Model, T1::Model, T2::Model, T3::Model, T4::Model, T5::Model, T6::Model, T7::Model, T8::Model, T9::Model, ), tokens: Seq<Token>, clipboard: ClipboardModel) -> Outcome<
        (T0::Model, T1::Model, T2::Model, T3::Model, T4::Model, T5::Model, T6::Model, T7::Model, T8::Model, T9::Model, ),
    > {
        tuple10_outcome::<T0, T1, T2, T3, T4, T5, T6, T7, T8, T9>(node, tokens, clipboard)
    }

    open spec fn json(node: (T0::Model, T1::Model, T2::Model, T3::Model, T4::Model, T5::Model, T6::Model, T7::Model, T8::Model, T9::Model, )) -> JsonModel {
        tuple10_json::<T0, T1, T2, T3, T4, T5, T6, T7, T8, T9>(node)
    }

    open spec fn decoded(value: JsonModel) -> Result<(T0::Model, T1::Model, T2::Model, T3::Model, T4::Model, T5::Model, T6::Model, T7::Model, T8::Model, T9::Model, ), Seq<char>> {
        tuple10_decoded::<T0, T1, T2, T3, T4, T5, T6, T7, T8, T9>(value)
    }

    open spec fn default_model() -> (T0::Model, T1::Model, T2::Model, T3::Model, T4::Model, T5::Model, T6::Model, T7::Model, T8::Model, T9::Model, ) {
        (T0::default_model(), T1::default_model(), T2::default_model(), T3::default_model(), T4::default_model(), T5::default_model(), T6::default_model(), T7::default_model(), T8::default_model(), T9::default_model(), )
    }

    fn node_step_with(&mut self, runner: NodeRunner, clipboard: &mut Clipboard) -> (text: String) {
        let mut runner = runner;
        let ghost tokens = runner@;
        let token = runner.step();
        proof {
            if token@.is_chain() {
                lemma_rest_well_formed(tokens);
            }
            assert(Self::outcome(old(self).model(), tokens, old(clipboard)@) == tuple10_outcome::<
                T0, T1, T2, T3, T4, T5, T6, T7, T8, T9,
            >(old(self).model(), tokens, old(clipboard)@));
        }
        match token {
            NodeToken::ChainIndex(index) => {
                match index {
                    0 => self.0.node_step_with(runner, clipboard),
                    1 => self.1.node_step_with(runner, clipboard),
                    2 => self.2.node_step_with(runner, clipboard),
                    3 => self.3.node_step_with(runner, clipboard),
                    4 => self.4.node_step_with(runner, clipboard),
                    5 => self.5.node_step_with(runner, clipboard),
                    6 => self.6.node_step_with(runner, clipboard),
                    7 => self.7.node_step_with(runner, clipboard),
                    8 => self.8.node_step_with(runner, clipboard),
                    9 => self.9.node_step_with(runner, clipboard),
                    _ => {
                        let mut text = String::from_str("Used index ");
                        text.append(format_integer(index as i128).as_str());
                        text.append(" on a ");
                        text.append("( T0 , T1 , T2 , T3 , T4 , T5 , T6 , T7 , T8 , T9 , )");
                        text
                    },
                }
            },
            NodeToken::ChainAll => {
                let mut combined = String::from_str("|");
                combined.append(self.0.node_step_with(runner.duplicate(), clipboard).as_str());
                combined.append("|");
                combined.append(self.1.node_step_with(runner.duplicate(), clipboard).as_str());
                combined.append("|");
                combined.append(self.2.node_step_with(runner.duplicate(), clipboard).as_str());
                combined.append("|");
                combined.append(self.3.node_step_with(runner.duplicate(), clipboard).as_str());
                combined.append("|");
                combined.append(self.4.node_step_with(runner.duplicate(), clipboard).as_str());
                combined.append("|");
                combined.append(self.5.node_step_with(runner.duplicate(), clipboard).as_str());
                combined.append("|");
                combined.append(self.6.node_step_with(runner.duplicate(), clipboard).as_str());
                combined.append("|");
                combined.append(self.7.node_step_with(runner.duplicate(), clipboard).as_str());
                combined.append("|");
                combined.append(self.8.node_step_with(runner.duplicate(), clipboard).as_str());
                combined.append("|");
                combined.append(self.9.node_step_with(runner.duplicate(), clipboard).as_str());
                combined.append("|");
                combined
            },
            NodeToken::Get => {
                let value = self.to_json();
                json_pretty(&value)
            },
            NodeToken::SetValue(value) => {
                match json_parse(value.as_str()) {
                    Ok(json) => match Self::from_json(&json) {
                        Ok(node) => {
                            *self = node;
                            String::new()
                        },
                        Err(message) => set_error("( T0 , T1 , T2 , T3 , T4 , T5 , T6 , T7 , T8 , T9 , )", message.as_str()),
                    },
                    Err(message) => set_error("( T0 , T1 , T2 , T3 , T4 , T5 , T6 , T7 , T8 , T9 , )", message.as_str()),
                }
            },
            NodeToken::Help => String::from_str(
                "\nTuple Help\n\nCommands:\n*   help - display this help\n*   get  - display JSON\n*   set  - set to JSON\n\nAccessors:\n*   [index] - access item at index",
            ),
            action => cannot("( T0 , T1 , T2 , T3 , T4 , T5 , T6 , T7 , T8 , T9 , )", &action),
        }
    }

    fn to_json(&self) -> (value: serde_json::Value) {
        proof {
            assert(Self::json(self.model()) == tuple10_json::<T0, T1, T2, T3, T4, T5, T6, T7, T8, T9>(self.model()));
        }
        let mut values: Vec<serde_json::Value> = Vec::new();
        values.push(self.0.to_json());
        values.push(self.1.to_json());
        values.push(self.2.to_json());
        values.push(self.3.to_json());
        values.push(self.4.to_json());
        values.push(self.5.to_json());
        values.push(self.6.to_json());
        values.push(self.7.to_json());
        values.push(self.8.to_json());
        values.push(self.9.to_json());
        assert(json_views(values@) =~= seq![T0::json(self.0.model()), T1::json(self.1.model()), T2::json(self.2.model()), T3::json(self.3.model()), T4::json(self.4.model()), T5::json(self.5.model()), T6::json(self.6.model()), T7::json(self.7.model()), T8::json(self.8.model()), T9::json(self.9.model())]);
        json_from_list(values)
    }

    fn from_json(value: &serde_json::Value) -> (result: Result<(T0, T1, T2, T3, T4, T5, T6, T7, T8, T9, ), String>) {
        proof {
            assert(Self::decoded(json_view(*value)) == tuple10_decoded::<T0, T1, T2, T3, T4, T5, T6, T7, T8, T9>(
                json_view(*value),
            ));
        }
        let values = match json_as_list(value) {
            Some(values) => values,
            None => {
                return Err(invalid("( T0 , T1 , T2 , T3 , T4 , T5 , T6 , T7 , T8 , T9 , )", "a list of 10 values"));
            },
        };
        if values.len() != 10 {
            return Err(invalid("( T0 , T1 , T2 , T3 , T4 , T5 , T6 , T7 , T8 , T9 , )", "a list of 10 values"));
        }
        proof {
            assert(forall|i: int| 0 <= i < 10 ==> json_views(values@)[i] == json_view(values@[i]));
        }
        let field0 = match T0::from_json(&values[0]) {
            Ok(field) => field,
            Err(message) => {
                return Err(message);
            },
        };
        let field1 = match T1::from_json(&values[1]) {
            Ok(field) => field,
            Err(message) => {
                return Err(message);
            },
        };
        let field2 = match T2::from_json(&values[2]) {
            Ok(field) => field,
            Err(message) => {
                return Err(message);
            },
        };
        let field3 = match T3::from_json(&values[3]) {
            Ok(field) => field,
            Err(message) => {
                return Err(message);
            },
        };
        let field4 = match T4::from_json(&values[4]) {
            Ok(field) => field,
            Err(message) => {
                return Err(message);
            },
        };
        let field5 = match T5::from_json(&values[5]) {
            Ok(field) => field,
            Err(message) => {
                return Err(message);
            },
        };
        let field6 = match T6::from_json(&values[6]) {
            Ok(field) => field,
            Err(message) => {
                return Err(message);
            },
        };
        let field7 = match T7::from_json(&values[7]) {
            Ok(field) => field,
            Err(message) => {
                return Err(message);
            },
        };
        let field8 = match T8::from_json(&values[8]) {
            Ok(field) => field,
            Err(message) => {
                return Err(message);
            },
        };
        let field9 = match T9::from_json(&values[9]) {
            Ok(field) => field,
            Err(message) => {
                return Err(message);
            },
        };
        Ok((field0, field1, field2, field3, field4, field5, field6, field7, field8, field9, ))
    }

    fn default_node() -> (node: (T0, T1, T2, T3, T4, T5, T6, T7, T8, T9, )) {
        (T0::default_node(), T1::default_node(), T2::default_node(), T3::default_node(), T4::default_node(), T5::default_node(), T6::default_node(), T7::default_node(), T8::default_node(), T9::default_node(), )
    }
}

/// The laws of a tuple of 10, where they hold of its fields: reading changes
/// nothing, and a `set` that fails changes nothing.
pub proof fn lemma_tuple10_laws<T0: Node, T1: Node, T2: Node, T3: Node, T4: Node, T5: Node, T6: Node, T7: Node, T8: Node, T9: Node>()
    requires
        unchanged_by_reading::<T0>(),
        unchanged_by_reading::<T1>(),
        unchanged_by_reading::<T2>(),
        unchanged_by_reading::<T3>(),
        unchanged_by_reading::<T4>(),
        unchanged_by_reading::<T5>(),
        unchanged_by_reading::<T6>(),
        unchanged_by_reading::<T7>(),
        unchanged_by_reading::<T8>(),
        unchanged_by_reading::<T9>(),
    ensures
        unchanged_by_reading::<(T0, T1, T2, T3, T4, T5, T6, T7, T8, T9, )>(),
        set_fails_without_change::<(T0, T1, T2, T3, T4, T5, T6, T7, T8, T9, )>(),
{
    assert forall|node: (T0::Model, T1::Model, T2::Model, T3::Model, T4::Model, T5::Model, T6::Model, T7::Model, T8::Model, T9::Model, ), tokens: Seq<Token>, clipboard: ClipboardModel|
        reads(tokens) implies (#[trigger] <(T0, T1, T2, T3, T4, T5, T6, T7, T8, T9, )>::outcome(node, tokens, clipboard)).node == node
        && <(T0, T1, T2, T3, T4, T5, T6, T7, T8, T9, )>::outcome(node, tokens, clipboard).clipboard == clipboard by {
        if tokens.last().is_chain() {
            lemma_rest_reads(tokens);
        }
    }
    assert forall|node: (T0::Model, T1::Model, T2::Model, T3::Model, T4::Model, T5::Model, T6::Model, T7::Model, T8::Model, T9::Model, ), value: Seq<char>, clipboard: ClipboardModel|
        (#[trigger] <(T0, T1, T2, T3, T4, T5, T6, T7, T8, T9, )>::outcome(node, seq![Token::SetValue(value)], clipboard)).text.len()
            > 0 implies <(T0, T1, T2, T3, T4, T5, T6, T7, T8, T9, )>::outcome(node, seq![Token::SetValue(value)], clipboard).node
        == node by {
        assert(seq![Token::SetValue(value)].last() == Token::SetValue(value));
    }
}

/// A tuple of 10 is read back from the JSON list that is written for it, where
/// its fields are read back from their values.
pub proof fn lemma_tuple10_round_trips<T0: Node, T1: Node, T2: Node, T3: Node, T4: Node, T5: Node, T6: Node, T7: Node, T8: Node, T9: Node>(node: (T0::Model, T1::Model, T2::Model, T3::Model, T4::Model, T5::Model, T6::Model, T7::Model, T8::Model, T9::Model, ))
    requires
        round_trips::<T0>(node.0),
        round_trips::<T1>(node.1),
        round_trips::<T2>(node.2),
        round_trips::<T3>(node.3),
        round_trips::<T4>(node.4),
        round_trips::<T5>(node.5),
        round_trips::<T6>(node.6),
        round_trips::<T7>(node.7),
        round_trips::<T8>(node.8),
        round_trips::<T9>(node.9),
    ensures
        round_trips::<(T0, T1, T2, T3, T4, T5, T6, T7, T8, T9, )>(node),
{
}

/// The JSON list that stands for a tuple of 11: the value of each field, in order.
pub open spec fn tuple11_json<T0: Node, T1: Node, T2: Node, T3: Node, T4: Node, T5: Node, T6: Node, T7: Node, T8: Node, T9: Node, T10: Node>(node: (T0::Model, T1::Model, T2::Model, T3::Model, T4::Model, T5::Model, T6::Model, T7::Model, T8::Model, T9::Model, T10::Model, )) -> JsonModel {
    JsonModel::List(seq![T0::json(node.0), T1::json(node.1), T2::json(node.2), T3::json(node.3), T4::json(node.4), T5::json(node.5), T6::json(node.6), T7::json(node.7), T8::json(node.8), T9::json(node.9), T10::json(node.10)])
}

/// The tuple of 11 that a JSON value stands for: a list of 11 values, each of
/// which stands for the field at its place.
pub open spec fn tuple11_decoded<T0: Node, T1: Node, T2: Node, T3: Node, T4: Node, T5: Node, T6: Node, T7: Node, T8: Node, T9: Node, T10: Node>(value: JsonModel) -> Result<(T0::Model, T1::Model, T2::Model, T3::Model, T4::Model, T5::Model, T6::Model, T7::Model, T8::Model, T9::Model, T10::Model, ), Seq<char>> {
    match value {
        JsonModel::List(values) => if values.len() == 11 {
            match T0::decoded(values[0]) {
            Ok(field0) => match T1::decoded(values[1]) {
            Ok(field1) => match T2::decoded(values[2]) {
            Ok(field2) => match T3::decoded(values[3]) {
            Ok(field3) => match T4::decoded(values[4]) {
            Ok(field4) => match T5::decoded(values[5]) {
            Ok(field5) => match T6::decoded(values[6]) {
            Ok(field6) => match T7::decoded(values[7]) {
            Ok(field7) => match T8::decoded(values[8]) {
            Ok(field8) => match T9::decoded(values[9]) {
            Ok(field9) => match T10::decoded(values[10]) {
            Ok(field10) => Ok((field0, field1, field2, field3, field4, field5, field6, field7, field8, field9, field10, )),
            Err(message) => Err(message),
        },
            Err(message) => Err(message),
        },
            Err(message) => Err(message),
        },
            Err(message) => Err(message),
        },
            Err(message) => Err(message),
        },
            Err(message) => Err(message),
        },
            Err(message) => Err(message),
        },
            Err(message) => Err(message),
        },
            Err(message) => Err(message),
        },
            Err(message) => Err(message),
        },
            Err(message) => Err(message),
        }
        } else {
            Err(invalid_text("( T0 , T1 , T2 , T3 , T4 , T5 , T6 , T7 , T8 , T9 , T10 , )"@, "a list of 11 values"@))
        },
        _ => Err(invalid_text("( T0 , T1 , T2 , T3 , T4 , T5 , T6 , T7 , T8 , T9 , T10 , )"@, "a list of 11 values"@)),
    }
}

/// The tuple of 11 that the text `text` sets, or the message that says why it sets none.
pub open spec fn tuple11_set<T0: Node, T1: Node, T2: Node, T3: Node, T4: Node, T5: Node, T6: Node, T7: Node, T8: Node, T9: Node, T10: Node>(text: Seq<char>) -> Result<(T0::Model, T1::Model, T2::Model, T3::Model, T4::Model, T5::Model, T6::Model, T7::Model, T8::Model, T9::Model, T10::Model, ), Seq<char>> {
    match json_parsed(text) {
        Ok(value) => match tuple11_decoded::<T0, T1, T2, T3, T4, T5, T6, T7, T8, T9, T10>(value) {
            Ok(node) => Ok(node),
            Err(message) => Err("( T0 , T1 , T2 , T3 , T4 , T5 , T6 , T7 , T8 , T9 , T10 , )"@ + " set error: "@ + message),
        },
        Err(message) => Err("( T0 , T1 , T2 , T3 , T4 , T5 , T6 , T7 , T8 , T9 , T10 , )"@ + " set error: "@ + message),
    }
}

/// What a tuple of 11 makes of a command: `[i]` hands the command to the
/// field at `i`, `[*]` to every field in order; `get` writes the tuple as
/// JSON and `set` reads it from JSON.
pub open spec fn tuple11_outcome<T0: Node, T1: Node, T2: Node, T3: Node, T4: Node, T5: Node, T6: Node, T7: Node, T8: Node, T9: Node, T10: Node>(
    node: (T0::Model, T1::Model, T2::Model, T3::Model, T4::Model, T5::Model, T6::Model, T7::Model, T8::Model, T9::Model, T10::Model, ),
    tokens: Seq<Token>,
    clipboard: ClipboardModel,
) -> Outcome<(T0::Model, T1::Model, T2::Model, T3::Model, T4::Model, T5::Model, T6::Model, T7::Model, T8::Model, T9::Model, T10::Model, )> {
    let rest = tokens.drop_last();
    let unchanged = |text: Seq<char>| Outcome { text, node, clipboard };
    match tokens.last() {
        Token::ChainIndex(index) => if index == 0 {
            let one = T0::outcome(node.0, rest, clipboard);
            Outcome { text: one.text, node: (one.node, node.1, node.2, node.3, node.4, node.5, node.6, node.7, node.8, node.9, node.10, ), clipboard: one.clipboard }
        } else {
            if index == 1 {
            let one = T1::outcome(node.1, rest, clipboard);
            Outcome { text: one.text, node: (node.0, one.node, node.2, node.3, node.4, node.5, node.6, node.7, node.8, node.9, node.10, ), clipboard: one.clipboard }
        } else {
            if index == 2 {
            let one = T2::outcome(node.2, rest, clipboard);
            Outcome { text: one.text, node: (node.0, node.1, one.node, node.3, node.4, node.5, node.6, node.7, node.8, node.9, node.10, ), clipboard: one.clipboard }
        } else {
            if index == 3 {
            let one = T3::outcome(node.3, rest, clipboard);
            Outcome { text: one.text, node: (node.0, node.1, node.2, one.node, node.4, node.5, node.6, node.7, node.8, node.9, node.10, ), clipboard: one.clipboard }
        } else {
            if index == 4 {
            let one = T4::outcome(node.4, rest, clipboard);
            Outcome { text: one.text, node: (node.0, node.1, node.2, node.3, one.node, node.5, node.6, node.7, node.8, node.9, node.10, ), clipboard: one.clipboard }
        } else {
            if index == 5 {
            let one = T5::outcome(node.5, rest, clipboard);
            Outcome { text: one.text, node: (node.0, node.1, node.2, node.3, node.4, one.node, node.6, node.7, node.8, node.9, node.10, ), clipboard: one.clipboard }
        } else {
            if index == 6 {
            let one = T6::outcome(node.6, rest, clipboard);
            Outcome { text: one.text, node: (node.0, node.1, node.2, node.3, node.4, node.5, one.node, node.7, node.8, node.9, node.10, ), clipboard: one.clipboard }
        } else {
            if index == 7 {
            let one = T7::outcome(node.7, rest, clipboard);
            Outcome { text: one.text, node: (node.0, node.1, node.2, node.3, node.4, node.5, node.6, one.node, node.8, node.9, node.10, ), clipboard: one.clipboard }
        } else {
            if index == 8 {
            let one = T8::outcome(node.8, rest, clipboard);
            Outcome { text: one.text, node: (node.0, node.1, node.2, node.3, node.4, node.5, node.6, node.7, one.node, node.9, node.10, ), clipboard: one.clipboard }
        } else {
            if index == 9 {
            let one = T9::outcome(node.9, rest, clipboard);
            Outcome { text: one.text, node: (node.0, node.1, node.2, node.3, node.4, node.5, node.6, node.7, node.8, one.node, node.10, ), clipboard: one.clipboard }
        } else {
            if index == 10 {
            let one = T10::outcome(node.10, rest, clipboard);
            Outcome { text: one.text, node: (node.0, node.1, node.2, node.3, node.4, node.5, node.6, node.7, node.8, node.9, one.node, ), clipboard: one.clipboard }
        } else {
            unchanged("Used index "@ + decimal_text(index as int) + " on a "@ + "( T0 , T1 , T2 , T3 , T4 , T5 , T6 , T7 , T8 , T9 , T10 , )"@)
        }
        }
        }
        }
        }
        }
        }
        }
        }
        }
        },
        Token::ChainAll => {
            let step0 = T0::outcome(node.0, rest, clipboard);
            let step1 = T1::outcome(node.1, rest, step0.clipboard);
            let step2 = T2::outcome(node.2, rest, step1.clipboard);
            let step3 = T3::outcome(node.3, rest, step2.clipboard);
            let step4 = T4::outcome(node.4, rest, step3.clipboard);
            let step5 = T5::outcome(node.5, rest, step4.clipboard);
            let step6 = T6::outcome(node.6, rest, step5.clipboard);
            let step7 = T7::outcome(node.7, rest, step6.clipboard);
            let step8 = T8::outcome(node.8, rest, step7.clipboard);
            let step9 = T9::outcome(node.9, rest, step8.clipboard);
            let step10 = T10::outcome(node.10, rest, step9.clipboard);
            Outcome {
                text: "|"@ + step0.text + "|"@ + step1.text + "|"@ + step2.text + "|"@ + step3.text + "|"@ + step4.text + "|"@ + step5.text + "|"@ + step6.text + "|"@ + step7.text + "|"@ + step8.text + "|"@ + step9.text + "|"@ + step10.text + "|"@,
                node: (step0.node, step1.node, step2.node, step3.node, step4.node, step5.node, step6.node, step7.node, step8.node, step9.node, step10.node, ),
                clipboard: step10.clipboard,
            }
        },
        Token::Get => unchanged(json_pretty_text(tuple11_json::<T0, T1, T2, T3, T4, T5, T6, T7, T8, T9, T10>(node))),
        Token::SetValue(value) => match tuple11_set::<T0, T1, T2, T3, T4, T5, T6, T7, T8, T9, T10>(value) {
            Ok(node) => Outcome { text: Seq::empty(), node, clipboard },
            Err(message) => unchanged(message),
        },
        Token::Help => unchanged(tuple_help()),
        token => unchanged(cannot_text("( T0 , T1 , T2 , T3 , T4 , T5 , T6 , T7 , T8 , T9 , T10 , )"@, token)),
    }
}

impl<T0: Node, T1: Node, T2: Node, T3: Node, T4: Node, T5: Node, T6: Node, T7: Node, T8: Node, T9: Node, T10: Node> Node for (T0, T1, T2, T3, T4, T5, T6, T7, T8, T9, T10, ) {
    type Model = (T0::Model, T1::Model, T2::Model, T3::Model, T4::Model, T5::Model, T6::Model, T7::Model, T8::Model, T9::Model, T10::Model, );

    open spec fn model(&self) -> (T0::Model, T1::Model, T2::Model, T3::Model, T4::Model, T5::Model, T6::Model, T7::Model, T8::Model, T9::Model, T10::Model, ) {
        (self.0.model(), self.1.model(), self.2.model(), self.3.model(), self.4.model(), self.5.model(), self.6.model(), self.7.model(), self.8.model(), self.9.model(), self.10.model(), )
    }

    open spec fn outcome(node: (T0::Model, T1::Model, T2::Model, T3::Model, T4::Model, T5::Model, T6::Model, T7::Model, T8::Model, T9::Model, T10::Model, ), tokens: Seq<Token>, clipboard: ClipboardModel) -> Outcome<
        (T0::Model, T1::Model, T2::Model, T3::Model, T4::Model, T5::Model, T6::Model, T7::Model, T8::Model, T9::Model, T10::Model, ),
    > {
        tuple11_outcome::<T0, T1, T2, T3, T4, T5, T6, T7, T8, T9, T10>(node, tokens, clipboard)
    }

    open spec fn json(node: (T0::Model, T1::Model, T2::Model, T3::Model, T4::Model, T5::Model, T6::Model, T7::Model, T8::Model, T9::Model, T10::Model, )) -> JsonModel {
        tuple11_json::<T0, T1, T2, T3, T4, T5, T6, T7, T8, T9, T10>(node)
    }

    open spec fn decoded(value: JsonModel) -> Result<(T0::Model, T1::Model, T2::Model, T3::Model, T4::Model, T5::Model, T6::Model, T7::Model, T8::Model, T9::Model, T10::Model, ), Seq<char>> {
        tuple11_decoded::<T0, T1, T2, T3, T4, T5, T6, T7, T8, T9, T10>(value)
    }

    open spec fn default_model() -> (T0::Model, T1::Model, T2::Model, T3::Model, T4::Model, T5::Model, T6::Model, T7::Model, T8::Model, T9::Model, T10::Model, ) {
        (T0::default_model(), T1::default_model(), T2::default_model(), T3::default_model(), T4::default_model(), T5::default_model(), T6::default_model(), T7::default_model(), T8::default_model(), T9::default_model(), T10::default_model(), )
    }

    fn node_step_with(&mut self, runner: NodeRunner, clipboard: &mut Clipboard) -> (text: String) {
        let mut runner = runner;
        let ghost tokens = runner@;
        let token = runner.step();
        proof {
            if token@.is_chain() {
                lemma_rest_well_formed(tokens);
            }
            assert(Self::outcome(old(self).model(), tokens, old(clipboard)@) == tuple11_outcome::<
                T0, T1, T2, T3, T4, T5, T6, T7, T8, T9, T10,
            >(old(self).model(), tokens, old(clipboard)@));
        }
        match token {
            NodeToken::ChainIndex(index) => {
                match index {
                    0 => self.0.node_step_with(runner, clipboard),
                    1 => self.1.node_step_with(runner, clipboard),
                    2 => self.2.node_step_with(runner, clipboard),
                    3 => self.3.node_step_with(runner, clipboard),
                    4 => self.4.node_step_with(runner, clipboard),
                    5 => self.5.node_step_with(runner, clipboard),
                    6 => self.6.node_step_with(runner, clipboard),
                    7 => self.7.node_step_with(runner, clipboard),
                    8 => self.8.node_step_with(runner, clipboard),
                    9 => self.9.node_step_with(runner, clipboard),
                    10 => self.10.node_step_with(runner, clipboard),
                    _ => {
                        let mut text = String::from_str("Used index ");
                        text.append(format_integer(index as i128).as_str());
                        text.append(" on a ");
                        text.append("( T0 , T1 , T2 , T3 , T4 , T5 , T6 , T7 , T8 , T9 , T10 , )");
                        text
                    },
                }
            },
            NodeToken::ChainAll => {
                let mut combined = String::from_str("|");
                combined.append(self.0.node_step_with(runner.duplicate(), clipboard).as_str());
                combined.append("|");
                combined.append(self.1.node_step_with(runner.duplicate(), clipboard).as_str());
                combined.append("|");
                combined.append(self.2.node_step_with(runner.duplicate(), clipboard).as_str());
                combined.append("|");
                combined.append(self.3.node_step_with(runner.duplicate(), clipboard).as_str());
                combined.append("|");
                combined.append(self.4.node_step_with(runner.duplicate(), clipboard).as_str());
                combined.append("|");
                combined.append(self.5.node_step_with(runner.duplicate(), clipboard).as_str());
                combined.append("|");
                combined.append(self.6.node_step_with(runner.duplicate(), clipboard).as_str());
                combined.append("|");
                combined.append(self.7.node_step_with(runner.duplicate(), clipboard).as_str());
                combined.append("|");
                combined.append(self.8.node_step_with(runner.duplicate(), clipboard).as_str());
                combined.append("|");
                combined.append(self.9.node_step_with(runner.duplicate(), clipboard).as_str());
                combined.append("|");
                combined.append(self.10.node_step_with(runner.duplicate(), clipboard).as_str());
                combined.append("|");
                combined
            },
            NodeToken::Get => {
                let value = self.to_json();
                json_pretty(&value)
            },
            NodeToken::SetValue(value) => {
                match json_parse(value.as_str()) {
                    Ok(json) => match Self::from_json(&json) {
                        Ok(node) => {
                            *self = node;
                            String::new()
                        },
                        Err(message) => set_error("( T0 , T1 , T2 , T3 , T4 , T5 , T6 , T7 , T8 , T9 , T10 , )", message.as_str()),
                    },
                    Err(message) => set_error("( T0 , T1 , T2 , T3 , T4 , T5 , T6 , T7 , T8 , T9 , T10 , )", message.as_str()),
                }
            },
            NodeToken::Help => String::from_str(
                "\nTuple Help\n\nCommands:\n*   help - display this help\n*   get  - display JSON\n*   set  - set to JSON\n\nAccessors:\n*   [index] - access item at index",
            ),
            action => cannot("( T0 , T1 , T2 , T3 , T4 , T5 , T6 , T7 , T8 , T9 , T10 , )", &action),
        }
    }

    fn to_json(&self) -> (value: serde_json::Value) {
        proof {
            assert(Self::json(self.model()) == tuple11_json::<T0, T1, T2, T3, T4, T5, T6, T7, T8, T9, T10>(self.model()));
        }
        let mut values: Vec<serde_json::Value> = Vec::new();
        values.push(self.0.to_json());
        values.push(self.1.to_json());
        values.push(self.2.to_json());
        values.push(self.3.to_json());
        values.push(self.4.to_json());
        values.push(self.5.to_json());
        values.push(self.6.to_json());
        values.push(self.7.to_json());
        values.push(self.8.to_json());
        values.push(self.9.to_json());
        values.push(self.10.to_json());
        assert(json_views(values@) =~= seq![T0::json(self.0.model()), T1::json(self.1.model()), T2::json(self.2.model()), T3::json(self.3.model()), T4::json(self.4.model()), T5::json(self.5.model()), T6::json(self.6.model()), T7::json(self.7.model()), T8::json(self.8.model()), T9::json(self.9.model()), T10::json(self.10.model())]);
        json_from_list(values)
    }

    fn from_json(value: &serde_json::Value) -> (result: Result<(T0, T1, T2, T3, T4, T5, T6, T7, T8, T9, T10, ), String>) {
        proof {
            assert(Self::decoded(json_view(*value)) == tuple11_decoded::<T0, T1, T2, T3, T4, T5, T6, T7, T8, T9, T10>(
                json_view(*value),
            ));
        }
        let values = match json_as_list(value) {
            Some(values) => values,
            None => {
                return Err(invalid("( T0 , T1 , T2 , T3 , T4 , T5 , T6 , T7 , T8 , T9 , T10 , )", "a list of 11 values"));
            },
        };
        if values.len() != 11 {
            return Err(invalid("( T0 , T1 , T2 , T3 , T4 , T5 , T6 , T7 , T8 , T9 , T10 , )", "a list of 11 values"));
        }
        proof {
            assert(forall|i: int| 0 <= i < 11 ==> json_views(values@)[i] == json_view(values@[i]));
        }
        let field0 = match T0::from_json(&values[0]) {
            Ok(field) => field,
            Err(message) => {
                return Err(message);
            },
        };
        let field1 = match T1::from_json(&values[1]) {
            Ok(field) => field,
            Err(message) => {
                return Err(message);
            },
        };
        let field2 = match T2::from_json(&values[2]) {
            Ok(field) => field,
            Err(message) => {
                return Err(message);
            },
        };
        let field3 = match T3::from_json(&values[3]) {
            Ok(field) => field,
            Err(message) => {
                return Err(message);
            },
        };
        let field4 = match T4::from_json(&values[4]) {
            Ok(field) => field,
            Err(message) => {
                return Err(message);
            },
        };
        let field5 = match T5::from_json(&values[5]) {
            Ok(field) => field,
            Err(message) => {
                return Err(message);
            },
        };
        let field6 = match T6::from_json(&values[6]) {
            Ok(field) => field,
            Err(message) => {
                return Err(message);
            },
        };
        let field7 = match T7::from_json(&values[7]) {
            Ok(field) => field,
            Err(message) => {
                return Err(message);
            },
        };
        let field8 = match T8::from_json(&values[8]) {
            Ok(field) => field,
            Err(message) => {
                return Err(message);
            },
        };
        let field9 = match T9::from_json(&values[9]) {
            Ok(field) => field,
            Err(message) => {
                return Err(message);
            },
        };
        let field10 = match T10::from_json(&values[10]) {
            Ok(field) => field,
            Err(message) => {
                return Err(message);
            },
        };
        Ok((field0, field1, field2, field3, field4, field5, field6, field7, field8, field9, field10, ))
    }

    fn default_node() -> (node: (T0, T1, T2, T3, T4, T5, T6, T7, T8, T9, T10, )) {
        (T0::default_node(), T1::default_node(), T2::default_node(), T3::default_node(), T4::default_node(), T5::default_node(), T6::default_node(), T7::default_node(), T8::default_node(), T9::default_node(), T10::default_node(), )
    }
}

/// The laws of a tuple of 11, where they hold of its fields: reading changes
/// nothing, and a `set` that fails changes nothing.
pub proof fn lemma_tuple11_laws<T0: Node, T1: Node, T2: Node, T3: Node, T4: Node, T5: Node, T6: Node, T7: Node, T8: Node, T9: Node, T10: Node>()
    requires
        unchanged_by_reading::<T0>(),
        unchanged_by_reading::<T1>(),
        unchanged_by_reading::<T2>(),
        unchanged_by_reading::<T3>(),
        unchanged_by_reading::<T4>(),
        unchanged_by_reading::<T5>(),
        unchanged_by_reading::<T6>(),
        unchanged_by_reading::<T7>(),
        unchanged_by_reading::<T8>(),
        unchanged_by_reading::<T9>(),
        unchanged_by_reading::<T10>(),
    ensures
        unchanged_by_reading::<(T0, T1, T2, T3, T4, T5, T6, T7, T8, T9, T10, )>(),
        set_fails_without_change::<(T0, T1, T2, T3, T4, T5, T6, T7, T8, T9, T10, )>(),
{
    assert forall|node: (T0::Model, T1::Model, T2::Model, T3::Model, T4::Model, T5::Model, T6::Model, T7::Model, T8::Model, T9::Model, T10::Model, ), tokens: Seq<Token>, clipboard: ClipboardModel|
        reads(tokens) implies (#[trigger] <(T0, T1, T2, T3, T4, T5, T6, T7, T8, T9, T10, )>::outcome(node, tokens, clipboard)).node == node
        && <(T0, T1, T2, T3, T4, T5, T6, T7, T8, T9, T10, )>::outcome(node, tokens, clipboard).clipboard == clipboard by {
        if tokens.last().is_chain() {
            lemma_rest_reads(tokens);
        }
    }
    assert forall|node: (T0::Model, T1::Model, T2::Model, T3::Model, T4::Model, T5::Model, T6::Model, T7::Model, T8::Model, T9::Model, T10::Model, ), value: Seq<char>, clipboard: ClipboardModel|
        (#[trigger] <(T0, T1, T2, T3, T4, T5, T6, T7, T8, T9, T10, )>::outcome(node, seq![Token::SetValue(value)], clipboard)).text.len()
            > 0 implies <(T0, T1, T2, T3, T4, T5, T6, T7, T8, T9, T10, )>::outcome(node, seq![Token::SetValue(value)], clipboard).node
        == node by {
        assert(seq![Token::SetValue(value)].last() == Token::SetValue(value));
    }
}

/// A tuple of 11 is read back from the JSON list that is written for it, where
/// its fields are read back from their values.
pub proof fn lemma_tuple11_round_trips<T0: Node, T1: Node, T2: Node, T3: Node, T4: Node, T5: Node, T6: Node, T7: Node, T8: Node, T9: Node, T10: Node>(node: (T0::Model, T1::Model, T2::Model, T3::Model, T4::Model, T5::Model, T6::Model, T7::Model, T8::Model, T9::Model, T10::Model, ))
    requires
        round_trips::<T0>(node.0),
        round_trips::<T1>(node.1),
        round_trips::<T2>(node.2),
        round_trips::<T3>(node.3),
        round_trips::<T4>(node.4),
        round_trips::<T5>(node.5),
        round_trips::<T6>(node.6),
        round_trips::<T7>(node.7),
        round_trips::<T8>(node.8),
        round_trips::<T9>(node.9),
        round_trips::<T10>(node.10),
    ensures
        round_trips::<(T0, T1, T2, T3, T4, T5, T6, T7, T8, T9, T10, )>(node),
{
}

/// The JSON list that stands for a tuple of 12: the value of each field, in order.
pub open spec fn tuple12_json<T0: Node, T1: Node, T2: Node, T3: Node, T4: Node, T5: Node, T6: Node, T7: Node, T8: Node, T9: Node, T10: Node, T11: Node>(node: (T0::Model, T1::Model, T2::Model, T3::Model, T4::Model, T5::Model, T6::Model, T7::Model, T8::Model, T9::Model, T10::Model, T11::Model, )) -> JsonModel {
    JsonModel::List(seq![T0::json(node.0), T1::json(node.1), T2::json(node.2), T3::json(node.3), T4::json(node.4), T5::json(node.5), T6::json(node.6), T7::json(node.7), T8::json(node.8), T9::json(node.9), T10::json(node.10), T11::json(node.11)])
}

/// The tuple of 12 that a JSON value stands for: a list of 12 values, each of
/// which stands for the field at its place.
pub open spec fn tuple12_decoded<T0: Node, T1: Node, T2: Node, T3: Node, T4: Node, T5: Node, T6: Node, T7: Node, T8: Node, T9: Node, T10: Node, T11: Node>(value: JsonModel) -> Result<(T0::Model, T1::Model, T2::Model, T3::Model, T4::Model, T5::Model, T6::Model, T7::Model, T8::Model, T9::Model, T10::Model, T11::Model, ), Seq<char>> {
    match value {
        JsonModel::List(values) => if values.len() == 12 {
            match T0::decoded(values[0]) {
            Ok(field0) => match T1::decoded(values[1]) {
            Ok(field1) => match T2::decoded(values[2]) {
            Ok(field2) => match T3::decoded(values[3]) {
            Ok(field3) => match T4::decoded(values[4]) {
            Ok(field4) => match T5::decoded(values[5]) {
            Ok(field5) => match T6::decoded(values[6]) {
            Ok(field6) => match T7::decoded(values[7]) {
            Ok(field7) => match T8::decoded(values[8]) {
            Ok(field8) => match T9::decoded(values[9]) {
            Ok(field9) => match T10::decoded(values[10]) {
            Ok(field10) => match T11::decoded(values[11]) {
            Ok(field11) => Ok((field0, field1, field2, field3, field4, field5, field6, field7, field8, field9, field10, field11, )),
            Err(message) => Err(message),
        },
            Err(message) => Err(message),
        },
            Err(message) => Err(message),
        },
            Err(message) => Err(message),
        },
            Err(message) => Err(message),
        },
            Err(message) => Err(message),
        },
            Err(message) => Err(message),
        },
            Err(message) => Err(message),
        },
            Err(message) => Err(message),
        },
            Err(message) => Err(message),
        },
            Err(message) => Err(message),
        },
            Err(message) => Err(message),
        }
        } else {
            Err(invalid_text("( T0 , T1 , T2 , T3 , T4 , T5 , T6 , T7 , T8 , T9 , T10 , T11 , )"@, "a list of 12 values"@))
        },
        _ => Err(invalid_text("( T0 , T1 , T2 , T3 , T4 , T5 , T6 , T7 , T8 , T9 , T10 , T11 , )"@, "a list of 12 values"@)),
    }
}

/// The tuple of 12 that the text `text` sets, or the message that says why it sets none.
pub open spec fn tuple12_set<T0: Node, T1: Node, T2: Node, T3: Node, T4: Node, T5: Node, T6: Node, T7: Node, T8: Node, T9: Node, T10: Node, T11: Node>(text: Seq<char>) -> Result<(T0::Model, T1::Model, T2::Model, T3::Model, T4::Model, T5::Model, T6::Model, T7::Model, T8::Model, T9::Model, T10::Model, T11::Model, ), Seq<char>> {
    match json_parsed(text) {
        Ok(value) => match tuple12_decoded::<T0, T1, T2, T3, T4, T5, T6, T7, T8, T9, T10, T11>(value) {
            Ok(node) => Ok(node),
            Err(message) => Err("( T0 , T1 , T2 , T3 , T4 , T5 , T6 , T7 , T8 , T9 , T10 , T11 , )"@ + " set error: "@ + message),
        },
        Err(message) => Err("( T0 , T1 , T2 , T3 , T4 , T5 , T6 , T7 , T8 , T9 , T10 , T11 , )"@ + " set error: "@ + message),
    }
}

/// What a tuple of 12 makes of a command: `[i]` hands the command to the
/// field at `i`, `[*]` to every field in order; `get` writes the tuple as
/// JSON and `set` reads it from JSON.
pub open spec fn tuple12_outcome<T0: Node, T1: Node, T2: Node, T3: Node, T4: Node, T5: Node, T6: Node, T7: Node, T8: Node, T9: Node, T10: Node, T11: Node>(
    node: (T0::Model, T1::Model, T2::Model, T3::Model, T4::Model, T5::Model, T6::Model, T7::Model, T8::Model, T9::Model, T10::Model, T11::Model, ),
    tokens: Seq<Token>,
    clipboard: ClipboardModel,
) -> Outcome<(T0::Model, T1::Model, T2::Model, T3::Model, T4::Model, T5::Model, T6::Model, T7::Model, T8::Model, T9::Model, T10::Model, T11::Model, )> {
    let rest = tokens.drop_last();
    let unchanged = |text: Seq<char>| Outcome { text, node, clipboard };
    match tokens.last() {
        Token::ChainIndex(index) => if index == 0 {
            let one = T0::outcome(node.0, rest, clipboard);
            Outcome { text: one.text, node: (one.node, node.1, node.2, node.3, node.4, node.5, node.6, node.7, node.8, node.9, node.10, node.11, ), clipboard: one.clipboard }
        } else {
            if index == 1 {
            let one = T1::outcome(node.1, rest, clipboard);
            Outcome { text: one.text, node: (node.0, one.node, node.2, node.3, node.4, node.5, node.6, node.7, node.8, node.9, node.10, node.11, ), clipboard: one.clipboard }
        } else {
            if index == 2 {
            let one = T2::outcome(node.2, rest, clipboard);
            Outcome { text: one.text, node: (node.0, node.1, one.node, node.3, node.4, node.5, node.6, node.7, node.8, node.9, node.10, node.11, ), clipboard: one.clipboard }
        } else {
            if index == 3 {
            let one = T3::outcome(node.3, rest, clipboard);
            Outcome { text: one.text, node: (node.0, node.1, node.2, one.node, node.4, node.5, node.6, node.7, node.8, node.9, node.10, node.11, ), clipboard: one.clipboard }
        } else {
            if index == 4 {
            let one = T4::outcome(node.4, rest, clipboard);
            Outcome { text: one.text, node: (node.0, node.1, node.2, node.3, one.node, node.5, node.6, node.7, node.8, node.9, node.10, node.11, ), clipboard: one.clipboard }
        } else {
            if index == 5 {
            let one = T5::outcome(node.5, rest, clipboard);
            Outcome { text: one.text, node: (node.0, node.1, node.2, node.3, node.4, one.node, node.6, node.7, node.8, node.9, node.10, node.11, ), clipboard: one.clipboard }
        } else {
            if index == 6 {
            let one = T6::outcome(node.6, rest, clipboard);
            Outcome { text: one.text, node: (node.0, node.1, node.2, node.3, node.4, node.5, one.node, node.7, node.8, node.9, node.10, node.11, ), clipboard: one.clipboard }
        } else {
            if index == 7 {
            let one = T7::outcome(node.7, rest, clipboard);
            Outcome { text: one.text, node: (node.0, node.1, node.2, node.3, node.4, node.5, node.6, one.node, node.8, node.9, node.10, node.11, ), clipboard: one.clipboard }
        } else {
            if index == 8 {
            let one = T8::outcome(node.8, rest, clipboard);
            Outcome { text: one.text, node: (node.0, node.1, node.2, node.3, node.4, node.5, node.6, node.7, one.node, node.9, node.10, node.11, ), clipboard: one.clipboard }
        } else {
            if index == 9 {
            let one = T9::outcome(node.9, rest, clipboard);
            Outcome { text: one.text, node: (node.0, node.1, node.2, node.3, node.4, node.5, node.6, node.7, node.8, one.node, node.10, node.11, ), clipboard: one.clipboard }
        } else {
            if index == 10 {
            let one = T10::outcome(node.10, rest, clipboard);
            Outcome { text: one.text, node: (node.0, node.1, node.2, node.3, node.4, node.5, node.6, node.7, node.8, node.9, one.node, node.11, ), clipboard: one.clipboard }
        } else {
            if index == 11 {
            let one = T11::outcome(node.11, rest, clipboard);
            Outcome { text: one.text, node: (node.0, node.1, node.2, node.3, node.4, node.5, node.6, node.7, node.8, node.9, node.10, one.node, ), clipboard: one.clipboard }
        } else {
            unchanged("Used index "@ + decimal_text(index as int) + " on a "@ + "( T0 , T1 , T2 , T3 , T4 , T5 , T6 , T7 , T8 , T9 , T10 , T11 , )"@)
        }
        }
        }
        }
        }
        }
        }
        }
        }
        }
        }
        },
        Token::ChainAll => {
            let step0 = T0::outcome(node.0, rest, clipboard);
            let step1 = T1::outcome(node.1, rest, step0.clipboard);
            let step2 = T2::outcome(node.2, rest, step1.clipboard);
            let step3 = T3::outcome(node.3, rest, step2.clipboard);
            let step4 = T4::outcome(node.4, rest, step3.clipboard);
            let step5 = T5::outcome(node.5, rest, step4.clipboard);
            let step6 = T6::outcome(node.6, rest, step5.clipboard);
            let step7 = T7::outcome(node.7, rest, step6.clipboard);
            let step8 = T8::outcome(node.8, rest, step7.clipboard);
            let step9 = T9::outcome(node.9, rest, step8.clipboard);
            let step10 = T10::outcome(node.10, rest, step9.clipboard);
            let step11 = T11::outcome(node.11, rest, step10.clipboard);
            Outcome {
                text: "|"@ + step0.text + "|"@ + step1.text + "|"@ + step2.text + "|"@ + step3.text + "|"@ + step4.text + "|"@ + step5.text + "|"@ + step6.text + "|"@ + step7.text + "|"@ + step8.text + "|"@ + step9.text + "|"@ + step10.text + "|"@ + step11.text + "|"@,
                node: (step0.node, step1.node, step2.node, step3.node, step4.node, step5.node, step6.node, step7.node, step8.node, step9.node, step10.node, step11.node, ),
                clipboard: step11.clipboard,
            }
        },
        Token::Get => unchanged(json_pretty_text(tuple12_json::<T0, T1, T2, T3, T4, T5, T6, T7, T8, T9, T10, T11>(node))),
        Token::SetValue(value) => match tuple12_set::<T0, T1, T2, T3, T4, T5, T6, T7, T8, T9, T10, T11>(value) {
            Ok(node) => Outcome { text: Seq::empty(), node, clipboard },
            Err(message) => unchanged(message),
        },
        Token::Help => unchanged(tuple_help()),
        token => unchanged(cannot_text("( T0 , T1 , T2 , T3 , T4 , T5 , T6 , T7 , T8 , T9 , T10 , T11 , )"@, token)),
    }
}

impl<T0: Node, T1: Node, T2: Node, T3: Node, T4: Node, T5: Node, T6: Node, T7: Node, T8: Node, T9: Node, T10: Node, T11: Node> Node for (T0, T1, T2, T3, T4, T5, T6, T7, T8, T9, T10, T11, ) {
    type Model = (T0::Model, T1::Model, T2::Model, T3::Model, T4::Model, T5::Model, T6::Model, T7::Model, T8::Model, T9::Model, T10::Model, T11::Model, );

    open spec fn model(&self) -> (T0::Model, T1::Model, T2::Model, T3::Model, T4::Model, T5::Model, T6::Model, T7::Model, T8::Model, T9::Model, T10::Model, T11::Model, ) {
        (self.0.model(), self.1.model(), self.2.model(), self.3.model(), self.4.model(), self.5.model(), self.6.model(), self.7.model(), self.8.model(), self.9.model(), self.10.model(), self.11.model(), )
    }

    open spec fn outcome(node: (T0::Model, T1::Model, T2::Model, T3::Model, T4::Model, T5::Model, T6::Model, T7::Model, T8::Model, T9::Model, T10::Model, T11::Model, ), tokens: Seq<Token>, clipboard: ClipboardModel) -> Outcome<
        (T0::Model, T1::Model, T2::Model, T3::Model, T4::Model, T5::Model, T6::Model, T7::Model, T8::Model, T9::Model, T10::Model, T11::Model, ),
    > {
        tuple12_outcome::<T0, T1, T2, T3, T4, T5, T6, T7, T8, T9, T10, T11>(node, tokens, clipboard)
    }

    open spec fn json(node: (T0::Model, T1::Model, T2::Model, T3::Model, T4::Model, T5::Model, T6::Model, T7::Model, T8::Model, T9::Model, T10::Model, T11::Model, )) -> JsonModel {
        tuple12_json::<T0, T1, T2, T3, T4, T5, T6, T7, T8, T9, T10, T11>(node)
    }

    open spec fn decoded(value: JsonModel) -> Result<(T0::Model, T1::Model, T2::Model, T3::Model, T4::Model, T5::Model, T6::Model, T7::Model, T8::Model, T9::Model, T10::Model, T11::Model, ), Seq<char>> {
        tuple12_decoded::<T0, T1, T2, T3, T4, T5, T6, T7, T8, T9, T10, T11>(value)
    }

    open spec fn default_model() -> (T0::Model, T1::Model, T2::Model, T3::Model, T4::Model, T5::Model, T6::Model, T7::Model, T8::Model, T9::Model, T10::Model, T11::Model, ) {
        (T0::default_model(), T1::default_model(), T2::default_model(), T3::default_model(), T4::default_model(), T5::default_model(), T6::default_model(), T7::default_model(), T8::default_model(), T9::default_model(), T10::default_model(), T11::default_model(), )
    }

    fn node_step_with(&mut self, runner: NodeRunner, clipboard: &mut Clipboard) -> (text: String) {
        let mut runner = runner;
        let ghost tokens = runner@;
        let token = runner.step();
        proof {
            if token@.is_chain() {
                lemma_rest_well_formed(tokens);
            }
            assert(Self::outcome(old(self).model(), tokens, old(clipboard)@) == tuple12_outcome::<
                T0, T1, T2, T3, T4, T5, T6, T7, T8, T9, T10, T11,
            >(old(self).model(), tokens, old(clipboard)@));
        }
        match token {
            NodeToken::ChainIndex(index) => {
                match index {
                    0 => self.0.node_step_with(runner, clipboard),
                    1 => self.1.node_step_with(runner, clipboard),
                    2 => self.2.node_step_with(runner, clipboard),
                    3 => self.3.node_step_with(runner, clipboard),
                    4 => self.4.node_step_with(runner, clipboard),
                    5 => self.5.node_step_with(runner, clipboard),
                    6 => self.6.node_step_with(runner, clipboard),
                    7 => self.7.node_step_with(runner, clipboard),
                    8 => self.8.node_step_with(runner, clipboard),
                    9 => self.9.node_step_with(runner, clipboard),
                    10 => self.10.node_step_with(runner, clipboard),
                    11 => self.11.node_step_with(runner, clipboard),
                    _ => {
                        let mut text = String::from_str("Used index ");
                        text.append(format_integer(index as i128).as_str());
                        text.append(" on a ");
                        text.append("( T0 , T1 , T2 , T3 , T4 , T5 , T6 , T7 , T8 , T9 , T10 , T11 , )");
                        text
                    },
                }
            },
            NodeToken::ChainAll => {
                let mut combined = String::from_str("|");
                combined.append(self.0.node_step_with(runner.duplicate(), clipboard).as_str());
                combined.append("|");
                combined.append(self.1.node_step_with(runner.duplicate(), clipboard).as_str());
                combined.append("|");
                combined.append(self.2.node_step_with(runner.duplicate(), clipboard).as_str());
                combined.append("|");
                combined.append(self.3.node_step_with(runner.duplicate(), clipboard).as_str());
                combined.append("|");
                combined.append(self.4.node_step_with(runner.duplicate(), clipboard).as_str());
                combined.append("|");
                combined.append(self.5.node_step_with(runner.duplicate(), clipboard).as_str());
                combined.append("|");
                combined.append(self.6.node_step_with(runner.duplicate(), clipboard).as_str());
                combined.append("|");
                combined.append(self.7.node_step_with(runner.duplicate(), clipboard).as_str());
                combined.append("|");
                combined.append(self.8.node_step_with(runner.duplicate(), clipboard).as_str());
                combined.append("|");
                combined.append(self.9.node_step_with(runner.duplicate(), clipboard).as_str());
                combined.append("|");
                combined.append(self.10.node_step_with(runner.duplicate(), clipboard).as_str());
                combined.append("|");
                combined.append(self.11.node_step_with(runner.duplicate(), clipboard).as_str());
                combined.append("|");
                combined
            },
            NodeToken::Get => {
                let value = self.to_json();
                json_pretty(&value)
            },
            NodeToken::SetValue(value) => {
                match json_parse(value.as_str()) {
                    Ok(json) => match Self::from_json(&json) {
                        Ok(node) => {
                            *self = node;
                            String::new()
                        },
                        Err(message) => set_error("( T0 , T1 , T2 , T3 , T4 , T5 , T6 , T7 , T8 , T9 , T10 , T11 , )", message.as_str()),
                    },
                    Err(message) => set_error("( T0 , T1 , T2 , T3 , T4 , T5 , T6 , T7 , T8 , T9 , T10 , T11 , )", message.as_str()),
                }
            },
            NodeToken::Help => String::from_str(
                "\nTuple Help\n\nCommands:\n*   help - display this help\n*   get  - display JSON\n*   set  - set to JSON\n\nAccessors:\n*   [index] - access item at index",
            ),
            action => cannot("( T0 , T1 , T2 , T3 , T4 , T5 , T6 , T7 , T8 , T9 , T10 , T11 , )", &action),
        }
    }

    fn to_json(&self) -> (value: serde_json::Value) {
        proof {
            assert(Self::json(self.model()) == tuple12_json::<T0, T1, T2, T3, T4, T5, T6, T7, T8, T9, T10, T11>(self.model()));
        }
        let mut values: Vec<serde_json::Value> = Vec::new();
        values.push(self.0.to_json());
        values.push(self.1.to_json());
        values.push(self.2.to_json());
        values.push(self.3.to_json());
        values.push(self.4.to_json());
        values.push(self.5.to_json());
        values.push(self.6.to_json());
        values.push(self.7.to_json());
        values.push(self.8.to_json());
        values.push(self.9.to_json());
        values.push(self.10.to_json());
        values.push(self.11.to_json());
        assert(json_views(values@) =~= seq![T0::json(self.0.model()), T1::json(self.1.model()), T2::json(self.2.model()), T3::json(self.3.model()), T4::json(self.4.model()), T5::json(self.5.model()), T6::json(self.6.model()), T7::json(self.7.model()), T8::json(self.8.model()), T9::json(self.9.model()), T10::json(self.10.model()), T11::json(self.11.model())]);
        json_from_list(values)
    }

    fn from_json(value: &serde_json::Value) -> (result: Result<(T0, T1, T2, T3, T4, T5, T6, T7, T8, T9, T10, T11, ), String>) {
        proof {
            assert(Self::decoded(json_view(*value)) == tuple12_decoded::<T0, T1, T2, T3, T4, T5, T6, T7, T8, T9, T10, T11>(
                json_view(*value),
            ));
        }
        let values = match json_as_list(value) {
            Some(values) => values,
            None => {
                return Err(invalid("( T0 , T1 , T2 , T3 , T4 , T5 , T6 , T7 , T8 , T9 , T10 , T11 , )", "a list of 12 values"));
            },
        };
        if values.len() != 12 {
            return Err(invalid("( T0 , T1 , T2 , T3 , T4 , T5 , T6 , T7 , T8 , T9 , T10 , T11 , )", "a list of 12 values"));
        }
        proof {
            assert(forall|i: int| 0 <= i < 12 ==> json_views(values@)[i] == json_view(values@[i]));
        }
        let field0 = match T0::from_json(&values[0]) {
            Ok(field) => field,
            Err(message) => {
                return Err(message);
            },
        };
        let field1 = match T1::from_json(&values[1]) {
            Ok(field) => field,
            Err(message) => {
                return Err(message);
            },
        };
        let field2 = match T2::from_json(&values[2]) {
            Ok(field) => field,
            Err(message) => {
                return Err(message);
            },
        };
        let field3 = match T3::from_json(&values[3]) {
            Ok(field) => field,
            Err(message) => {
                return Err(message);
            },
        };
        let field4 = match T4::from_json(&values[4]) {
            Ok(field) => field,
            Err(message) => {
                return Err(message);
            },
        };
        let field5 = match T5::from_json(&values[5]) {
            Ok(field) => field,
            Err(message) => {
                return Err(message);
            },
        };
        let field6 = match T6::from_json(&values[6]) {
            Ok(field) => field,
            Err(message) => {
                return Err(message);
            },
        };
        let field7 = match T7::from_json(&values[7]) {
            Ok(field) => field,
            Err(message) => {
                return Err(message);
            },
        };
        let field8 = match T8::from_json(&values[8]) {
            Ok(field) => field,
            Err(message) => {
                return Err(message);
            },
        };
        let field9 = match T9::from_json(&values[9]) {
            Ok(field) => field,
            Err(message) => {
                return Err(message);
            },
        };
        let field10 = match T10::from_json(&values[10]) {
            Ok(field) => field,
            Err(message) => {
                return Err(message);
            },
        };
        let field11 = match T11::from_json(&values[11]) {
            Ok(field) => field,
            Err(message) => {
                return Err(message);
            },
        };
        Ok((field0, field1, field2, field3, field4, field5, field6, field7, field8, field9, field10, field11, ))
    }

    fn default_node() -> (node: (T0, T1, T2, T3, T4, T5, T6, T7, T8, T9, T10, T11, )) {
        (T0::default_node(), T1::default_node(), T2::default_node(), T3::default_node(), T4::default_node(), T5::default_node(), T6::default_node(), T7::default_node(), T8::default_node(), T9::default_node(), T10::default_node(), T11::default_node(), )
    }
}

/// The laws of a tuple of 12, where they hold of its fields: reading changes
/// nothing, and a `set` that fails changes nothing.
pub proof fn lemma_tuple12_laws<T0: Node, T1: Node, T2: Node, T3: Node, T4: Node, T5: Node, T6: Node, T7: Node, T8: Node, T9: Node, T10: Node, T11: Node>()
    requires
        unchanged_by_reading::<T0>(),
        unchanged_by_reading::<T1>(),
        unchanged_by_reading::<T2>(),
        unchanged_by_reading::<T3>(),
        unchanged_by_reading::<T4>(),
        unchanged_by_reading::<T5>(),
        unchanged_by_reading::<T6>(),
        unchanged_by_reading::<T7>(),
        unchanged_by_reading::<T8>(),
        unchanged_by_reading::<T9>(),
        unchanged_by_reading::<T10>(),
        unchanged_by_reading::<T11>(),
    ensures
        unchanged_by_reading::<(T0, T1, T2, T3, T4, T5, T6, T7, T8, T9, T10, T11, )>(),
        set_fails_without_change::<(T0, T1, T2, T3, T4, T5, T6, T7, T8, T9, T10, T11, )>(),
{
    assert forall|node: (T0::Model, T1::Model, T2::Model, T3::Model, T4::Model, T5::Model, T6::Model, T7::Model, T8::Model, T9::Model, T10::Model, T11::Model, ), tokens: Seq<Token>, clipboard: ClipboardModel|
        reads(tokens) implies (#[trigger] <(T0, T1, T2, T3, T4, T5, T6, T7, T8, T9, T10, T11, )>::outcome(node, tokens, clipboard)).node == node
        && <(T0, T1, T2, T3, T4, T5, T6, T7, T8, T9, T10, T11, )>::outcome(node, tokens, clipboard).clipboard == clipboard by {
        if tokens.last().is_chain() {
            lemma_rest_reads(tokens);
        }
    }
    assert forall|node: (T0::Model, T1::Model, T2::Model, T3::Model, T4::Model, T5::Model, T6::Model, T7::Model, T8::Model, T9::Model, T10::Model, T11::Model, ), value: Seq<char>, clipboard: ClipboardModel|
        (#[trigger] <(T0, T1, T2, T3, T4, T5, T6, T7, T8, T9, T10, T11, )>::outcome(node, seq![Token::SetValue(value)], clipboard)).text.len()
            > 0 implies <(T0, T1, T2, T3, T4, T5, T6, T7, T8, T9, T10, T11, )>::outcome(node, seq![Token::SetValue(value)], clipboard).node
        == node by {
        assert(seq![Token::SetValue(value)].last() == Token::SetValue(value));
    }
}

/// A tuple of 12 is read back from the JSON list that is written for it, where
/// its fields are read back from their values.
pub proof fn lemma_tuple12_round_trips<T0: Node, T1: Node, T2: Node, T3: Node, T4: Node, T5: Node, T6: Node, T7: Node, T8: Node, T9: Node, T10: Node, T11: Node>(node: (T0::Model, T1::Model, T2::Model, T3::Model, T4::Model, T5::Model, T6::Model, T7::Model, T8::Model, T9::Model, T10::Model, T11::Model, ))
    requires
        round_trips::<T0>(node.0),
        round_trips::<T1>(node.1),
        round_trips::<T2>(node.2),
        round_trips::<T3>(node.3),
        round_trips::<T4>(node.4),
        round_trips::<T5>(node.5),
        round_trips::<T6>(node.6),
        round_trips::<T7>(node.7),
        round_trips::<T8>(node.8),
        round_trips::<T9>(node.9),
        round_trips::<T10>(node.10),
        round_trips::<T11>(node.11),
    ensures
        round_trips::<(T0, T1, T2, T3, T4, T5, T6, T7, T8, T9, T10, T11, )>(node),
{
}

/// The JSON list that stands for a tuple of 13: the value of each field, in order.
pub open spec fn tuple13_json<T0: Node, T1: Node, T2: Node, T3: Node, T4: Node, T5: Node, T6: Node, T7: Node, T8: Node, T9: Node, T10: Node, T11: Node, T12: Node>(node: (T0::Model, T1::Model, T2::Model, T3::Model, T4::Model, T5::Model, T6::Model, T7::Model, T8::Model, T9::Model, T10::Model, T11::Model, T12::Model, )) -> JsonModel {
    JsonModel::List(seq![T0::json(node.0), T1::json(node.1), T2::json(node.2), T3::json(node.3), T4::json(node.4), T5::json(node.5), T6::json(node.6), T7::json(node.7), T8::json(node.8), T9::json(node.9), T10::json(node.10), T11::json(node.11), T12::json(node.12)])
}

/// The tuple of 13 that a JSON value stands for: a list of 13 values, each of
/// which stands for the field at its place.
pub open spec fn tuple13_decoded<T0: Node, T1: Node, T2: Node, T3: Node, T4: Node, T5: Node, T6: Node, T7: Node, T8: Node, T9: Node, T10: Node, T11: Node, T12: Node>(value: JsonModel) -> Result<(T0::Model, T1::Model, T2::Model, T3::Model, T4::Model, T5::Model, T6::Model, T7::Model, T8::Model, T9::Model, T10::Model, T11::Model, T12::Model, ), Seq<char>> {
    match value {
        JsonModel::List(values) => if values.len() == 13 {
            match T0::decoded(values[0]) {
            Ok(field0) => match T1::decoded(values[1]) {
            Ok(field1) => match T2::decoded(values[2]) {
            Ok(field2) => match T3::decoded(values[3]) {
            Ok(field3) => match T4::decoded(values[4]) {
            Ok(field4) => match T5::decoded(values[5]) {
            Ok(field5) => match T6::decoded(values[6]) {
            Ok(field6) => match T7::decoded(values[7]) {
            Ok(field7) => match T8::decoded(values[8]) {
            Ok(field8) => match T9::decoded(values[9]) {
            Ok(field9) => match T10::decoded(values[10]) {
            Ok(field10) => match T11::decoded(values[11]) {
            Ok(field11) => match T12::decoded(values[12]) {
            Ok(field12) => Ok((field0, field1, field2, field3, field4, field5, field6, field7, field8, field9, field10, field11, field12, )),
            Err(message) => Err(message),
        },
            Err(message) => Err(message),
        },
            Err(message) => Err(message),
        },
            Err(message) => Err(message),
        },
            Err(message) => Err(message),
        },
            Err(message) => Err(message),
        },
            Err(message) => Err(message),
        },
            Err(message) => Err(message),
        },
            Err(message) => Err(message),
        },
            Err(message) => Err(message),
        },
            Err(message) => Err(message),
        },
            Err(message) => Err(message),
        },
            Err(message) => Err(message),
        }
        } else {
            Err(invalid_text("( T0 , T1 , T2 , T3 , T4 , T5 , T6 , T7 , T8 , T9 , T10 , T11 , T12 , )"@, "a list of 13 values"@))
        },
        _ => Err(invalid_text("( T0 , T1 , T2 , T3 , T4 , T5 , T6 , T7 , T8 , T9 , T10 , T11 , T12 , )"@, "a list of 13 values"@)),
    }
}

/// The tuple of 13 that the text `text` sets, or the message that says why it sets none.
pub open spec fn tuple13_set<T0: Node, T1: Node, T2: Node, T3: Node, T4: Node, T5: Node, T6: Node, T7: Node, T8: Node, T9: Node, T10: Node, T11: Node, T12: Node>(text: Seq<char>) -> Result<(T0::Model, T1::Model, T2::Model, T3::Model, T4::Model, T5::Model, T6::Model, T7::Model, T8::Model, T9::Model, T10::Model, T11::Model, T12::Model, ), Seq<char>> {
    match json_parsed(text) {
        Ok(value) => match tuple13_decoded::<T0, T1, T2, T3, T4, T5, T6, T7, T8, T9, T10, T11, T12>(value) {
            Ok(node) => Ok(node),
            Err(message) => Err("( T0 , T1 , T2 , T3 , T4 , T5 , T6 , T7 , T8 , T9 , T10 , T11 , T12 , )"@ + " set error: "@ + message),
        },
        Err(message) => Err("( T0 , T1 , T2 , T3 , T4 , T5 , T6 , T7 , T8 , T9 , T10 , T11 , T12 , )"@ + " set error: "@ + message),
    }
}

/// What a tuple of 13 makes of a command: `[i]` hands the command to the
/// field at `i`, `[*]` to every field in order; `get` writes the tuple as
/// JSON and `set` reads it from JSON.
pub open spec fn tuple13_outcome<T0: Node, T1: Node, T2: Node, T3: Node, T4: Node, T5: Node, T6: Node, T7: Node, T8: Node, T9: Node, T10: Node, T11: Node, T12: Node>(
    node: (T0::Model, T1::Model, T2::Model, T3::Model, T4::Model, T5::Model, T6::Model, T7::Model, T8::Model, T9::Model, T10::Model, T11::Model, T12::Model, ),
    tokens: Seq<Token>,
    clipboard: ClipboardModel,
) -> Outcome<(T0::Model, T1::Model, T2::Model, T3::Model, T4::Model, T5::Model, T6::Model, T7::Model, T8::Model, T9::Model, T10::Model, T11::Model, T12::Model, )> {
    let rest = tokens.drop_last();
    let unchanged = |text: Seq<char>| Outcome { text, node, clipboard };
    match tokens.last() {
        Token::ChainIndex(index) => if index == 0 {
            let one = T0::outcome(node.0, rest, clipboard);
            Outcome { text: one.text, node: (one.node, node.1, node.2, node.3, node.4, node.5, node.6, node.7, node.8, node.9, node.10, node.11, node.12, ), clipboard: one.clipboard }
        } else {
            if index == 1 {
            let one = T1::outcome(node.1, rest, clipboard);
            Outcome { text: one.text, node: (node.0, one.node, node.2, node.3, node.4, node.5, node.6, node.7, node.8, node.9, node.10, node.11, node.12, ), clipboard: one.clipboard }
        } else {
            if index == 2 {
            let one = T2::outcome(node.2, rest, clipboard);
            Outcome { text: one.text, node: (node.0, node.1, one.node, node.3, node.4, node.5, node.6, node.7, node.8, node.9, node.10, node.11, node.12, ), clipboard: one.clipboard }
        } else {
            if index == 3 {
            let one = T3::outcome(node.3, rest, clipboard);
            Outcome { text: one.text, node: (node.0, node.1, node.2, one.node, node.4, node.5, node.6, node.7, node.8, node.9, node.10, node.11, node.12, ), clipboard: one.clipboard }
        } else {
            if index == 4 {
            let one = T4::outcome(node.4, rest, clipboard);
            Outcome { text: one.text, node: (node.0, node.1, node.2, node.3, one.node, node.5, node.6, node.7, node.8, node.9, node.10, node.11, node.12, ), clipboard: one.clipboard }
        } else {
            if index == 5 {
            let one = T5::outcome(node.5, rest, clipboard);
            Outcome { text: one.text, node: (node.0, node.1, node.2, node.3, node.4, one.node, node.6, node.7, node.8, node.9, node.10, node.11, node.12, ), clipboard: one.clipboard }
        } else {
            if index == 6 {
            let one = T6::outcome(node.6, rest, clipboard);
            Outcome { text: one.text, node: (node.0, node.1, node.2, node.3, node.4, node.5, one.node, node.7, node.8, node.9, node.10, node.11, node.12, ), clipboard: one.clipboard }
        } else {
            if index == 7 {
            let one = T7::outcome(node.7, rest, clipboard);
            Outcome { text: one.text, node: (node.0, node.1, node.2, node.3, node.4, node.5, node.6, one.node, node.8, node.9, node.10, node.11, node.12, ), clipboard: one.clipboard }
        } else {
            if index == 8 {
            let one = T8::outcome(node.8, rest, clipboard);
            Outcome { text: one.text, node: (node.0, node.1, node.2, node.3, node.4, node.5, node.6, node.7, one.node, node.9, node.10, node.11, node.12, ), clipboard: one.clipboard }
        } else {
            if index == 9 {
            let one = T9::outcome(node.9, rest, clipboard);
            Outcome { text: one.text, node: (node.0, node.1, node.2, node.3, node.4, node.5, node.6, node.7, node.8, one.node, node.10, node.11, node.12, ), clipboard: one.clipboard }
        } else {
            if index == 10 {
            let one = T10::outcome(node.10, rest, clipboard);
            Outcome { text: one.text, node: (node.0, node.1, node.2, node.3, node.4, node.5, node.6, node.7, node.8, node.9, one.node, node.11, node.12, ), clipboard: one.clipboard }
        } else {
            if index == 11 {
            let one = T11::outcome(node.11, rest, clipboard);
            Outcome { text: one.text, node: (node.0, node.1, node.2, node.3, node.4, node.5, node.6, node.7, node.8, node.9, node.10, one.node, node.12, ), clipboard: one.clipboard }
        } else {
            if index == 12 {
            let one = T12::outcome(node.12, rest, clipboard);
            Outcome { text: one.text, node: (node.0, node.1, node.2, node.3, node.4, node.5, node.6, node.7, node.8, node.9, node.10, node.11, one.node, ), clipboard: one.clipboard }
        } else {
            unchanged("Used index "@ + decimal_text(index as int) + " on a "@ + "( T0 , T1 , T2 , T3 , T4 , T5 , T6 , T7 , T8 , T9 , T10 , T11 , T12 , )"@)
        }
        }
        }
        }
        }
        }
        }
        }
        }
        }
        }
        }
        },
        Token::ChainAll => {
            let step0 = T0::outcome(node.0, rest, clipboard);
            let step1 = T1::outcome(node.1, rest, step0.clipboard);
            let step2 = T2::outcome(node.2, rest, step1.clipboard);
            let step3 = T3::outcome(node.3, rest, step2.clipboard);
            let step4 = T4::outcome(node.4, rest, step3.clipboard);
            let step5 = T5::outcome(node.5, rest, step4.clipboard);
            let step6 = T6::outcome(node.6, rest, step5.clipboard);
            let step7 = T7::outcome(node.7, rest, step6.clipboard);
            let step8 = T8::outcome(node.8, rest, step7.clipboard);
            let step9 = T9::outcome(node.9, rest, step8.clipboard);
            let step10 = T10::outcome(node.10, rest, step9.clipboard);
            let step11 = T11::outcome(node.11, rest, step10.clipboard);
            let step12 = T12::outcome(node.12, rest, step11.clipboard);
            Outcome {
                text: "|"@ + step0.text + "|"@ + step1.text + "|"@ + step2.text + "|"@ + step3.text + "|"@ + step4.text + "|"@ + step5.text + "|"@ + step6.text + "|"@ + step7.text + "|"@ + step8.text + "|"@ + step9.text + "|"@ + step10.text + "|"@ + step11.text + "|"@ + step12.text + "|"@,
                node: (step0.node, step1.node, step2.node, step3.node, step4.node, step5.node, step6.node, step7.node, step8.node, step9.node, step10.node, step11.node, step12.node, ),
                clipboard: step12.clipboard,
            }
        },
        Token::Get => unchanged(json_pretty_text(tuple13_json::<T0, T1, T2, T3, T4, T5, T6, T7, T8, T9, T10, T11, T12>(node))),
        Token::SetValue(value) => match tuple13_set::<T0, T1, T2, T3, T4, T5, T6, T7, T8, T9, T10, T11, T12>(value) {
            Ok(node) => Outcome { text: Seq::empty(), node, clipboard },
            Err(message) => unchanged(message),
        },
        Token::Help => unchanged(tuple_help()),
        token => unchanged(cannot_text("( T0 , T1 , T2 , T3 , T4 , T5 , T6 , T7 , T8 , T9 , T10 , T11 , T12 , )"@, token)),
    }
}

impl<T0: Node, T1: Node, T2: Node, T3: Node, T4: Node, T5: Node, T6: Node, T7: Node, T8: Node, T9: Node, T10: Node, T11: Node, T12: Node> Node for (T0, T1, T2, T3, T4, T5, T6, T7, T8, T9, T10, T11, T12, ) {
    type Model = (T0::Model, T1::Model, T2::Model, T3::Model, T4::Model, T5::Model, T6::Model, T7::Model, T8::Model, T9::Model, T10::Model, T11::Model, T12::Model, );

    open spec fn model(&self) -> (T0::Model, T1::Model, T2::Model, T3::Model, T4::Model, T5::Model, T6::Model, T7::Model, T8::Model, T9::Model, T10::Model, T11::Model, T12::Model, ) {
        (self.0.model(), self.1.model(), self.2.model(), self.3.model(), self.4.model(), self.5.model(), self.6.model(), self.7.model(), self.8.model(), self.9.model(), self.10.model(), self.11.model(), self.12.model(), )
    }

    open spec fn outcome(node: (T0::Model, T1::Model, T2::Model, T3::Model, T4::Model, T5::Model, T6::Model, T7::Model, T8::Model, T9::Model, T10::Model, T11::Model, T12::Model, ), tokens: Seq<Token>, clipboard: ClipboardModel) -> Outcome<
        (T0::Model, T1::Model, T2::Model, T3::Model, T4::Model, T5::Model, T6::Model, T7::Model, T8::Model, T9::Model, T10::Model, T11::Model, T12::Model, ),
    > {
        tuple13_outcome::<T0, T1, T2, T3, T4, T5, T6, T7, T8, T9, T10, T11, T12>(node, tokens, clipboard)
    }

    open spec fn json(node: (T0::Model, T1::Model, T2::Model, T3::Model, T4::Model, T5::Model, T6::Model, T7::Model, T8::Model, T9::Model, T10::Model, T11::Model, T12::Model, )) -> JsonModel {
        tuple13_json::<T0, T1, T2, T3, T4, T5, T6, T7, T8, T9, T10, T11, T12>(node)
    }

    open spec fn decoded(value: JsonModel) -> Result<(T0::Model, T1::Model, T2::Model, T3::Model, T4::Model, T5::Model, T6::Model, T7::Model, T8::Model, T9::Model, T10::Model, T11::Model, T12::Model, ), Seq<char>> {
        tuple13_decoded::<T0, T1, T2, T3, T4, T5, T6, T7, T8, T9, T10, T11, T12>(value)
    }

    open spec fn default_model() -> (T0::Model, T1::Model, T2::Model, T3::Model, T4::Model, T5::Model, T6::Model, T7::Model, T8::Model, T9::Model, T10::Model, T11::Model, T12::Model, ) {
        (T0::default_model(), T1::default_model(), T2::default_model(), T3::default_model(), T4::default_model(), T5::default_model(), T6::default_model(), T7::default_model(), T8::default_model(), T9::default_model(), T10::default_model(), T11::default_model(), T12::default_model(), )
    }

    fn node_step_with(&mut self, runner: NodeRunner, clipboard: &mut Clipboard) -> (text: String) {
        let mut runner = runner;
        let ghost tokens = runner@;
        let token = runner.step();
        proof {
            if token@.is_chain() {
                lemma_rest_well_formed(tokens);
            }
            assert(Self::outcome(old(self).model(), tokens, old(clipboard)@) == tuple13_outcome::<
                T0, T1, T2, T3, T4, T5, T6, T7, T8, T9, T10, T11, T12,
            >(old(self).model(), tokens, old(clipboard)@));
        }
        match token {
            NodeToken::ChainIndex(index) => {
                match index {
                    0 => self.0.node_step_with(runner, clipboard),
                    1 => self.1.node_step_with(runner, clipboard),
                    2 => self.2.node_step_with(runner, clipboard),
                    3 => self.3.node_step_with(runner, clipboard),
                    4 => self.4.node_step_with(runner, clipboard),
                    5 => self.5.node_step_with(runner, clipboard),
                    6 => self.6.node_step_with(runner, clipboard),
                    7 => self.7.node_step_with(runner, clipboard),
                    8 => self.8.node_step_with(runner, clipboard),
                    9 => self.9.node_step_with(runner, clipboard),
                    10 => self.10.node_step_with(runner, clipboard),
                    11 => self.11.node_step_with(runner, clipboard),
                    12 => self.12.node_step_with(runner, clipboard),
                    _ => {
                        let mut text = String::from_str("Used index ");
                        text.append(format_integer(index as i128).as_str());
                        text.append(" on a ");
                        text.append("( T0 , T1 , T2 , T3 , T4 , T5 , T6 , T7 , T8 , T9 , T10 , T11 , T12 , )");
                        text
                    },
                }
            },
            NodeToken::ChainAll => {
                let mut combined = String::from_str("|");
                combined.append(self.0.node_step_with(runner.duplicate(), clipboard).as_str());
                combined.append("|");
                combined.append(self.1.node_step_with(runner.duplicate(), clipboard).as_str());
                combined.append("|");
                combined.append(self.2.node_step_with(runner.duplicate(), clipboard).as_str());
                combined.append("|");
                combined.append(self.3.node_step_with(runner.duplicate(), clipboard).as_str());
                combined.append("|");
                combined.append(self.4.node_step_with(runner.duplicate(), clipboard).as_str());
                combined.append("|");
                combined.append(self.5.node_step_with(runner.duplicate(), clipboard).as_str());
                combined.append("|");
                combined.append(self.6.node_step_with(runner.duplicate(), clipboard).as_str());
                combined.append("|");
                combined.append(self.7.node_step_with(runner.duplicate(), clipboard).as_str());
                combined.append("|");
                combined.append(self.8.node_step_with(runner.duplicate(), clipboard).as_str());
                combined.append("|");
                combined.append(self.9.node_step_with(runner.duplicate(), clipboard).as_str());
                combined.append("|");
                combined.append(self.10.node_step_with(runner.duplicate(), clipboard).as_str());
                combined.append("|");
                combined.append(self.11.node_step_with(runner.duplicate(), clipboard).as_str());
                combined.append("|");
                combined.append(self.12.node_step_with(runner.duplicate(), clipboard).as_str());
                combined.append("|");
                combined
            },
            NodeToken::Get => {
                let value = self.to_json();
                json_pretty(&value)
            },
            NodeToken::SetValue(value) => {
                match json_parse(value.as_str()) {
                    Ok(json) => match Self::from_json(&json) {
                        Ok(node) => {
                            *self = node;
                            String::new()
                        },
                        Err(message) => set_error("( T0 , T1 , T2 , T3 , T4 , T5 , T6 , T7 , T8 , T9 , T10 , T11 , T12 , )", message.as_str()),
                    },
                    Err(message) => set_error("( T0 , T1 , T2 , T3 , T4 , T5 , T6 , T7 , T8 , T9 , T10 , T11 , T12 , )", message.as_str()),
                }
            },
            NodeToken::Help => String::from_str(
                "\nTuple Help\n\nCommands:\n*   help - display this help\n*   get  - display JSON\n*   set  - set to JSON\n\nAccessors:\n*   [index] - access item at index",
            ),
            action => cannot("( T0 , T1 , T2 , T3 , T4 , T5 , T6 , T7 , T8 , T9 , T10 , T11 , T12 , )", &action),
        }
    }

    fn to_json(&self) -> (value: serde_json::Value) {
        proof {
            assert(Self::json(self.model()) == tuple13_json::<T0, T1, T2, T3, T4, T5, T6, T7, T8, T9, T10, T11, T12>(self.model()));
        }
        let mut values: Vec<serde_json::Value> = Vec::new();
        values.push(self.0.to_json());
        values.push(self.1.to_json());
        values.push(self.2.to_json());
        values.push(self.3.to_json());
        values.push(self.4.to_json());
        values.push(self.5.to_json());
        values.push(self.6.to_json());
        values.push(self.7.to_json());
        values.push(self.8.to_json());
        values.push(self.9.to_json());
        values.push(self.10.to_json());
        values.push(self.11.to_json());
        values.push(self.12.to_json());
        assert(json_views(values@) =~= seq![T0::json(self.0.model()), T1::json(self.1.model()), T2::json(self.2.model()), T3::json(self.3.model()), T4::json(self.4.model()), T5::json(self.5.model()), T6::json(self.6.model()), T7::json(self.7.model()), T8::json(self.8.model()), T9::json(self.9.model()), T10::json(self.10.model()), T11::json(self.11.model()), T12::json(self.12.model())]);
        json_from_list(values)
    }

    fn from_json(value: &serde_json::Value) -> (result: Result<(T0, T1, T2, T3, T4, T5, T6, T7, T8, T9, T10, T11, T12, ), String>) {
        proof {
            assert(Self::decoded(json_view(*value)) == tuple13_decoded::<T0, T1, T2, T3, T4, T5, T6, T7, T8, T9, T10, T11, T12>(
                json_view(*value),
            ));
        }
        let values = match json_as_list(value) {
            Some(values) => values,
            None => {
                return Err(invalid("( T0 , T1 , T2 , T3 , T4 , T5 , T6 , T7 , T8 , T9 , T10 , T11 , T12 , )", "a list of 13 values"));
            },
        };
        if values.len() != 13 {
            return Err(invalid("( T0 , T1 , T2 , T3 , T4 , T5 , T6 , T7 , T8 , T9 , T10 , T11 , T12 , )", "a list of 13 values"));
        }
        proof {
            assert(forall|i: int| 0 <= i < 13 ==> json_views(values@)[i] == json_view(values@[i]));
        }
        let field0 = match T0::from_json(&values[0]) {
            Ok(field) => field,
            Err(message) => {
                return Err(message);
            },
        };
        let field1 = match T1::from_json(&values[1]) {
            Ok(field) => field,
            Err(message) => {
                return Err(message);
            },
        };
        let field2 = match T2::from_json(&values[2]) {
            Ok(field) => field,
            Err(message) => {
                return Err(message);
            },
        };
        let field3 = match T3::from_json(&values[3]) {
            Ok(field) => field,
            Err(message) => {
                return Err(message);
            },
        };
        let field4 = match T4::from_json(&values[4]) {
            Ok(field) => field,
            Err(message) => {
                return Err(message);
            },
        };
        let field5 = match T5::from_json(&values[5]) {
            Ok(field) => field,
            Err(message) => {
                return Err(message);
            },
        };
        let field6 = match T6::from_json(&values[6]) {
            Ok(field) => field,
            Err(message) => {
                return Err(message);
            },
        };
        let field7 = match T7::from_json(&values[7]) {
            Ok(field) => field,
            Err(message) => {
                return Err(message);
            },
        };
        let field8 = match T8::from_json(&values[8]) {
            Ok(field) => field,
            Err(message) => {
                return Err(message);
            },
        };
        let field9 = match T9::from_json(&values[9]) {
            Ok(field) => field,
            Err(message) => {
                return Err(message);
            },
        };
        let field10 = match T10::from_json(&values[10]) {
            Ok(field) => field,
            Err(message) => {
                return Err(message);
            },
        };
        let field11 = match T11::from_json(&values[11]) {
            Ok(field) => field,
            Err(message) => {
                return Err(message);
            },
        };
        let field12 = match T12::from_json(&values[12]) {
            Ok(field) => field,
            Err(message) => {
                return Err(message);
            },
        };
        Ok((field0, field1, field2, field3, field4, field5, field6, field7, field8, field9, field10, field11, field12, ))
    }

    fn default_node() -> (node: (T0, T1, T2, T3, T4, T5, T6, T7, T8, T9, T10, T11, T12, )) {
        (T0::default_node(), T1::default_node(), T2::default_node(), T3::default_node(), T4::default_node(), T5::default_node(), T6::default_node(), T7::default_node(), T8::default_node(), T9::default_node(), T10::default_node(), T11::default_node(), T12::default_node(), )
    }
}

/// The laws of a tuple of 13, where they hold of its fields: reading changes
/// nothing, and a `set` that fails changes nothing.
pub proof fn lemma_tuple13_laws<T0: Node, T1: Node, T2: Node, T3: Node, T4: Node, T5: Node, T6: Node, T7: Node, T8: Node, T9: Node, T10: Node, T11: Node, T12: Node>()
    requires
        unchanged_by_reading::<T0>(),
        unchanged_by_reading::<T1>(),
        unchanged_by_reading::<T2>(),
        unchanged_by_reading::<T3>(),
        unchanged_by_reading::<T4>(),
        unchanged_by_reading::<T5>(),
        unchanged_by_reading::<T6>(),
        unchanged_by_reading::<T7>(),
        unchanged_by_reading::<T8>(),
        unchanged_by_reading::<T9>(),
        unchanged_by_reading::<T10>(),
        unchanged_by_reading::<T11>(),
        unchanged_by_reading::<T12>(),
    ensures
        unchanged_by_reading::<(T0, T1, T2, T3, T4, T5, T6, T7, T8, T9, T10, T11, T12, )>(),
        set_fails_without_change::<(T0, T1, T2, T3, T4, T5, T6, T7, T8, T9, T10, T11, T12, )>(),
{
    assert forall|node: (T0::Model, T1::Model, T2::Model, T3::Model, T4::Model, T5::Model, T6::Model, T7::Model, T8::Model, T9::Model, T10::Model, T11::Model, T12::Model, ), tokens: Seq<Token>, clipboard: ClipboardModel|
        reads(tokens) implies (#[trigger] <(T0, T1, T2, T3, T4, T5, T6, T7, T8, T9, T10, T11, T12, )>::outcome(node, tokens, clipboard)).node == node
        && <(T0, T1, T2, T3, T4, T5, T6, T7, T8, T9, T10, T11, T12, )>::outcome(node, tokens, clipboard).clipboard == clipboard by {
        if tokens.last().is_chain() {
            lemma_rest_reads(tokens);
        }
    }
    assert forall|node: (T0::Model, T1::Model, T2::Model, T3::Model, T4::Model, T5::Model, T6::Model, T7::Model, T8::Model, T9::Model, T10::Model, T11::Model, T12::Model, ), value: Seq<char>, clipboard: ClipboardModel|
        (#[trigger] <(T0, T1, T2, T3, T4, T5, T6, T7, T8, T9, T10, T11, T12, )>::outcome(node, seq![Token::SetValue(value)], clipboard)).text.len()
            > 0 implies <(T0, T1, T2, T3, T4, T5, T6, T7, T8, T9, T10, T11, T12, )>::outcome(node, seq![Token::SetValue(value)], clipboard).node
        == node by {
        assert(seq![Token::SetValue(value)].last() == Token::SetValue(value));
    }
}

/// A tuple of 13 is read back from the JSON list that is written for it, where
/// its fields are read back from their values.
pub proof fn lemma_tuple13_round_trips<T0: Node, T1: Node, T2: Node, T3: Node, T4: Node, T5: Node, T6: Node, T7: Node, T8: Node, T9: Node, T10: Node, T11: Node, T12: Node>(node: (T0::Model, T1::Model, T2::Model, T3::Model, T4::Model, T5::Model, T6::Model, T7::Model, T8::Model, T9::Model, T10::Model, T11::Model, T12::Model, ))
    requires
        round_trips::<T0>(node.0),
        round_trips::<T1>(node.1),
        round_trips::<T2>(node.2),
        round_trips::<T3>(node.3),
        round_trips::<T4>(node.4),
        round_trips::<T5>(node.5),
        round_trips::<T6>(node.6),
        round_trips::<T7>(node.7),
        round_trips::<T8>(node.8),
        round_trips::<T9>(node.9),
        round_trips::<T10>(node.10),
        round_trips::<T11>(node.11),
        round_trips::<T12>(node.12),
    ensures
        round_trips::<(T0, T1, T2, T3, T4, T5, T6, T7, T8, T9, T10, T11, T12, )>(node),
{
}

/// The JSON list that stands for a tuple of 14: the value of each field, in order.
pub open spec fn tuple14_json<T0: Node, T1: Node, T2: Node, T3: Node, T4: Node, T5: Node, T6: Node, T7: Node, T8: Node, T9: Node, T10: Node, T11: Node, T12: Node, T13: Node>(node: (T0::Model, T1::Model, T2::Model, T3::Model, T4::Model, T5::Model, T6::Model, T7::Model, T8::Model, T9::Model, T10::Model, T11::Model, T12::Model, T13::Model, )) -> JsonModel {
    JsonModel::List(seq![T0::json(node.0), T1::json(node.1), T2::json(node.2), T3::json(node.3), T4::json(node.4), T5::json(node.5), T6::json(node.6), T7::json(node.7), T8::json(node.8), T9::json(node.9), T10::json(node.10), T11::json(node.11), T12::json(node.12), T13::json(node.13)])
}

/// The tuple of 14 that a JSON value stands for: a list of 14 values, each of
/// which stands for the field at its place.
pub open spec fn tuple14_decoded<T0: Node, T1: Node, T2: Node, T3: Node, T4: Node, T5: Node, T6: Node, T7: Node, T8: Node, T9: Node, T10: Node, T11: Node, T12: Node, T13: Node>(value: JsonModel) -> Result<(T0::Model, T1::Model, T2::Model, T3::Model, T4::Model, T5::Model, T6::Model, T7::Model, T8::Model, T9::Model, T10::Model, T11::Model, T12::Model, T13::Model, ), Seq<char>> {
    match value {
        JsonModel::List(values) => if values.len() == 14 {
            match T0::decoded(values[0]) {
            Ok(field0) => match T1::decoded(values[1]) {
            Ok(field1) => match T2::decoded(values[2]) {
            Ok(field2) => match T3::decoded(values[3]) {
            Ok(field3) => match T4::decoded(values[4]) {
            Ok(field4) => match T5::decoded(values[5]) {
            Ok(field5) => match T6::decoded(values[6]) {
            Ok(field6) => match T7::decoded(values[7]) {
            Ok(field7) => match T8::decoded(values[8]) {
            Ok(field8) => match T9::decoded(values[9]) {
            Ok(field9) => match T10::decoded(values[10]) {
            Ok(field10) => match T11::decoded(values[11]) {
            Ok(field11) => match T12::decoded(values[12]) {
            Ok(field12) => match T13::decoded(values[13]) {
            Ok(field13) => Ok((field0, field1, field2, field3, field4, field5, field6, field7, field8, field9, field10, field11, field12, field13, )),
            Err(message) => Err(message),
        },
            Err(message) => Err(message),
        },
            Err(message) => Err(message),
        },
            Err(message) => Err(message),
        },
            Err(message) => Err(message),
        },
            Err(message) => Err(message),
        },
            Err(message) => Err(message),
        },
            Err(message) => Err(message),
        },
            Err(message) => Err(message),
        },
            Err(message) => Err(message),
        },
            Err(message) => Err(message),
        },
            Err(message) => Err(message),
        },
            Err(message) => Err(message),
        },
            Err(message) => Err(message),
        }
        } else {
            Err(invalid_text("( T0 , T1 , T2 , T3 , T4 , T5 , T6 , T7 , T8 , T9 , T10 , T11 , T12 , T13 , )"@, "a list of 14 values"@))
        },
        _ => Err(invalid_text("( T0 , T1 , T2 , T3 , T4 , T5 , T6 , T7 , T8 , T9 , T10 , T11 , T12 , T13 , )"@, "a list of 14 values"@)),
    }
}

/// The tuple of 14 that the text `text` sets, or the message that says why it sets none.
pub open spec fn tuple14_set<T0: Node, T1: Node, T2: Node, T3: Node, T4: Node, T5: Node, T6: Node, T7: Node, T8: Node, T9: Node, T10: Node, T11: Node, T12: Node, T13: Node>(text: Seq<char>) -> Result<(T0::Model, T1::Model, T2::Model, T3::Model, T4::Model, T5::Model, T6::Model, T7::Model, T8::Model, T9::Model, T10::Model, T11::Model, T12::Model, T13::Model, ), Seq<char>> {
    match json_parsed(text) {
        Ok(value) => match tuple14_decoded::<T0, T1, T2, T3, T4, T5, T6, T7, T8, T9, T10, T11, T12, T13>(value) {
            Ok(node) => Ok(node),
            Err(message) => Err("( T0 , T1 , T2 , T3 , T4 , T5 , T6 , T7 , T8 , T9 , T10 , T11 , T12 , T13 , )"@ + " set error: "@ + message),
        },
        Err(message) => Err("( T0 , T1 , T2 , T3 , T4 , T5 , T6 , T7 , T8 , T9 , T10 , T11 , T12 , T13 , )"@ + " set error: "@ + message),
    }
}

/// What a tuple of 14 makes of a command: `[i]` hands the command to the
/// field at `i`, `[*]` to every field in order; `get` writes the tuple as
/// JSON and `set` reads it from JSON.
pub open spec fn tuple14_outcome<T0: Node, T1: Node, T2: Node, T3: Node, T4: Node, T5: Node, T6: Node, T7: Node, T8: Node, T9: Node, T10: Node, T11: Node, T12: Node, T13: Node>(
    node: (T0::Model, T1::Model, T2::Model, T3::Model, T4::Model, T5::Model, T6::Model, T7::Model, T8::Model, T9::Model, T10::Model, T11::Model, T12::Model, T13::Model, ),
    tokens: Seq<Token>,
    clipboard: ClipboardModel,
) -> Outcome<(T0::Model, T1::Model, T2::Model, T3::Model, T4::Model, T5::Model, T6::Model, T7::Model, T8::Model, T9::Model, T10::Model, T11::Model, T12::Model, T13::Model, )> {
    let rest = tokens.drop_last();
    let unchanged = |text: Seq<char>| Outcome { text, node, clipboard };
    match tokens.last() {
        Token::ChainIndex(index) => if index == 0 {
            let one = T0::outcome(node.0, rest, clipboard);
            Outcome { text: one.text, node: (one.node, node.1, node.2, node.3, node.4, node.5, node.6, node.7, node.8, node.9, node.10, node.11, node.12, node.13, ), clipboard: one.clipboard }
        } else {
            if index == 1 {
            let one = T1::outcome(node.1, rest, clipboard);
            Outcome { text: one.text, node: (node.0, one.node, node.2, node.3, node.4, node.5, node.6, node.7, node.8, node.9, node.10, node.11, node.12, node.13, ), clipboard: one.clipboard }
        } else {
            if index == 2 {
            let one = T2::outcome(node.2, rest, clipboard);
            Outcome { text: one.text, node: (node.0, node.1, one.node, node.3, node.4, node.5, node.6, node.7, node.8, node.9, node.10, node.11, node.12, node.13, ), clipboard: one.clipboard }
        } else {
            if index == 3 {
            let one = T3::outcome(node.3, rest, clipboard);
            Outcome { text: one.text, node: (node.0, node.1, node.2, one.node, node.4, node.5, node.6, node.7, node.8, node.9, node.10, node.11, node.12, node.13, ), clipboard: one.clipboard }
        } else {
            if index == 4 {
            let one = T4::outcome(node.4, rest, clipboard);
            Outcome { text: one.text, node: (node.0, node.1, node.2, node.3, one.node, node.5, node.6, node.7, node.8, node.9, node.10, node.11, node.12, node.13, ), clipboard: one.clipboard }
        } else {
            if index == 5 {
            let one = T5::outcome(node.5, rest, clipboard);
            Outcome { text: one.text, node: (node.0, node.1, node.2, node.3, node.4, one.node, node.6, node.7, node.8, node.9, node.10, node.11, node.12, node.13, ), clipboard: one.clipboard }
        } else {
            if index == 6 {
            let one = T6::outcome(node.6, rest, clipboard);
            Outcome { text: one.text, node: (node.0, node.1, node.2, node.3, node.4, node.5, one.node, node.7, node.8, node.9, node.10, node.11, node.12, node.13, ), clipboard: one.clipboard }
        } else {
            if index == 7 {
            let one = T7::outcome(node.7, rest, clipboard);
            Outcome { text: one.text, node: (node.0, node.1, node.2, node.3, node.4, node.5, node.6, one.node, node.8, node.9, node.10, node.11, node.12, node.13, ), clipboard: one.clipboard }
        } else {
            if index == 8 {
            let one = T8::outcome(node.8, rest, clipboard);
            Outcome { text: one.text, node: (node.0, node.1, node.2, node.3, node.4, node.5, node.6, node.7, one.node, node.9, node.10, node.11, node.12, node.13, ), clipboard: one.clipboard }
        } else {
            if index == 9 {
            let one = T9::outcome(node.9, rest, clipboard);
            Outcome { text: one.text, node: (node.0, node.1, node.2, node.3, node.4, node.5, node.6, node.7, node.8, one.node, node.10, node.11, node.12, node.13, ), clipboard: one.clipboard }
        } else {
            if index == 10 {
            let one = T10::outcome(node.10, rest, clipboard);
            Outcome { text: one.text, node: (node.0, node.1, node.2, node.3, node.4, node.5, node.6, node.7, node.8, node.9, one.node, node.11, node.12, node.13, ), clipboard: one.clipboard }
        } else {
            if index == 11 {
            let one = T11::outcome(node.11, rest, clipboard);
            Outcome { text: one.text, node: (node.0, node.1, node.2, node.3, node.4, node.5, node.6, node.7, node.8, node.9, node.10, one.node, node.12, node.13, ), clipboard: one.clipboard }
        } else {
            if index == 12 {
            let one = T12::outcome(node.12, rest, clipboard);
            Outcome { text: one.text, node: (node.0, node.1, node.2, node.3, node.4, node.5, node.6, node.7, node.8, node.9, node.10, node.11, one.node, node.13, ), clipboard: one.clipboard }
        } else {
            if index == 13 {
            let one = T13::outcome(node.13, rest, clipboard);
            Outcome { text: one.text, node: (node.0, node.1, node.2, node.3, node.4, node.5, node.6, node.7, node.8, node.9, node.10, node.11, node.12, one.node, ), clipboard: one.clipboard }
        } else {
            unchanged("Used index "@ + decimal_text(index as int) + " on a "@ + "( T0 , T1 , T2 , T3 , T4 , T5 , T6 , T7 , T8 , T9 , T10 , T11 , T12 , T13 , )"@)
        }
        }
        }
        }
        }
        }
        }
        }
        }
        }
        }
        }
        }
        },
        Token::ChainAll => {
            let step0 = T0::outcome(node.0, rest, clipboard);
            let step1 = T1::outcome(node.1, rest, step0.clipboard);
            let step2 = T2::outcome(node.2, rest, step1.clipboard);
            let step3 = T3::outcome(node.3, rest, step2.clipboard);
            let step4 = T4::outcome(node.4, rest, step3.clipboard);
            let step5 = T5::outcome(node.5, rest, step4.clipboard);
            let step6 = T6::outcome(node.6, rest, step5.clipboard);
            let step7 = T7::outcome(node.7, rest, step6.clipboard);
            let step8 = T8::outcome(node.8, rest, step7.clipboard);
            let step9 = T9::outcome(node.9, rest, step8.clipboard);
            let step10 = T10::outcome(node.10, rest, step9.clipboard);
            let step11 = T11::outcome(node.11, rest, step10.clipboard);
            let step12 = T12::outcome(node.12, rest, step11.clipboard);
            let step13 = T13::outcome(node.13, rest, step12.clipboard);
            Outcome {
                text: "|"@ + step0.text + "|"@ + step1.text + "|"@ + step2.text + "|"@ + step3.text + "|"@ + step4.text + "|"@ + step5.text + "|"@ + step6.text + "|"@ + step7.text + "|"@ + step8.text + "|"@ + step9.text + "|"@ + step10.text + "|"@ + step11.text + "|"@ + step12.text + "|"@ + step13.text + "|"@,
                node: (step0.node, step1.node, step2.node, step3.node, step4.node, step5.node, step6.node, step7.node, step8.node, step9.node, step10.node, step11.node, step12.node, step13.node, ),
                clipboard: step13.clipboard,
            }
        },
        Token::Get => unchanged(json_pretty_text(tuple14_json::<T0, T1, T2, T3, T4, T5, T6, T7, T8, T9, T10, T11, T12, T13>(node))),
        Token::SetValue(value) => match tuple14_set::<T0, T1, T2, T3, T4, T5, T6, T7, T8, T9, T10, T11, T12, T13>(value) {
            Ok(node) => Outcome { text: Seq::empty(), node, clipboard },
            Err(message) => unchanged(message),
        },
        Token::Help => unchanged(tuple_help()),
        token => unchanged(cannot_text("( T0 , T1 , T2 , T3 , T4 , T5 , T6 , T7 , T8 , T9 , T10 , T11 , T12 , T13 , )"@, token)),
    }
}

impl<T0: Node, T1: Node, T2: Node, T3: Node, T4: Node, T5: Node, T6: Node, T7: Node, T8: Node, T9: Node, T10: Node, T11: Node, T12: Node, T13: Node> Node for (T0, T1, T2, T3, T4, T5, T6, T7, T8, T9, T10, T11, T12, T13, ) {
    type Model = (T0::Model, T1::Model, T2::Model, T3::Model, T4::Model, T5::Model, T6::Model, T7::Model, T8::Model, T9::Model, T10::Model, T11::Model, T12::Model, T13::Model, );

    open spec fn model(&self) -> (T0::Model, T1::Model, T2::Model, T3::Model, T4::Model, T5::Model, T6::Model, T7::Model, T8::Model, T9::Model, T10::Model, T11::Model, T12::Model, T13::Model, ) {
        (self.0.model(), self.1.model(), self.2.model(), self.3.model(), self.4.model(), self.5.model(), self.6.model(), self.7.model(), self.8.model(), self.9.model(), self.10.model(), self.11.model(), self.12.model(), self.13.model(), )
    }

    open spec fn outcome(node: (T0::Model, T1::Model, T2::Model, T3::Model, T4::Model, T5::Model, T6::Model, T7::Model, T8::Model, T9::Model, T10::Model, T11::Model, T12::Model, T13::Model, ), tokens: Seq<Token>, clipboard: ClipboardModel) -> Outcome<
        (T0::Model, T1::Model, T2::Model, T3::Model, T4::Model, T5::Model, T6::Model, T7::Model, T8::Model, T9::Model, T10::Model, T11::Model, T12::Model, T13::Model, ),
    > {
        tuple14_outcome::<T0, T1, T2, T3, T4, T5, T6, T7, T8, T9, T10, T11, T12, T13>(node, tokens, clipboard)
    }

    open spec fn json(node: (T0::Model, T1::Model, T2::Model, T3::Model, T4::Model, T5::Model, T6::Model, T7::Model, T8::Model, T9::Model, T10::Model, T11::Model, T12::Model, T13::Model, )) -> JsonModel {
        tuple14_json::<T0, T1, T2, T3, T4, T5, T6, T7, T8, T9, T10, T11, T12, T13>(node)
    }

    open spec fn decoded(value: JsonModel) -> Result<(T0::Model, T1::Model, T2::Model, T3::Model, T4::Model, T5::Model, T6::Model, T7::Model, T8::Model, T9::Model, T10::Model, T11::Model, T12::Model, T13::Model, ), Seq<char>> {
        tuple14_decoded::<T0, T1, T2, T3, T4, T5, T6, T7, T8, T9, T10, T11, T12, T13>(value)
    }

    open spec fn default_model() -> (T0::Model, T1::Model, T2::Model, T3::Model, T4::Model, T5::Model, T6::Model, T7::Model, T8::Model, T9::Model, T10::Model, T11::Model, T12::Model, T13::Model, ) {
        (T0::default_model(), T1::default_model(), T2::default_model(), T3::default_model(), T4::default_model(), T5::default_model(), T6::default_model(), T7::default_model(), T8::default_model(), T9::default_model(), T10::default_model(), T11::default_model(), T12::default_model(), T13::default_model(), )
    }

    fn node_step_with(&mut self, runner: NodeRunner, clipboard: &mut Clipboard) -> (text: String) {
        let mut runner = runner;
        let ghost tokens = runner@;
        let token = runner.step();
        proof {
            if token@.is_chain() {
                lemma_rest_well_formed(tokens);
            }
            assert(Self::outcome(old(self).model(), tokens, old(clipboard)@) == tuple14_outcome::<
                T0, T1, T2, T3, T4, T5, T6, T7, T8, T9, T10, T11, T12, T13,
            >(old(self).model(), tokens, old(clipboard)@));
        }
        match token {
            NodeToken::ChainIndex(index) => {
                match index {
                    0 => self.0.node_step_with(runner, clipboard),
                    1 => self.1.node_step_with(runner, clipboard),
                    2 => self.2.node_step_with(runner, clipboard),
                    3 => self.3.node_step_with(runner, clipboard),
                    4 => self.4.node_step_with(runner, clipboard),
                    5 => self.5.node_step_with(runner, clipboard),
                    6 => self.6.node_step_with(runner, clipboard),
                    7 => self.7.node_step_with(runner, clipboard),
                    8 => self.8.node_step_with(runner, clipboard),
                    9 => self.9.node_step_with(runner, clipboard),
                    10 => self.10.node_step_with(runner, clipboard),
                    11 => self.11.node_step_with(runner, clipboard),
                    12 => self.12.node_step_with(runner, clipboard),
                    13 => self.13.node_step_with(runner, clipboard),
                    _ => {
                        let mut text = String::from_str("Used index ");
                        text.append(format_integer(index as i128).as_str());
                        text.append(" on a ");
                        text.append("( T0 , T1 , T2 , T3 , T4 , T5 , T6 , T7 , T8 , T9 , T10 , T11 , T12 , T13 , )");
                        text
                    },
                }
            },
            NodeToken::ChainAll => {
                let mut combined = String::from_str("|");
                combined.append(self.0.node_step_with(runner.duplicate(), clipboard).as_str());
                combined.append("|");
                combined.append(self.1.node_step_with(runner.duplicate(), clipboard).as_str());
                combined.append("|");
                combined.append(self.2.node_step_with(runner.duplicate(), clipboard).as_str());
                combined.append("|");
                combined.append(self.3.node_step_with(runner.duplicate(), clipboard).as_str());
                combined.append("|");
                combined.append(self.4.node_step_with(runner.duplicate(), clipboard).as_str());
                combined.append("|");
                combined.append(self.5.node_step_with(runner.duplicate(), clipboard).as_str());
                combined.append("|");
                combined.append(self.6.node_step_with(runner.duplicate(), clipboard).as_str());
                combined.append("|");
                combined.append(self.7.node_step_with(runner.duplicate(), clipboard).as_str());
                combined.append("|");
                combined.append(self.8.node_step_with(runner.duplicate(), clipboard).as_str());
                combined.append("|");
                combined.append(self.9.node_step_with(runner.duplicate(), clipboard).as_str());
                combined.append("|");
                combined.append(self.10.node_step_with(runner.duplicate(), clipboard).as_str());
                combined.append("|");
                combined.append(self.11.node_step_with(runner.duplicate(), clipboard).as_str());
                combined.append("|");
                combined.append(self.12.node_step_with(runner.duplicate(), clipboard).as_str());
                combined.append("|");
                combined.append(self.13.node_step_with(runner.duplicate(), clipboard).as_str());
                combined.append("|");
                combined
            },
            NodeToken::Get => {
                let value = self.to_json();
                json_pretty(&value)
            },
            NodeToken::SetValue(value) => {
                match json_parse(value.as_str()) {
                    Ok(json) => match Self::from_json(&json) {
                        Ok(node) => {
                            *self = node;
                            String::new()
                        },
                        Err(message) => set_error("( T0 , T1 , T2 , T3 , T4 , T5 , T6 , T7 , T8 , T9 , T10 , T11 , T12 , T13 , )", message.as_str()),
                    },
                    Err(message) => set_error("( T0 , T1 , T2 , T3 , T4 , T5 , T6 , T7 , T8 , T9 , T10 , T11 , T12 , T13 , )", message.as_str()),
                }
            },
            NodeToken::Help => String::from_str(
                "\nTuple Help\n\nCommands:\n*   help - display this help\n*   get  - display JSON\n*   set  - set to JSON\n\nAccessors:\n*   [index] - access item at index",
            ),
            action => cannot("( T0 , T1 , T2 , T3 , T4 , T5 , T6 , T7 , T8 , T9 , T10 , T11 , T12 , T13 , )", &action),
        }
    }

    fn to_json(&self) -> (value: serde_json::Value) {
        proof {
            assert(Self::json(self.model()) == tuple14_json::<T0, T1, T2, T3, T4, T5, T6, T7, T8, T9, T10, T11, T12, T13>(self.model()));
        }
        let mut values: Vec<serde_json::Value> = Vec::new();
        values.push(self.0.to_json());
        values.push(self.1.to_json());
        values.push(self.2.to_json());
        values.push(self.3.to_json());
        values.push(self.4.to_json());
        values.push(self.5.to_json());
        values.push(self.6.to_json());
        values.push(self.7.to_json());
        values.push(self.8.to_json());
        values.push(self.9.to_json());
        values.push(self.10.to_json());
        values.push(self.11.to_json());
        values.push(self.12.to_json());
        values.push(self.13.to_json());
        assert(json_views(values@) =~= seq![T0::json(self.0.model()), T1::json(self.1.model()), T2::json(self.2.model()), T3::json(self.3.model()), T4::json(self.4.model()), T5::json(self.5.model()), T6::json(self.6.model()), T7::json(self.7.model()), T8::json(self.8.model()), T9::json(self.9.model()), T10::json(self.10.model()), T11::json(self.11.model()), T12::json(self.12.model()), T13::json(self.13.model())]);
        json_from_list(values)
    }

    fn from_json(value: &serde_json::Value) -> (result: Result<(T0, T1, T2, T3, T4, T5, T6, T7, T8, T9, T10, T11, T12, T13, ), String>) {
        proof {
            assert(Self::decoded(json_view(*value)) == tuple14_decoded::<T0, T1, T2, T3, T4, T5, T6, T7, T8, T9, T10, T11, T12, T13>(
                json_view(*value),
            ));
        }
        let values = match json_as_list(value) {
            Some(values) => values,
            None => {
                return Err(invalid("( T0 , T1 , T2 , T3 , T4 , T5 , T6 , T7 , T8 , T9 , T10 , T11 , T12 , T13 , )", "a list of 14 values"));
            },
        };
        if values.len() != 14 {
            return Err(invalid("( T0 , T1 , T2 , T3 , T4 , T5 , T6 , T7 , T8 , T9 , T10 , T11 , T12 , T13 , )", "a list of 14 values"));
        }
        proof {
            assert(forall|i: int| 0 <= i < 14 ==> json_views(values@)[i] == json_view(values@[i]));
        }
        let field0 = match T0::from_json(&values[0]) {
            Ok(field) => field,
            Err(message) => {
                return Err(message);
            },
        };
        let field1 = match T1::from_json(&values[1]) {
            Ok(field) => field,
            Err(message) => {
                return Err(message);
            },
        };
        let field2 = match T2::from_json(&values[2]) {
            Ok(field) => field,
            Err(message) => {
                return Err(message);
            },
        };
        let field3 = match T3::from_json(&values[3]) {
            Ok(field) => field,
            Err(message) => {
                return Err(message);
            },
        };
        let field4 = match T4::from_json(&values[4]) {
            Ok(field) => field,
            Err(message) => {
                return Err(message);
            },
        };
        let field5 = match T5::from_json(&values[5]) {
            Ok(field) => field,
            Err(message) => {
                return Err(message);
            },
        };
        let field6 = match T6::from_json(&values[6]) {
            Ok(field) => field,
            Err(message) => {
                return Err(message);
            },
        };
        let field7 = match T7::from_json(&values[7]) {
            Ok(field) => field,
            Err(message) => {
                return Err(message);
            },
        };
        let field8 = match T8::from_json(&values[8]) {
            Ok(field) => field,
            Err(message) => {
                return Err(message);
            },
        };
        let field9 = match T9::from_json(&values[9]) {
            Ok(field) => field,
            Err(message) => {
                return Err(message);
            },
        };
        let field10 = match T10::from_json(&values[10]) {
            Ok(field) => field,
            Err(message) => {
                return Err(message);
            },
        };
        let field11 = match T11::from_json(&values[11]) {
            Ok(field) => field,
            Err(message) => {
                return Err(message);
            },
        };
        let field12 = match T12::from_json(&values[12]) {
            Ok(field) => field,
            Err(message) => {
                return Err(message);
            },
        };
        let field13 = match T13::from_json(&values[13]) {
            Ok(field) => field,
            Err(message) => {
                return Err(message);
            },
        };
        Ok((field0, field1, field2, field3, field4, field5, field6, field7, field8, field9, field10, field11, field12, field13, ))
    }

    fn default_node() -> (node: (T0, T1, T2, T3, T4, T5, T6, T7, T8, T9, T10, T11, T12, T13, )) {
        (T0::default_node(), T1::default_node(), T2::default_node(), T3::default_node(), T4::default_node(), T5::default_node(), T6::default_node(), T7::default_node(), T8::default_node(), T9::default_node(), T10::default_node(), T11::default_node(), T12::default_node(), T13::default_node(), )
    }
}

/// The laws of a tuple of 14, where they hold of its fields: reading changes
/// nothing, and a `set` that fails changes nothing.
pub proof fn lemma_tuple14_laws<T0: Node, T1: Node, T2: Node, T3: Node, T4: Node, T5: Node, T6: Node, T7: Node, T8: Node, T9: Node, T10: Node, T11: Node, T12: Node, T13: Node>()
    requires
        unchanged_by_reading::<T0>(),
        unchanged_by_reading::<T1>(),
        unchanged_by_reading::<T2>(),
        unchanged_by_reading::<T3>(),
        unchanged_by_reading::<T4>(),
        unchanged_by_reading::<T5>(),
        unchanged_by_reading::<T6>(),
        unchanged_by_reading::<T7>(),
        unchanged_by_reading::<T8>(),
        unchanged_by_reading::<T9>(),
        unchanged_by_reading::<T10>(),
        unchanged_by_reading::<T11>(),
        unchanged_by_reading::<T12>(),
        unchanged_by_reading::<T13>(),
    ensures
        unchanged_by_reading::<(T0, T1, T2, T3, T4, T5, T6, T7, T8, T9, T10, T11, T12, T13, )>(),
        set_fails_without_change::<(T0, T1, T2, T3, T4, T5, T6, T7, T8, T9, T10, T11, T12, T13, )>(),
{
    assert forall|node: (T0::Model, T1::Model, T2::Model, T3::Model, T4::Model, T5::Model, T6::Model, T7::Model, T8::Model, T9::Model, T10::Model, T11::Model, T12::Model, T13::Model, ), tokens: Seq<Token>, clipboard: ClipboardModel|
        reads(tokens) implies (#[trigger] <(T0, T1, T2, T3, T4, T5, T6, T7, T8, T9, T10, T11, T12, T13, )>::outcome(node, tokens, clipboard)).node == node
        && <(T0, T1, T2, T3, T4, T5, T6, T7, T8, T9, T10, T11, T12, T13, )>::outcome(node, tokens, clipboard).clipboard == clipboard by {
        if tokens.last().is_chain() {
            lemma_rest_reads(tokens);
        }
    }
    assert forall|node: (T0::Model, T1::Model, T2::Model, T3::Model, T4::Model, T5::Model, T6::Model, T7::Model, T8::Model, T9::Model, T10::Model, T11::Model, T12::Model, T13::Model, ), value: Seq<char>, clipboard: ClipboardModel|
        (#[trigger] <(T0, T1, T2, T3, T4, T5, T6, T7, T8, T9, T10, T11, T12, T13, )>::outcome(node, seq![Token::SetValue(value)], clipboard)).text.len()
            > 0 implies <(T0, T1, T2, T3, T4, T5, T6, T7, T8, T9, T10, T11, T12, T13, )>::outcome(node, seq![Token::SetValue(value)], clipboard).node
        == node by {
        assert(seq![Token::SetValue(value)].last() == Token::SetValue(value));
    }
}

/// A tuple of 14 is read back from the JSON list that is written for it, where
/// its fields are read back from their values.
pub proof fn lemma_tuple14_round_trips<T0: Node, T1: Node, T2: Node, T3: Node, T4: Node, T5: Node, T6: Node, T7: Node, T8: Node, T9: Node, T10: Node, T11: Node, T12: Node, T13: Node>(node: (T0::Model, T1::Model, T2::Model, T3::Model, T4::Model, T5::Model, T6::Model, T7::Model, T8::Model, T9::Model, T10::Model, T11::Model, T12::Model, T13::Model, ))
    requires
        round_trips::<T0>(node.0),
        round_trips::<T1>(node.1),
        round_trips::<T2>(node.2),
        round_trips::<T3>(node.3),
        round_trips::<T4>(node.4),
        round_trips::<T5>(node.5),
        round_trips::<T6>(node.6),
        round_trips::<T7>(node.7),
        round_trips::<T8>(node.8),
        round_trips::<T9>(node.9),
        round_trips::<T10>(node.10),
        round_trips::<T11>(node.11),
        round_trips::<T12>(node.12),
        round_trips::<T13>(node.13),
    ensures
        round_trips::<(T0, T1, T2, T3, T4, T5, T6, T7, T8, T9, T10, T11, T12, T13, )>(node),
{
}

/// The JSON list that stands for a tuple of 15: the value of each field, in order.
pub open spec fn tuple15_json<T0: Node, T1: Node, T2: Node, T3: Node, T4: Node, T5: Node, T6: Node, T7: Node, T8: Node, T9: Node, T10: Node, T11: Node, T12: Node, T13: Node, T14: Node>(node: (T0::Model, T1::Model, T2::Model, T3::Model, T4::Model, T5::Model, T6::Model, T7::Model, T8::Model, T9::Model, T10::Model, T11::Model, T12::Model, T13::Model, T14::Model, )) -> JsonModel {
    JsonModel::List(seq![T0::json(node.0), T1::json(node.1), T2::json(node.2), T3::json(node.3), T4::json(node.4), T5::json(node.5), T6::json(node.6), T7::json(node.7), T8::json(node.8), T9::json(node.9), T10::json(node.10), T11::json(node.11), T12::json(node.12), T13::json(node.13), T14::json(node.14)])
}

/// The tuple of 15 that a JSON value stands for: a list of 15 values, each of
/// which stands for the field at its place.
pub open spec fn tuple15_decoded<T0: Node, T1: Node, T2: Node, T3: Node, T4: Node, T5: Node, T6: Node, T7: Node, T8: Node, T9: Node, T10: Node, T11: Node, T12: Node, T13: Node, T14: Node>(value: JsonModel) -> Result<(T0::Model, T1::Model, T2::Model, T3::Model, T4::Model, T5::Model, T6::Model, T7::Model, T8::Model, T9::Model, T10::Model, T11::Model, T12::Model, T13::Model, T14::Model, ), Seq<char>> {
    match value {
        JsonModel::List(values) => if values.len() == 15 {
            match T0::decoded(values[0]) {
            Ok(field0) => match T1::decoded(values[1]) {
            Ok(field1) => match T2::decoded(values[2]) {
            Ok(field2) => match T3::decoded(values[3]) {
            Ok(field3) => match T4::decoded(values[4]) {
            Ok(field4) => match T5::decoded(values[5]) {
            Ok(field5) => match T6::decoded(values[6]) {
            Ok(field6) => match T7::decoded(values[7]) {
            Ok(field7) => match T8::decoded(values[8]) {
            Ok(field8) => match T9::decoded(values[9]) {
            Ok(field9) => match T10::decoded(values[10]) {
            Ok(field10) => match T11::decoded(values[11]) {
            Ok(field11) => match T12::decoded(values[12]) {
            Ok(field12) => match T13::decoded(values[13]) {
            Ok(field13) => match T14::decoded(values[14]) {
            Ok(field14) => Ok((field0, field1, field2, field3, field4, field5, field6, field7, field8, field9, field10, field11, field12, field13, field14, )),
            Err(message) => Err(message),
        },
            Err(message) => Err(message),
        },
            Err(message) => Err(message),
        },
            Err(message) => Err(message),
        },
            Err(message) => Err(message),
        },
            Err(message) => Err(message),
        },
            Err(message) => Err(message),
        },
            Err(message) => Err(message),
        },
            Err(message) => Err(message),
        },
            Err(message) => Err(message),
        },
            Err(message) => Err(message),
        },
            Err(message) => Err(message),
        },
            Err(message) => Err(message),
        },
            Err(message) => Err(message),
        },
            Err(message) => Err(message),
        }
        } else {
            Err(invalid_text("( T0 , T1 , T2 , T3 , T4 , T5 , T6 , T7 , T8 , T9 , T10 , T11 , T12 , T13 , T14 , )"@, "a list of 15 values"@))
        },
        _ => Err(invalid_text("( T0 , T1 , T2 , T3 , T4 , T5 , T6 , T7 , T8 , T9 , T10 , T11 , T12 , T13 , T14 , )"@, "a list of 15 values"@)),
    }
}

/// The tuple of 15 that the text `text` sets, or the message that says why it sets none.
pub open spec fn tuple15_set<T0: Node, T1: Node, T2: Node, T3: Node, T4: Node, T5: Node, T6: Node, T7: Node, T8: Node, T9: Node, T10: Node, T11: Node, T12: Node, T13: Node, T14: Node>(text: Seq<char>) -> Result<(T0::Model, T1::Model, T2::Model, T3::Model, T4::Model, T5::Model, T6::Model, T7::Model, T8::Model, T9::Model, T10::Model, T11::Model, T12::Model, T13::Model, T14::Model, ), Seq<char>> {
    match json_parsed(text) {
        Ok(value) => match tuple15_decoded::<T0, T1, T2, T3, T4, T5, T6, T7, T8, T9, T10, T11, T12, T13, T14>(value) {
            Ok(node) => Ok(node),
            Err(message) => Err("( T0 , T1 , T2 , T3 , T4 , T5 , T6 , T7 , T8 , T9 , T10 , T11 , T12 , T13 , T14 , )"@ + " set error: "@ + message),
        },
        Err(message) => Err("( T0 , T1 , T2 , T3 , T4 , T5 , T6 , T7 , T8 , T9 , T10 , T11 , T12 , T13 , T14 , )"@ + " set error: "@ + message),
    }
}

/// What a tuple of 15 makes of a command: `[i]` hands the command to the
/// field at `i`, `[*]` to every field in order; `get` writes the tuple as
/// JSON and `set` reads it from JSON.
pub open spec fn tuple15_outcome<T0: Node, T1: Node, T2: Node, T3: Node, T4: Node, T5: Node, T6: Node, T7: Node, T8: Node, T9: Node, T10: Node, T11: Node, T12: Node, T13: Node, T14: Node>(
    node: (T0::Model, T1::Model, T2::Model, T3::Model, T4::Model, T5::Model, T6::Model, T7::Model, T8::Model, T9::Model, T10::Model, T11::Model, T12::Model, T13::Model, T14::Model, ),
    tokens: Seq<Token>,
    clipboard: ClipboardModel,
) -> Outcome<(T0::Model, T1::Model, T2::Model, T3::Model, T4::Model, T5::Model, T6::Model, T7::Model, T8::Model, T9::Model, T10::Model, T11::Model, T12::Model, T13::Model, T14::Model, )> {
    let rest = tokens.drop_last();
    let unchanged = |text: Seq<char>| Outcome { text, node, clipboard };
    match tokens.last() {
        Token::ChainIndex(index) => if index == 0 {
            let one = T0::outcome(node.0, rest, clipboard);
            Outcome { text: one.text, node: (one.node, node.1, node.2, node.3, node.4, node.5, node.6, node.7, node.8, node.9, node.10, node.11, node.12, node.13, node.14, ), clipboard: one.clipboard }
        } else {
            if index == 1 {
            let one = T1::outcome(node.1, rest, clipboard);
            Outcome { text: one.text, node: (node.0, one.node, node.2, node.3, node.4, node.5, node.6, node.7, node.8, node.9, node.10, node.11, node.12, node.13, node.14, ), clipboard: one.clipboard }
        } else {
            if index == 2 {
            let one = T2::outcome(node.2, rest, clipboard);
            Outcome { text: one.text, node: (node.0, node.1, one.node, node.3, node.4, node.5, node.6, node.7, node.8, node.9, node.10, node.11, node.12, node.13, node.14, ), clipboard: one.clipboard }
        } else {
            if index == 3 {
            let one = T3::outcome(node.3, rest, clipboard);
            Outcome { text: one.text, node: (node.0, node.1, node.2, one.node, node.4, node.5, node.6, node.7, node.8, node.9, node.10, node.11, node.12, node.13, node.14, ), clipboard: one.clipboard }
        } else {
            if index == 4 {
            let one = T4::outcome(node.4, rest, clipboard);
            Outcome { text: one.text, node: (node.0, node.1, node.2, node.3, one.node, node.5, node.6, node.7, node.8, node.9, node.10, node.11, node.12, node.13, node.14, ), clipboard: one.clipboard }
        } else {
            if index == 5 {
            let one = T5::outcome(node.5, rest, clipboard);
            Outcome { text: one.text, node: (node.0, node.1, node.2, node.3, node.4, one.node, node.6, node.7, node.8, node.9, node.10, node.11, node.12, node.13, node.14, ), clipboard: one.clipboard }
        } else {
            if index == 6 {
            let one = T6::outcome(node.6, rest, clipboard);
            Outcome { text: one.text, node: (node.0, node.1, node.2, node.3, node.4, node.5, one.node, node.7, node.8, node.9, node.10, node.11, node.12, node.13, node.14, ), clipboard: one.clipboard }
        } else {
            if index == 7 {
            let one = T7::outcome(node.7, rest, clipboard);
            Outcome { text: one.text, node: (node.0, node.1, node.2, node.3, node.4, node.5, node.6, one.node, node.8, node.9, node.10, node.11, node.12, node.13, node.14, ), clipboard: one.clipboard }
        } else {
            if index == 8 {
            let one = T8::outcome(node.8, rest, clipboard);
            Outcome { text: one.text, node: (node.0, node.1, node.2, node.3, node.4, node.5, node.6, node.7, one.node, node.9, node.10, node.11, node.12, node.13, node.14, ), clipboard: one.clipboard }
        } else {
            if index == 9 {
            let one = T9::outcome(node.9, rest, clipboard);
            Outcome { text: one.text, node: (node.0, node.1, node.2, node.3, node.4, node.5, node.6, node.7, node.8, one.node, node.10, node.11, node.12, node.13, node.14, ), clipboard: one.clipboard }
        } else {
            if index == 10 {
            let one = T10::outcome(node.10, rest, clipboard);
            Outcome { text: one.text, node: (node.0, node.1, node.2, node.3, node.4, node.5, node.6, node.7, node.8, node.9, one.node, node.11, node.12, node.13, node.14, ), clipboard: one.clipboard }
        } else {
            if index == 11 {
            let one = T11::outcome(node.11, rest, clipboard);
            Outcome { text: one.text, node: (node.0, node.1, node.2, node.3, node.4, node.5, node.6, node.7, node.8, node.9, node.10, one.node, node.12, node.13, node.14, ), clipboard: one.clipboard }
        } else {
            if index == 12 {
            let one = T12::outcome(node.12, rest, clipboard);
            Outcome { text: one.text, node: (node.0, node.1, node.2, node.3, node.4, node.5, node.6, node.7, node.8, node.9, node.10, node.11, one.node, node.13, node.14, ), clipboard: one.clipboard }
        } else {
            if index == 13 {
            let one = T13::outcome(node.13, rest, clipboard);
            Outcome { text: one.text, node: (node.0, node.1, node.2, node.3, node.4, node.5, node.6, node.7, node.8, node.9, node.10, node.11, node.12, one.node, node.14, ), clipboard: one.clipboard }
        } else {
            if index == 14 {
            let one = T14::outcome(node.14, rest, clipboard);
            Outcome { text: one.text, node: (node.0, node.1, node.2, node.3, node.4, node.5, node.6, node.7, node.8, node.9, node.10, node.11, node.12, node.13, one.node, ), clipboard: one.clipboard }
        } else {
            unchanged("Used index "@ + decimal_text(index as int) + " on a "@ + "( T0 , T1 , T2 , T3 , T4 , T5 , T6 , T7 , T8 , T9 , T10 , T11 , T12 , T13 , T14 , )"@)
        }
        }
        }
        }
        }
        }
        }
        }
        }
        }
        }
        }
        }
        }
        },
        Token::ChainAll => {
            let step0 = T0::outcome(node.0, rest, clipboard);
            let step1 = T1::outcome(node.1, rest, step0.clipboard);
            let step2 = T2::outcome(node.2, rest, step1.clipboard);
            let step3 = T3::outcome(node.3, rest, step2.clipboard);
            let step4 = T4::outcome(node.4, rest, step3.clipboard);
            let step5 = T5::outcome(node.5, rest, step4.clipboard);
            let step6 = T6::outcome(node.6, rest, step5.clipboard);
            let step7 = T7::outcome(node.7, rest, step6.clipboard);
            let step8 = T8::outcome(node.8, rest, step7.clipboard);
            let step9 = T9::outcome(node.9, rest, step8.clipboard);
            let step10 = T10::outcome(node.10, rest, step9.clipboard);
            let step11 = T11::outcome(node.11, rest, step10.clipboard);
            let step12 = T12::outcome(node.12, rest, step11.clipboard);
            let step13 = T13::outcome(node.13, rest, step12.clipboard);
            let step14 = T14::outcome(node.14, rest, step13.clipboard);
            Outcome {
                text: "|"@ + step0.text + "|"@ + step1.text + "|"@ + step2.text + "|"@ + step3.text + "|"@ + step4.text + "|"@ + step5.text + "|"@ + step6.text + "|"@ + step7.text + "|"@ + step8.text + "|"@ + step9.text + "|"@ + step10.text + "|"@ + step11.text + "|"@ + step12.text + "|"@ + step13.text + "|"@ + step14.text + "|"@,
                node: (step0.node, step1.node, step2.node, step3.node, step4.node, step5.node, step6.node, step7.node, step8.node, step9.node, step10.node, step11.node, step12.node, step13.node, step14.node, ),
                clipboard: step14.clipboard,
            }
        },
        Token::Get => unchanged(json_pretty_text(tuple15_json::<T0, T1, T2, T3, T4, T5, T6, T7, T8, T9, T10, T11, T12, T13, T14>(node))),
        Token::SetValue(value) => match tuple15_set::<T0, T1, T2, T3, T4, T5, T6, T7, T8, T9, T10, T11, T12, T13, T14>(value) {
            Ok(node) => Outcome { text: Seq::empty(), node, clipboard },
            Err(message) => unchanged(message),
        },
        Token::Help => unchanged(tuple_help()),
        token => unchanged(cannot_text("( T0 , T1 , T2 , T3 , T4 , T5 , T6 , T7 , T8 , T9 , T10 , T11 , T12 , T13 , T14 , )"@, token)),
    }
}

impl<T0: Node, T1: Node, T2: Node, T3: Node, T4: Node, T5: Node, T6: Node, T7: Node, T8: Node, T9: Node, T10: Node, T11: Node, T12: Node, T13: Node, T14: Node> Node for (T0, T1, T2, T3, T4, T5, T6, T7, T8, T9, T10, T11, T12, T13, T14, ) {
    type Model = (T0::Model, T1::Model, T2::Model, T3::Model, T4::Model, T5::Model, T6::Model, T7::Model, T8::Model, T9::Model, T10::Model, T11::Model, T12::Model, T13::Model, T14::Model, );

    open spec fn model(&self) -> (T0::Model, T1::Model, T2::Model, T3::Model, T4::Model, T5::Model, T6::Model, T7::Model, T8::Model, T9::Model, T10::Model, T11::Model, T12::Model, T13::Model, T14::Model, ) {
        (self.0.model(), self.1.model(), self.2.model(), self.3.model(), self.4.model(), self.5.model(), self.6.model(), self.7.model(), self.8.model(), self.9.model(), self.10.model(), self.11.model(), self.12.model(), self.13.model(), self.14.model(), )
    }

    open spec fn outcome(node: (T0::Model, T1::Model, T2::Model, T3::Model, T4::Model, T5::Model, T6::Model, T7::Model, T8::Model, T9::Model, T10::Model, T11::Model, T12::Model, T13::Model, T14::Model, ), tokens: Seq<Token>, clipboard: ClipboardModel) -> Outcome<
        (T0::Model, T1::Model, T2::Model, T3::Model, T4::Model, T5::Model, T6::Model, T7::Model, T8::Model, T9::Model, T10::Model, T11::Model, T12::Model, T13::Model, T14::Model, ),
    > {
        tuple15_outcome::<T0, T1, T2, T3, T4, T5, T6, T7, T8, T9, T10, T11, T12, T13, T14>(node, tokens, clipboard)
    }

    open spec fn json(node: (T0::Model, T1::Model, T2::Model, T3::Model, T4::Model, T5::Model, T6::Model, T7::Model, T8::Model, T9::Model, T10::Model, T11::Model, T12::Model, T13::Model, T14::Model, )) -> JsonModel {
        tuple15_json::<T0, T1, T2, T3, T4, T5, T6, T7, T8, T9, T10, T11, T12, T13, T14>(node)
    }

    open spec fn decoded(value: JsonModel) -> Result<(T0::Model, T1::Model, T2::Model, T3::Model, T4::Model, T5::Model, T6::Model, T7::Model, T8::Model, T9::Model, T10::Model, T11::Model, T12::Model, T13::Model, T14::Model, ), Seq<char>> {
        tuple15_decoded::<T0, T1, T2, T3, T4, T5, T6, T7, T8, T9, T10, T11, T12, T13, T14>(value)
    }

    open spec fn default_model() -> (T0::Model, T1::Model, T2::Model, T3::Model, T4::Model, T5::Model, T6::Model, T7::Model, T8::Model, T9::Model, T10::Model, T11::Model, T12::Model, T13::Model, T14::Model, ) {
        (T0::default_model(), T1::default_model(), T2::default_model(), T3::default_model(), T4::default_model(), T5::default_model(), T6::default_model(), T7::default_model(), T8::default_model(), T9::default_model(), T10::default_model(), T11::default_model(), T12::default_model(), T13::default_model(), T14::default_model(), )
    }

    fn node_step_with(&mut self, runner: NodeRunner, clipboard: &mut Clipboard) -> (text: String) {
        let mut runner = runner;
        let ghost tokens = runner@;
        let token = runner.step();
        proof {
            if token@.is_chain() {
                lemma_rest_well_formed(tokens);
            }
            assert(Self::outcome(old(self).model(), tokens, old(clipboard)@) == tuple15_outcome::<
                T0, T1, T2, T3, T4, T5, T6, T7, T8, T9, T10, T11, T12, T13, T14,
            >(old(self).model(), tokens, old(clipboard)@));
        }
        match token {
            NodeToken::ChainIndex(index) => {
                match index {
                    0 => self.0.node_step_with(runner, clipboard),
                    1 => self.1.node_step_with(runner, clipboard),
                    2 => self.2.node_step_with(runner, clipboard),
                    3 => self.3.node_step_with(runner, clipboard),
                    4 => self.4.node_step_with(runner, clipboard),
                    5 => self.5.node_step_with(runner, clipboard),
                    6 => self.6.node_step_with(runner, clipboard),
                    7 => self.7.node_step_with(runner, clipboard),
                    8 => self.8.node_step_with(runner, clipboard),
                    9 => self.9.node_step_with(runner, clipboard),
                    10 => self.10.node_step_with(runner, clipboard),
                    11 => self.11.node_step_with(runner, clipboard),
                    12 => self.12.node_step_with(runner, clipboard),
                    13 => self.13.node_step_with(runner, clipboard),
                    14 => self.14.node_step_with(runner, clipboard),
                    _ => {
                        let mut text = String::from_str("Used index ");
                        text.append(format_integer(index as i128).as_str());
                        text.append(" on a ");
                        text.append("( T0 , T1 , T2 , T3 , T4 , T5 , T6 , T7 , T8 , T9 , T10 , T11 , T12 , T13 , T14 , )");
                        text
                    },
                }
            },
            NodeToken::ChainAll => {
                let mut combined = String::from_str("|");
                combined.append(self.0.node_step_with(runner.duplicate(), clipboard).as_str());
                combined.append("|");
                combined.append(self.1.node_step_with(runner.duplicate(), clipboard).as_str());
                combined.append("|");
                combined.append(self.2.node_step_with(runner.duplicate(), clipboard).as_str());
                combined.append("|");
                combined.append(self.3.node_step_with(runner.duplicate(), clipboard).as_str());
                combined.append("|");
                combined.append(self.4.node_step_with(runner.duplicate(), clipboard).as_str());
                combined.append("|");
                combined.append(self.5.node_step_with(runner.duplicate(), clipboard).as_str());
                combined.append("|");
                combined.append(self.6.node_step_with(runner.duplicate(), clipboard).as_str());
                combined.append("|");
                combined.append(self.7.node_step_with(runner.duplicate(), clipboard).as_str());
                combined.append("|");
                combined.append(self.8.node_step_with(runner.duplicate(), clipboard).as_str());
                combined.append("|");
                combined.append(self.9.node_step_with(runner.duplicate(), clipboard).as_str());
                combined.append("|");
                combined.append(self.10.node_step_with(runner.duplicate(), clipboard).as_str());
                combined.append("|");
                combined.append(self.11.node_step_with(runner.duplicate(), clipboard).as_str());
                combined.append("|");
                combined.append(self.12.node_step_with(runner.duplicate(), clipboard).as_str());
                combined.append("|");
                combined.append(self.13.node_step_with(runner.duplicate(), clipboard).as_str());
                combined.append("|");
                combined.append(self.14.node_step_with(runner.duplicate(), clipboard).as_str());
                combined.append("|");
                combined
            },
            NodeToken::Get => {
                let value = self.to_json();
                json_pretty(&value)
            },
            NodeToken::SetValue(value) => {
                match json_parse(value.as_str()) {
                    Ok(json) => match Self::from_json(&json) {
                        Ok(node) => {
                            *self = node;
                            String::new()
                        },
                        Err(message) => set_error("( T0 , T1 , T2 , T3 , T4 , T5 , T6 , T7 , T8 , T9 , T10 , T11 , T12 , T13 , T14 , )", message.as_str()),
                    },
                    Err(message) => set_error("( T0 , T1 , T2 , T3 , T4 , T5 , T6 , T7 , T8 , T9 , T10 , T11 , T12 , T13 , T14 , )", message.as_str()),
                }
            },
            NodeToken::Help => String::from_str(
                "\nTuple Help\n\nCommands:\n*   help - display this help\n*   get  - display JSON\n*   set  - set to JSON\n\nAccessors:\n*   [index] - access item at index",
            ),
            action => cannot("( T0 , T1 , T2 , T3 , T4 , T5 , T6 , T7 , T8 , T9 , T10 , T11 , T12 , T13 , T14 , )", &action),
        }
    }

    fn to_json(&self) -> (value: serde_json::Value) {
        proof {
            assert(Self::json(self.model()) == tuple15_json::<T0, T1, T2, T3, T4, T5, T6, T7, T8, T9, T10, T11, T12, T13, T14>(self.model()));
        }
        let mut values: Vec<serde_json::Value> = Vec::new();
        values.push(self.0.to_json());
        values.push(self.1.to_json());
        values.push(self.2.to_json());
        values.push(self.3.to_json());
        values.push(self.4.to_json());
        values.push(self.5.to_json());
        values.push(self.6.to_json());
        values.push(self.7.to_json());
        values.push(self.8.to_json());
        values.push(self.9.to_json());
        values.push(self.10.to_json());
        values.push(self.11.to_json());
        values.push(self.12.to_json());
        values.push(self.13.to_json());
        values.push(self.14.to_json());
        assert(json_views(values@) =~= seq![T0::json(self.0.model()), T1::json(self.1.model()), T2::json(self.2.model()), T3::json(self.3.model()), T4::json(self.4.model()), T5::json(self.5.model()), T6::json(self.6.model()), T7::json(self.7.model()), T8::json(self.8.model()), T9::json(self.9.model()), T10::json(self.10.model()), T11::json(self.11.model()), T12::json(self.12.model()), T13::json(self.13.model()), T14::json(self.14.model())]);
        json_from_list(values)
    }

    fn from_json(value: &serde_json::Value) -> (result: Result<(T0, T1, T2, T3, T4, T5, T6, T7, T8, T9, T10, T11, T12, T13, T14, ), String>) {
        proof {
            assert(Self::decoded(json_view(*value)) == tuple15_decoded::<T0, T1, T2, T3, T4, T5, T6, T7, T8, T9, T10, T11, T12, T13, T14>(
                json_view(*value),
            ));
        }
        let values = match json_as_list(value) {
            Some(values) => values,
            None => {
                return Err(invalid("( T0 , T1 , T2 , T3 , T4 , T5 , T6 , T7 , T8 , T9 , T10 , T11 , T12 , T13 , T14 , )", "a list of 15 values"));
            },
        };
        if values.len() != 15 {
            return Err(invalid("( T0 , T1 , T2 , T3 , T4 , T5 , T6 , T7 , T8 , T9 , T10 , T11 , T12 , T13 , T14 , )", "a list of 15 values"));
        }
        proof {
            assert(forall|i: int| 0 <= i < 15 ==> json_views(values@)[i] == json_view(values@[i]));
        }
        let field0 = match T0::from_json(&values[0]) {
            Ok(field) => field,
            Err(message) => {
                return Err(message);
            },
        };
        let field1 = match T1::from_json(&values[1]) {
            Ok(field) => field,
            Err(message) => {
                return Err(message);
            },
        };
        let field2 = match T2::from_json(&values[2]) {
            Ok(field) => field,
            Err(message) => {
                return Err(message);
            },
        };
        let field3 = match T3::from_json(&values[3]) {
            Ok(field) => field,
            Err(message) => {
                return Err(message);
            },
        };
        let field4 = match T4::from_json(&values[4]) {
            Ok(field) => field,
            Err(message) => {
                return Err(message);
            },
        };
        let field5 = match T5::from_json(&values[5]) {
            Ok(field) => field,
            Err(message) => {
                return Err(message);
            },
        };
        let field6 = match T6::from_json(&values[6]) {
            Ok(field) => field,
            Err(message) => {
                return Err(message);
            },
        };
        let field7 = match T7::from_json(&values[7]) {
            Ok(field) => field,
            Err(message) => {
                return Err(message);
            },
        };
        let field8 = match T8::from_json(&values[8]) {
            Ok(field) => field,
            Err(message) => {
                return Err(message);
            },
        };
        let field9 = match T9::from_json(&values[9]) {
            Ok(field) => field,
            Err(message) => {
                return Err(message);
            },
        };
        let field10 = match T10::from_json(&values[10]) {
            Ok(field) => field,
            Err(message) => {
                return Err(message);
            },
        };
        let field11 = match T11::from_json(&values[11]) {
            Ok(field) => field,
            Err(message) => {
                return Err(message);
            },
        };
        let field12 = match T12::from_json(&values[12]) {
            Ok(field) => field,
            Err(message) => {
                return Err(message);
            },
        };
        let field13 = match T13::from_json(&values[13]) {
            Ok(field) => field,
            Err(message) => {
                return Err(message);
            },
        };
        let field14 = match T14::from_json(&values[14]) {
            Ok(field) => field,
            Err(message) => {
                return Err(message);
            },
        };
        Ok((field0, field1, field2, field3, field4, field5, field6, field7, field8, field9, field10, field11, field12, field13, field14, ))
    }

    fn default_node() -> (node: (T0, T1, T2, T3, T4, T5, T6, T7, T8, T9, T10, T11, T12, T13, T14, )) {
        (T0::default_node(), T1::default_node(), T2::default_node(), T3::default_node(), T4::default_node(), T5::default_node(), T6::default_node(), T7::default_node(), T8::default_node(), T9::default_node(), T10::default_node(), T11::default_node(), T12::default_node(), T13::default_node(), T14::default_node(), )
    }
}

/// The laws of a tuple of 15, where they hold of its fields: reading changes
/// nothing, and a `set` that fails changes nothing.
pub proof fn lemma_tuple15_laws<T0: Node, T1: Node, T2: Node, T3: Node, T4: Node, T5: Node, T6: Node, T7: Node, T8: Node, T9: Node, T10: Node, T11: Node, T12: Node, T13: Node, T14: Node>()
    requires
        unchanged_by_reading::<T0>(),
        unchanged_by_reading::<T1>(),
        unchanged_by_reading::<T2>(),
        unchanged_by_reading::<T3>(),
        unchanged_by_reading::<T4>(),
        unchanged_by_reading::<T5>(),
        unchanged_by_reading::<T6>(),
        unchanged_by_reading::<T7>(),
        unchanged_by_reading::<T8>(),
        unchanged_by_reading::<T9>(),
        unchanged_by_reading::<T10>(),
        unchanged_by_reading::<T11>(),
        unchanged_by_reading::<T12>(),
        unchanged_by_reading::<T13>(),
        unchanged_by_reading::<T14>(),
    ensures
        unchanged_by_reading::<(T0, T1, T2, T3, T4, T5, T6, T7, T8, T9, T10, T11, T12, T13, T14, )>(),
        set_fails_without_change::<(T0, T1, T2, T3, T4, T5, T6, T7, T8, T9, T10, T11, T12, T13, T14, )>(),
{
    assert forall|node: (T0::Model, T1::Model, T2::Model, T3::Model, T4::Model, T5::Model, T6::Model, T7::Model, T8::Model, T9::Model, T10::Model, T11::Model, T12::Model, T13::Model, T14::Model, ), tokens: Seq<Token>, clipboard: ClipboardModel|
        reads(tokens) implies (#[trigger] <(T0, T1, T2, T3, T4, T5, T6, T7, T8, T9, T10, T11, T12, T13, T14, )>::outcome(node, tokens, clipboard)).node == node
        && <(T0, T1, T2, T3, T4, T5, T6, T7, T8, T9, T10, T11, T12, T13, T14, )>::outcome(node, tokens, clipboard).clipboard == clipboard by {
        if tokens.last().is_chain() {
            lemma_rest_reads(tokens);
        }
    }
    assert forall|node: (T0::Model, T1::Model, T2::Model, T3::Model, T4::Model, T5::Model, T6::Model, T7::Model, T8::Model, T9::Model, T10::Model, T11::Model, T12::Model, T13::Model, T14::Model, ), value: Seq<char>, clipboard: ClipboardModel|
        (#[trigger] <(T0, T1, T2, T3, T4, T5, T6, T7, T8, T9, T10, T11, T12, T13, T14, )>::outcome(node, seq![Token::SetValue(value)], clipboard)).text.len()
            > 0 implies <(T0, T1, T2, T3, T4, T5, T6, T7, T8, T9, T10, T11, T12, T13, T14, )>::outcome(node, seq![Token::SetValue(value)], clipboard).node
        == node by {
        assert(seq![Token::SetValue(value)].last() == Token::SetValue(value));
    }
}

/// A tuple of 15 is read back from the JSON list that is written for it, where
/// its fields are read back from their values.
pub proof fn lemma_tuple15_round_trips<T0: Node, T1: Node, T2: Node, T3: Node, T4: Node, T5: Node, T6: Node, T7: Node, T8: Node, T9: Node, T10: Node, T11: Node, T12: Node, T13: Node, T14: Node>(node: (T0::Model, T1::Model, T2::Model, T3::Model, T4::Model, T5::Model, T6::Model, T7::Model, T8::Model, T9::Model, T10::Model, T11::Model, T12::Model, T13::Model, T14::Model, ))
    requires
        round_trips::<T0>(node.0),
        round_trips::<T1>(node.1),
        round_trips::<T2>(node.2),
        round_trips::<T3>(node.3),
        round_trips::<T4>(node.4),
        round_trips::<T5>(node.5),
        round_trips::<T6>(node.6),
        round_trips::<T7>(node.7),
        round_trips::<T8>(node.8),
        round_trips::<T9>(node.9),
        round_trips::<T10>(node.10),
        round_trips::<T11>(node.11),
        round_trips::<T12>(node.12),
        round_trips::<T13>(node.13),
        round_trips::<T14>(node.14),
    ensures
        round_trips::<(T0, T1, T2, T3, T4, T5, T6, T7, T8, T9, T10, T11, T12, T13, T14, )>(node),
{
}

/// The JSON list that stands for a tuple of 16: the value of each field, in order.
pub open spec fn tuple16_json<T0: Node, T1: Node, T2: Node, T3: Node, T4: Node, T5: Node, T6: Node, T7: Node, T8: Node, T9: Node, T10: Node, T11: Node, T12: Node, T13: Node, T14: Node, T15: Node>(node: (T0::Model, T1::Model, T2::Model, T3::Model, T4::Model, T5::Model, T6::Model, T7::Model, T8::Model, T9::Model, T10::Model, T11::Model, T12::Model, T13::Model, T14::Model, T15::Model, )) -> JsonModel {
    JsonModel::List(seq![T0::json(node.0), T1::json(node.1), T2::json(node.2), T3::json(node.3), T4::json(node.4), T5::json(node.5), T6::json(node.6), T7::json(node.7), T8::json(node.8), T9::json(node.9), T10::json(node.10), T11::json(node.11), T12::json(node.12), T13::json(node.13), T14::json(node.14), T15::json(node.15)])
}

/// The tuple of 16 that a JSON value stands for: a list of 16 values, each of
/// which stands for the field at its place.
pub open spec fn tuple16_decoded<T0: Node, T1: Node, T2: Node, T3: Node, T4: Node, T5: Node, T6: Node, T7: Node, T8: Node, T9: Node, T10: Node, T11: Node, T12: Node, T13: Node, T14: Node, T15: Node>(value: JsonModel) -> Result<(T0::Model, T1::Model, T2::Model, T3::Model, T4::Model, T5::Model, T6::Model, T7::Model, T8::Model, T9::Model, T10::Model, T11::Model, T12::Model, T13::Model, T14::Model, T15::Model, ), Seq<char>> {
    match value {
        JsonModel::List(values) => if values.len() == 16 {
            match T0::decoded(values[0]) {
            Ok(field0) => match T1::decoded(values[1]) {
            Ok(field1) => match T2::decoded(values[2]) {
            Ok(field2) => match T3::decoded(values[3]) {
            Ok(field3) => match T4::decoded(values[4]) {
            Ok(field4) => match T5::decoded(values[5]) {
            Ok(field5) => match T6::decoded(values[6]) {
            Ok(field6) => match T7::decoded(values[7]) {
            Ok(field7) => match T8::decoded(values[8]) {
            Ok(field8) => match T9::decoded(values[9]) {
            Ok(field9) => match T10::decoded(values[10]) {
            Ok(field10) => match T11::decoded(values[11]) {
            Ok(field11) => match T12::decoded(values[12]) {
            Ok(field12) => match T13::decoded(values[13]) {
            Ok(field13) => match T14::decoded(values[14]) {
            Ok(field14) => match T15::decoded(values[15]) {
            Ok(field15) => Ok((field0, field1, field2, field3, field4, field5, field6, field7, field8, field9, field10, field11, field12, field13, field14, field15, )),
            Err(message) => Err(message),
        },
            Err(message) => Err(message),
        },
            Err(message) => Err(message),
        },
            Err(message) => Err(message),
        },
            Err(message) => Err(message),
        },
            Err(message) => Err(message),
        },
            Err(message) => Err(message),
        },
            Err(message) => Err(message),
        },
            Err(message) => Err(message),
        },
            Err(message) => Err(message),
        },
            Err(message) => Err(message),
        },
            Err(message) => Err(message),
        },
            Err(message) => Err(message),
        },
            Err(message) => Err(message),
        },
            Err(message) => Err(message),
        },
            Err(message) => Err(message),
        }
        } else {
            Err(invalid_text("( T0 , T1 , T2 , T3 , T4 , T5 , T6 , T7 , T8 , T9 , T10 , T11 , T12 , T13 , T14 , T15 , )"@, "a list of 16 values"@))
        },
        _ => Err(invalid_text("( T0 , T1 , T2 , T3 , T4 , T5 , T6 , T7 , T8 , T9 , T10 , T11 , T12 , T13 , T14 , T15 , )"@, "a list of 16 values"@)),
    }
}

/// The tuple of 16 that the text `text` sets, or the message that says why it sets none.
pub open spec fn tuple16_set<T0: Node, T1: Node, T2: Node, T3: Node, T4: Node, T5: Node, T6: Node, T7: Node, T8: Node, T9: Node, T10: Node, T11: Node, T12: Node, T13: Node, T14: Node, T15: Node>(text: Seq<char>) -> Result<(T0::Model, T1::Model, T2::Model, T3::Model, T4::Model, T5::Model, T6::Model, T7::Model, T8::Model, T9::Model, T10::Model, T11::Model, T12::Model, T13::Model, T14::Model, T15::Model, ), Seq<char>> {
    match json_parsed(text) {
        Ok(value) => match tuple16_decoded::<T0, T1, T2, T3, T4, T5, T6, T7, T8, T9, T10, T11, T12, T13, T14, T15>(value) {
            Ok(node) => Ok(node),
            Err(message) => Err("( T0 , T1 , T2 , T3 , T4 , T5 , T6 , T7 , T8 , T9 , T10 , T11 , T12 , T13 , T14 , T15 , )"@ + " set error: "@ + message),
        },
        Err(message) => Err("( T0 , T1 , T2 , T3 , T4 , T5 , T6 , T7 , T8 , T9 , T10 , T11 , T12 , T13 , T14 , T15 , )"@ + " set error: "@ + message),
    }
}

/// What a tuple of 16 makes of a command: `[i]` hands the command to the
/// field at `i`, `[*]` to every field in order; `get` writes the tuple as
/// JSON and `set` reads it from JSON.
pub open spec fn tuple16_outcome<T0: Node, T1: Node, T2: Node, T3: Node, T4: Node, T5: Node, T6: Node, T7: Node, T8: Node, T9: Node, T10: Node, T11: Node, T12: Node, T13: Node, T14: Node, T15: Node>(
    node: (T0::Model, T1::Model, T2::Model, T3::Model, T4::Model, T5::Model, T6::Model, T7::Model, T8::Model, T9::Model, T10::Model, T11::Model, T12::Model, T13::Model, T14::Model, T15::Model, ),
    tokens: Seq<Token>,
    clipboard: ClipboardModel,
) -> Outcome<(T0::Model, T1::Model, T2::Model, T3::Model, T4::Model, T5::Model, T6::Model, T7::Model, T8::Model, T9::Model, T10::Model, T11::Model, T12::Model, T13::Model, T14::Model, T15::Model, )> {
    let rest = tokens.drop_last();
    let unchanged = |text: Seq<char>| Outcome { text, node, clipboard };
    match tokens.last() {
        Token::ChainIndex(index) => if index == 0 {
            let one = T0::outcome(node.0, rest, clipboard);
            Outcome { text: one.text, node: (one.node, node.1, node.2, node.3, node.4, node.5, node.6, node.7, node.8, node.9, node.10, node.11, node.12, node.13, node.14, node.15, ), clipboard: one.clipboard }
        } else {
            if index == 1 {
            let one = T1::outcome(node.1, rest, clipboard);
            Outcome { text: one.text, node: (node.0, one.node, node.2, node.3, node.4, node.5, node.6, node.7, node.8, node.9, node.10, node.11, node.12, node.13, node.14, node.15, ), clipboard: one.clipboard }
        } else {
            if index == 2 {
            let one = T2::outcome(node.2, rest, clipboard);
            Outcome { text: one.text, node: (node.0, node.1, one.node, node.3, node.4, node.5, node.6, node.7, node.8, node.9, node.10, node.11, node.12, node.13, node.14, node.15, ), clipboard: one.clipboard }
        } else {
            if index == 3 {
            let one = T3::outcome(node.3, rest, clipboard);
            Outcome { text: one.text, node: (node.0, node.1, node.2, one.node, node.4, node.5, node.6, node.7, node.8, node.9, node.10, node.11, node.12, node.13, node.14, node.15, ), clipboard: one.clipboard }
        } else {
            if index == 4 {
            let one = T4::outcome(node.4, rest, clipboard);
            Outcome { text: one.text, node: (node.0, node.1, node.2, node.3, one.node, node.5, node.6, node.7, node.8, node.9, node.10, node.11, node.12, node.13, node.14, node.15, ), clipboard: one.clipboard }
        } else {
            if index == 5 {
            let one = T5::outcome(node.5, rest, clipboard);
            Outcome { text: one.text, node: (node.0, node.1, node.2, node.3, node.4, one.node, node.6, node.7, node.8, node.9, node.10, node.11, node.12, node.13, node.14, node.15, ), clipboard: one.clipboard }
        } else {
            if index == 6 {
            let one = T6::outcome(node.6, rest, clipboard);
            Outcome { text: one.text, node: (node.0, node.1, node.2, node.3, node.4, node.5, one.node, node.7, node.8, node.9, node.10, node.11, node.12, node.13, node.14, node.15, ), clipboard: one.clipboard }
        } else {
            if index == 7 {
            let one = T7::outcome(node.7, rest, clipboard);
            Outcome { text: one.text, node: (node.0, node.1, node.2, node.3, node.4, node.5, node.6, one.node, node.8, node.9, node.10, node.11, node.12, node.13, node.14, node.15, ), clipboard: one.clipboard }
        } else {
            if index == 8 {
            let one = T8::outcome(node.8, rest, clipboard);
            Outcome { text: one.text, node: (node.0, node.1, node.2, node.3, node.4, node.5, node.6, node.7, one.node, node.9, node.10, node.11, node.12, node.13, node.14, node.15, ), clipboard: one.clipboard }
        } else {
            if index == 9 {
            let one = T9::outcome(node.9, rest, clipboard);
            Outcome { text: one.text, node: (node.0, node.1, node.2, node.3, node.4, node.5, node.6, node.7, node.8, one.node, node.10, node.11, node.12, node.13, node.14, node.15, ), clipboard: one.clipboard }
        } else {
            if index == 10 {
            let one = T10::outcome(node.10, rest, clipboard);
            Outcome { text: one.text, node: (node.0, node.1, node.2, node.3, node.4, node.5, node.6, node.7, node.8, node.9, one.node, node.11, node.12, node.13, node.14, node.15, ), clipboard: one.clipboard }
        } else {
            if index == 11 {
            let one = T11::outcome(node.11, rest, clipboard);
            Outcome { text: one.text, node: (node.0, node.1, node.2, node.3, node.4, node.5, node.6, node.7, node.8, node.9, node.10, one.node, node.12, node.13, node.14, node.15, ), clipboard: one.clipboard }
        } else {
            if index == 12 {
            let one = T12::outcome(node.12, rest, clipboard);
            Outcome { text: one.text, node: (node.0, node.1, node.2, node.3, node.4, node.5, node.6, node.7, node.8, node.9, node.10, node.11, one.node, node.13, node.14, node.15, ), clipboard: one.clipboard }
        } else {
            if index == 13 {
            let one = T13::outcome(node.13, rest, clipboard);
            Outcome { text: one.text, node: (node.0, node.1, node.2, node.3, node.4, node.5, node.6, node.7, node.8, node.9, node.10, node.11, node.12, one.node, node.14, node.15, ), clipboard: one.clipboard }
        } else {
            if index == 14 {
            let one = T14::outcome(node.14, rest, clipboard);
            Outcome { text: one.text, node: (node.0, node.1, node.2, node.3, node.4, node.5, node.6, node.7, node.8, node.9, node.10, node.11, node.12, node.13, one.node, node.15, ), clipboard: one.clipboard }
        } else {
            if index == 15 {
            let one = T15::outcome(node.15, rest, clipboard);
            Outcome { text: one.text, node: (node.0, node.1, node.2, node.3, node.4, node.5, node.6, node.7, node.8, node.9, node.10, node.11, node.12, node.13, node.14, one.node, ), clipboard: one.clipboard }
        } else {
            unchanged("Used index "@ + decimal_text(index as int) + " on a "@ + "( T0 , T1 , T2 , T3 , T4 , T5 , T6 , T7 , T8 , T9 , T10 , T11 , T12 , T13 , T14 , T15 , )"@)
        }
        }
        }
        }
        }
        }
        }
        }
        }
        }
        }
        }
        }
        }
        }
        },
        Token::ChainAll => {
            let step0 = T0::outcome(node.0, rest, clipboard);
            let step1 = T1::outcome(node.1, rest, step0.clipboard);
            let step2 = T2::outcome(node.2, rest, step1.clipboard);
            let step3 = T3::outcome(node.3, rest, step2.clipboard);
            let step4 = T4::outcome(node.4, rest, step3.clipboard);
            let step5 = T5::outcome(node.5, rest, step4.clipboard);
            let step6 = T6::outcome(node.6, rest, step5.clipboard);
            let step7 = T7::outcome(node.7, rest, step6.clipboard);
            let step8 = T8::outcome(node.8, rest, step7.clipboard);
            let step9 = T9::outcome(node.9, rest, step8.clipboard);
            let step10 = T10::outcome(node.10, rest, step9.clipboard);
            let step11 = T11::outcome(node.11, rest, step10.clipboard);
            let step12 = T12::outcome(node.12, rest, step11.clipboard);
            let step13 = T13::outcome(node.13, rest, step12.clipboard);
            let step14 = T14::outcome(node.14, rest, step13.clipboard);
            let step15 = T15::outcome(node.15, rest, step14.clipboard);
            Outcome {
                text: "|"@ + step0.text + "|"@ + step1.text + "|"@ + step2.text + "|"@ + step3.text + "|"@ + step4.text + "|"@ + step5.text + "|"@ + step6.text + "|"@ + step7.text + "|"@ + step8.text + "|"@ + step9.text + "|"@ + step10.text + "|"@ + step11.text + "|"@ + step12.text + "|"@ + step13.text + "|"@ + step14.text + "|"@ + step15.text + "|"@,
                node: (step0.node, step1.node, step2.node, step3.node, step4.node, step5.node, step6.node, step7.node, step8.node, step9.node, step10.node, step11.node, step12.node, step13.node, step14.node, step15.node, ),
                clipboard: step15.clipboard,
            }
        },
        Token::Get => unchanged(json_pretty_text(tuple16_json::<T0, T1, T2, T3, T4, T5, T6, T7, T8, T9, T10, T11, T12, T13, T14, T15>(node))),
        Token::SetValue(value) => match tuple16_set::<T0, T1, T2, T3, T4, T5, T6, T7, T8, T9, T10, T11, T12, T13, T14, T15>(value) {
            Ok(node) => Outcome { text: Seq::empty(), node, clipboard },
            Err(message) => unchanged(message),
        },
        Token::Help => unchanged(tuple_help()),
        token => unchanged(cannot_text("( T0 , T1 , T2 , T3 , T4 , T5 , T6 , T7 , T8 , T9 , T10 , T11 , T12 , T13 , T14 , T15 , )"@, token)),
    }
}

impl<T0: Node, T1: Node, T2: Node, T3: Node, T4: Node, T5: Node, T6: Node, T7: Node, T8: Node, T9: Node, T10: Node, T11: Node, T12: Node, T13: Node, T14: Node, T15: Node> Node for (T0, T1, T2, T3, T4, T5, T6, T7, T8, T9, T10, T11, T12, T13, T14, T15, ) {
    type Model = (T0::Model, T1::Model, T2::Model, T3::Model, T4::Model, T5::Model, T6::Model, T7::Model, T8::Model, T9::Model, T10::Model, T11::Model, T12::Model, T13::Model, T14::Model, T15::Model, );

    open spec fn model(&self) -> (T0::Model, T1::Model, T2::Model, T3::Model, T4::Model, T5::Model, T6::Model, T7::Model, T8::Model, T9::Model, T10::Model, T11::Model, T12::Model, T13::Model, T14::Model, T15::Model, ) {
        (self.0.model(), self.1.model(), self.2.model(), self.3.model(), self.4.model(), self.5.model(), self.6.model(), self.7.model(), self.8.model(), self.9.model(), self.10.model(), self.11.model(), self.12.model(), self.13.model(), self.14.model(), self.15.model(), )
    }

    open spec fn outcome(node: (T0::Model, T1::Model, T2::Model, T3::Model, T4::Model, T5::Model, T6::Model, T7::Model, T8::Model, T9::Model, T10::Model, T11::Model, T12::Model, T13::Model, T14::Model, T15::Model, ), tokens: Seq<Token>, clipboard: ClipboardModel) -> Outcome<
        (T0::Model, T1::Model, T2::Model, T3::Model, T4::Model, T5::Model, T6::Model, T7::Model, T8::Model, T9::Model, T10::Model, T11::Model, T12::Model, T13::Model, T14::Model, T15::Model, ),
    > {
        tuple16_outcome::<T0, T1, T2, T3, T4, T5, T6, T7, T8, T9, T10, T11, T12, T13, T14, T15>(node, tokens, clipboard)
    }

    open spec fn json(node: (T0::Model, T1::Model, T2::Model, T3::Model, T4::Model, T5::Model, T6::Model, T7::Model, T8::Model, T9::Model, T10::Model, T11::Model, T12::Model, T13::Model, T14::Model, T15::Model, )) -> JsonModel {
        tuple16_json::<T0, T1, T2, T3, T4, T5, T6, T7, T8, T9, T10, T11, T12, T13, T14, T15>(node)
    }

    open spec fn decoded(value: JsonModel) -> Result<(T0::Model, T1::Model, T2::Model, T3::Model, T4::Model, T5::Model, T6::Model, T7::Model, T8::Model, T9::Model, T10::Model, T11::Model, T12::Model, T13::Model, T14::Model, T15::Model, ), Seq<char>> {
        tuple16_decoded::<T0, T1, T2, T3, T4, T5, T6, T7, T8, T9, T10, T11, T12, T13, T14, T15>(value)
    }

    open spec fn default_model() -> (T0::Model, T1::Model, T2::Model, T3::Model, T4::Model, T5::Model, T6::Model, T7::Model, T8::Model, T9::Model, T10::Model, T11::Model, T12::Model, T13::Model, T14::Model, T15::Model, ) {
        (T0::default_model(), T1::default_model(), T2::default_model(), T3::default_model(), T4::default_model(), T5::default_model(), T6::default_model(), T7::default_model(), T8::default_model(), T9::default_model(), T10::default_model(), T11::default_model(), T12::default_model(), T13::default_model(), T14::default_model(), T15::default_model(), )
    }

    fn node_step_with(&mut self, runner: NodeRunner, clipboard: &mut Clipboard) -> (text: String) {
        let mut runner = runner;
        let ghost tokens = runner@;
        let token = runner.step();
        proof {
            if token@.is_chain() {
                lemma_rest_well_formed(tokens);
            }
            assert(Self::outcome(old(self).model(), tokens, old(clipboard)@) == tuple16_outcome::<
                T0, T1, T2, T3, T4, T5, T6, T7, T8, T9, T10, T11, T12, T13, T14, T15,
            >(old(self).model(), tokens, old(clipboard)@));
        }
        match token {
            NodeToken::ChainIndex(index) => {
                match index {
                    0 => self.0.node_step_with(runner, clipboard),
                    1 => self.1.node_step_with(runner, clipboard),
                    2 => self.2.node_step_with(runner, clipboard),
                    3 => self.3.node_step_with(runner, clipboard),
                    4 => self.4.node_step_with(runner, clipboard),
                    5 => self.5.node_step_with(runner, clipboard),
                    6 => self.6.node_step_with(runner, clipboard),
                    7 => self.7.node_step_with(runner, clipboard),
                    8 => self.8.node_step_with(runner, clipboard),
                    9 => self.9.node_step_with(runner, clipboard),
                    10 => self.10.node_step_with(runner, clipboard),
                    11 => self.11.node_step_with(runner, clipboard),
                    12 => self.12.node_step_with(runner, clipboard),
                    13 => self.13.node_step_with(runner, clipboard),
                    14 => self.14.node_step_with(runner, clipboard),
                    15 => self.15.node_step_with(runner, clipboard),
                    _ => {
                        let mut text = String::from_str("Used index ");
                        text.append(format_integer(index as i128).as_str());
                        text.append(" on a ");
                        text.append("( T0 , T1 , T2 , T3 , T4 , T5 , T6 , T7 , T8 , T9 , T10 , T11 , T12 , T13 , T14 , T15 , )");
                        text
                    },
                }
            },
            NodeToken::ChainAll => {
                let mut combined = String::from_str("|");
                combined.append(self.0.node_step_with(runner.duplicate(), clipboard).as_str());
                combined.append("|");
                combined.append(self.1.node_step_with(runner.duplicate(), clipboard).as_str());
                combined.append("|");
                combined.append(self.2.node_step_with(runner.duplicate(), clipboard).as_str());
                combined.append("|");
                combined.append(self.3.node_step_with(runner.duplicate(), clipboard).as_str());
                combined.append("|");
                combined.append(self.4.node_step_with(runner.duplicate(), clipboard).as_str());
                combined.append("|");
                combined.append(self.5.node_step_with(runner.duplicate(), clipboard).as_str());
                combined.append("|");
                combined.append(self.6.node_step_with(runner.duplicate(), clipboard).as_str());
                combined.append("|");
                combined.append(self.7.node_step_with(runner.duplicate(), clipboard).as_str());
                combined.append("|");
                combined.append(self.8.node_step_with(runner.duplicate(), clipboard).as_str());
                combined.append("|");
                combined.append(self.9.node_step_with(runner.duplicate(), clipboard).as_str());
                combined.append("|");
                combined.append(self.10.node_step_with(runner.duplicate(), clipboard).as_str());
                combined.append("|");
                combined.append(self.11.node_step_with(runner.duplicate(), clipboard).as_str());
                combined.append("|");
                combined.append(self.12.node_step_with(runner.duplicate(), clipboard).as_str());
                combined.append("|");
                combined.append(self.13.node_step_with(runner.duplicate(), clipboard).as_str());
                combined.append("|");
                combined.append(self.14.node_step_with(runner.duplicate(), clipboard).as_str());
                combined.append("|");
                combined.append(self.15.node_step_with(runner.duplicate(), clipboard).as_str());
                combined.append("|");
                combined
            },
            NodeToken::Get => {
                let value = self.to_json();
                json_pretty(&value)
            },
            NodeToken::SetValue(value) => {
                match json_parse(value.as_str()) {
                    Ok(json) => match Self::from_json(&json) {
                        Ok(node) => {
                            *self = node;
                            String::new()
                        },
                        Err(message) => set_error("( T0 , T1 , T2 , T3 , T4 , T5 , T6 , T7 , T8 , T9 , T10 , T11 , T12 , T13 , T14 , T15 , )", message.as_str()),
                    },
                    Err(message) => set_error("( T0 , T1 , T2 , T3 , T4 , T5 , T6 , T7 , T8 , T9 , T10 , T11 , T12 , T13 , T14 , T15 , )", message.as_str()),
                }
            },
            NodeToken::Help => String::from_str(
                "\nTuple Help\n\nCommands:\n*   help - display this help\n*   get  - display JSON\n*   set  - set to JSON\n\nAccessors:\n*   [index] - access item at index",
            ),
            action => cannot("( T0 , T1 , T2 , T3 , T4 , T5 , T6 , T7 , T8 , T9 , T10 , T11 , T12 , T13 , T14 , T15 , )", &action),
        }
    }

    fn to_json(&self) -> (value: serde_json::Value) {
        proof {
            assert(Self::json(self.model()) == tuple16_json::<T0, T1, T2, T3, T4, T5, T6, T7, T8, T9, T10, T11, T12, T13, T14, T15>(self.model()));
        }
        let mut values: Vec<serde_json::Value> = Vec::new();
        values.push(self.0.to_json());
        values.push(self.1.to_json());
        values.push(self.2.to_json());
        values.push(self.3.to_json());
        values.push(self.4.to_json());
        values.push(self.5.to_json());
        values.push(self.6.to_json());
        values.push(self.7.to_json());
        values.push(self.8.to_json());
        values.push(self.9.to_json());
        values.push(self.10.to_json());
        values.push(self.11.to_json());
        values.push(self.12.to_json());
        values.push(self.13.to_json());
        values.push(self.14.to_json());
        values.push(self.15.to_json());
        assert(json_views(values@) =~= seq![T0::json(self.0.model()), T1::json(self.1.model()), T2::json(self.2.model()), T3::json(self.3.model()), T4::json(self.4.model()), T5::json(self.5.model()), T6::json(self.6.model()), T7::json(self.7.model()), T8::json(self.8.model()), T9::json(self.9.model()), T10::json(self.10.model()), T11::json(self.11.model()), T12::json(self.12.model()), T13::json(self.13.model()), T14::json(self.14.model()), T15::json(self.15.model())]);
        json_from_list(values)
    }

    fn from_json(value: &serde_json::Value) -> (result: Result<(T0, T1, T2, T3, T4, T5, T6, T7, T8, T9, T10, T11, T12, T13, T14, T15, ), String>) {
        proof {
            assert(Self::decoded(json_view(*value)) == tuple16_decoded::<T0, T1, T2, T3, T4, T5, T6, T7, T8, T9, T10, T11, T12, T13, T14, T15>(
                json_view(*value),
            ));
        }
        let values = match json_as_list(value) {
            Some(values) => values,
            None => {
                return Err(invalid("( T0 , T1 , T2 , T3 , T4 , T5 , T6 , T7 , T8 , T9 , T10 , T11 , T12 , T13 , T14 , T15 , )", "a list of 16 values"));
            },
        };
        if values.len() != 16 {
            return Err(invalid("( T0 , T1 , T2 , T3 , T4 , T5 , T6 , T7 , T8 , T9 , T10 , T11 , T12 , T13 , T14 , T15 , )", "a list of 16 values"));
        }
        proof {
            assert(forall|i: int| 0 <= i < 16 ==> json_views(values@)[i] == json_view(values@[i]));
        }
        let field0 = match T0::from_json(&values[0]) {
            Ok(field) => field,
            Err(message) => {
                return Err(message);
            },
        };
        let field1 = match T1::from_json(&values[1]) {
            Ok(field) => field,
            Err(message) => {
                return Err(message);
            },
        };
        let field2 = match T2::from_json(&values[2]) {
            Ok(field) => field,
            Err(message) => {
                return Err(message);
            },
        };
        let field3 = match T3::from_json(&values[3]) {
            Ok(field) => field,
            Err(message) => {
                return Err(message);
            },
        };
        let field4 = match T4::from_json(&values[4]) {
            Ok(field) => field,
            Err(message) => {
                return Err(message);
            },
        };
        let field5 = match T5::from_json(&values[5]) {
            Ok(field) => field,
            Err(message) => {
                return Err(message);
            },
        };
        let field6 = match T6::from_json(&values[6]) {
            Ok(field) => field,
            Err(message) => {
                return Err(message);
            },
        };
        let field7 = match T7::from_json(&values[7]) {
            Ok(field) => field,
            Err(message) => {
                return Err(message);
            },
        };
        let field8 = match T8::from_json(&values[8]) {
            Ok(field) => field,
            Err(message) => {
                return Err(message);
            },
        };
        let field9 = match T9::from_json(&values[9]) {
            Ok(field) => field,
            Err(message) => {
                return Err(message);
            },
        };
        let field10 = match T10::from_json(&values[10]) {
            Ok(field) => field,
            Err(message) => {
                return Err(message);
            },
        };
        let field11 = match T11::from_json(&values[11]) {
            Ok(field) => field,
            Err(message) => {
                return Err(message);
            },
        };
        let field12 = match T12::from_json(&values[12]) {
            Ok(field) => field,
            Err(message) => {
                return Err(message);
            },
        };
        let field13 = match T13::from_json(&values[13]) {
            Ok(field) => field,
            Err(message) => {
                return Err(message);
            },
        };
        let field14 = match T14::from_json(&values[14]) {
            Ok(field) => field,
            Err(message) => {
                return Err(message);
            },
        };
        let field15 = match T15::from_json(&values[15]) {
            Ok(field) => field,
            Err(message) => {
                return Err(message);
            },
        };
        Ok((field0, field1, field2, field3, field4, field5, field6, field7, field8, field9, field10, field11, field12, field13, field14, field15, ))
    }

    fn default_node() -> (node: (T0, T1, T2, T3, T4, T5, T6, T7, T8, T9, T10, T11, T12, T13, T14, T15, )) {
        (T0::default_node(), T1::default_node(), T2::default_node(), T3::default_node(), T4::default_node(), T5::default_node(), T6::default_node(), T7::default_node(), T8::default_node(), T9::default_node(), T10::default_node(), T11::default_node(), T12::default_node(), T13::default_node(), T14::default_node(), T15::default_node(), )
    }
}

/// The laws of a tuple of 16, where they hold of its fields: reading changes
/// nothing, and a `set` that fails changes nothing.
pub proof fn lemma_tuple16_laws<T0: Node, T1: Node, T2: Node, T3: Node, T4: Node, T5: Node, T6: Node, T7: Node, T8: Node, T9: Node, T10: Node, T11: Node, T12: Node, T13: Node, T14: Node, T15: Node>()
    requires
        unchanged_by_reading::<T0>(),
        unchanged_by_reading::<T1>(),
        unchanged_by_reading::<T2>(),
        unchanged_by_reading::<T3>(),
        unchanged_by_reading::<T4>(),
        unchanged_by_reading::<T5>(),
        unchanged_by_reading::<T6>(),
        unchanged_by_reading::<T7>(),
        unchanged_by_reading::<T8>(),
        unchanged_by_reading::<T9>(),
        unchanged_by_reading::<T10>(),
        unchanged_by_reading::<T11>(),
        unchanged_by_reading::<T12>(),
        unchanged_by_reading::<T13>(),
        unchanged_by_reading::<T14>(),
        unchanged_by_reading::<T15>(),
    ensures
        unchanged_by_reading::<(T0, T1, T2, T3, T4, T5, T6, T7, T8, T9, T10, T11, T12, T13, T14, T15, )>(),
        set_fails_without_change::<(T0, T1, T2, T3, T4, T5, T6, T7, T8, T9, T10, T11, T12, T13, T14, T15, )>(),
{
    assert forall|node: (T0::Model, T1::Model, T2::Model, T3::Model, T4::Model, T5::Model, T6::Model, T7::Model, T8::Model, T9::Model, T10::Model, T11::Model, T12::Model, T13::Model, T14::Model, T15::Model, ), tokens: Seq<Token>, clipboard: ClipboardModel|
        reads(tokens) implies (#[trigger] <(T0, T1, T2, T3, T4, T5, T6, T7, T8, T9, T10, T11, T12, T13, T14, T15, )>::outcome(node, tokens, clipboard)).node == node
        && <(T0, T1, T2, T3, T4, T5, T6, T7, T8, T9, T10, T11, T12, T13, T14, T15, )>::outcome(node, tokens, clipboard).clipboard == clipboard by {
        if tokens.last().is_chain() {
            lemma_rest_reads(tokens);
        }
    }
    assert forall|node: (T0::Model, T1::Model, T2::Model, T3::Model, T4::Model, T5::Model, T6::Model, T7::Model, T8::Model, T9::Model, T10::Model, T11::Model, T12::Model, T13::Model, T14::Model, T15::Model, ), value: Seq<char>, clipboard: ClipboardModel|
        (#[trigger] <(T0, T1, T2, T3, T4, T5, T6, T7, T8, T9, T10, T11, T12, T13, T14, T15, )>::outcome(node, seq![Token::SetValue(value)], clipboard)).text.len()
            > 0 implies <(T0, T1, T2, T3, T4, T5, T6, T7, T8, T9, T10, T11, T12, T13, T14, T15, )>::outcome(node, seq![Token::SetValue(value)], clipboard).node
        == node by {
        assert(seq![Token::SetValue(value)].last() == Token::SetValue(value));
    }
}

/// A tuple of 16 is read back from the JSON list that is written for it, where
/// its fields are read back from their values.
pub proof fn lemma_tuple16_round_trips<T0: Node, T1: Node, T2: Node, T3: Node, T4: Node, T5: Node, T6: Node, T7: Node, T8: Node, T9: Node, T10: Node, T11: Node, T12: Node, T13: Node, T14: Node, T15: Node>(node: (T0::Model, T1::Model, T2::Model, T3::Model, T4::Model, T5::Model, T6::Model, T7::Model, T8::Model, T9::Model, T10::Model, T11::Model, T12::Model, T13::Model, T14::Model, T15::Model, ))
    requires
        round_trips::<T0>(node.0),
        round_trips::<T1>(node.1),
        round_trips::<T2>(node.2),
        round_trips::<T3>(node.3),
        round_trips::<T4>(node.4),
        round_trips::<T5>(node.5),
        round_trips::<T6>(node.6),
        round_trips::<T7>(node.7),
        round_trips::<T8>(node.8),
        round_trips::<T9>(node.9),
        round_trips::<T10>(node.10),
        round_trips::<T11>(node.11),
        round_trips::<T12>(node.12),
        round_trips::<T13>(node.13),
        round_trips::<T14>(node.14),
        round_trips::<T15>(node.15),
    ensures
        round_trips::<(T0, T1, T2, T3, T4, T5, T6, T7, T8, T9, T10, T11, T12, T13, T14, T15, )>(node),
{
}

} // verus!
