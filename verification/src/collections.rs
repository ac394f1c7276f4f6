//! The containers of the standard library as nodes: vectors and options.

use vstd::prelude::*;
use vstd::string::*;
use crate::container::{
    all_indices, fan_out, indices, json_list, decoded_list, list_from_json, list_set,
    list_to_json, models, remove_empty, remove_empty_text, set_error, set_list, step_item,
    step_picks, tried_index, tried_index_text, used_index, used_index_text,
};
use crate::json::{
    json_is_null, json_null, json_parse, json_parsed, json_pretty, json_pretty_text, json_view,
    JsonModel,
};
use crate::node::{cannot, cannot_text, Clipboard, ClipboardModel, Node, Outcome};
use crate::node_runner::{lemma_rest_well_formed, NodeRunner};
use crate::node_token::{NodeToken, Token};
use crate::numeric::{integer_outcome, integer_step, IntegerKind};
use crate::text::text_is;

verus! {

/// The help of a vector.
pub open spec fn vec_help() -> Seq<char> {
    "\nVector Help\n\nCommands:\n*   help    - display this help\n*   get     - display JSON\n*   set     - set to JSON\n*   insert  - create a new element\n*   remove  - remove an element\n*   default - reset to empty vector\n\nAccessors:\n*   [index] - access item at index\n*   .length - display number of items"@
}

/// What the number of elements of a container makes of a command: what an
/// integer makes of it, but that the container is not changed by it.
pub open spec fn length_outcome<M>(
    node: M,
    len: nat,
    tokens: Seq<Token>,
    clipboard: ClipboardModel,
) -> Outcome<M> {
    let inner = integer_outcome(IntegerKind::Usize, len as int, tokens, clipboard);
    Outcome { text: inner.text, node, clipboard: inner.clipboard }
}

/// What a vector makes of a command.
///
/// `[i]` hands the command to the element at `i`, `[*]` to every element,
/// `.length` to the number of elements. `get` writes the vector as JSON and
/// `set` reads it from JSON. `insert i` puts a new element at `i`, which may
/// be the length; `remove i` takes the element at `i` away; `reset` empties
/// the vector.
pub open spec fn vec_outcome<T: Node>(
    node: Seq<T::Model>,
    tokens: Seq<Token>,
    clipboard: ClipboardModel,
) -> Outcome<Seq<T::Model>> {
    let rest = tokens.drop_last();
    let unchanged = |text: Seq<char>| Outcome { text, node, clipboard };
    match tokens.last() {
        Token::ChainIndex(index) => if index < node.len() {
            let one = T::outcome(node[index as int], rest, clipboard);
            Outcome {
                text: one.text,
                node: node.update(index as int, one.node),
                clipboard: one.clipboard,
            }
        } else {
            unchanged(used_index_text("vector"@, index, node.len()))
        },
        Token::ChainAll => fan_out::<T>(node, all_indices(node.len()), rest, clipboard),
        Token::ChainProperty(name) => if name == "length"@ {
            length_outcome(node, node.len(), rest, clipboard)
        } else {
            unchanged(cannot_text("vector"@, tokens.last()))
        },
        Token::Get => unchanged(json_pretty_text(json_list::<T>(node))),
        Token::SetValue(value) => match list_set::<T>("vector"@, value) {
            Ok(items) => Outcome { text: Seq::empty(), node: items, clipboard },
            Err(message) => unchanged(message),
        },
        Token::InsertIndex(index) => if index > node.len() {
            unchanged(tried_index_text("insert at"@, "vector"@, index, node.len(), node.len()))
        } else {
            Outcome {
                text: Seq::empty(),
                node: node.insert(index as int, T::default_model()),
                clipboard,
            }
        },
        Token::RemoveIndex(index) => if node.len() == 0 {
            unchanged(remove_empty_text("vector"@))
        } else if index >= node.len() {
            unchanged(
                tried_index_text(
                    "remove the value at"@,
                    "vector"@,
                    index,
                    node.len(),
                    (node.len() - 1) as nat,
                ),
            )
        } else {
            Outcome { text: Seq::empty(), node: node.remove(index as int), clipboard }
        },
        Token::SetDefault => Outcome { text: Seq::empty(), node: Seq::empty(), clipboard },
        Token::Help => unchanged(vec_help()),
        token => unchanged(cannot_text("vector"@, token)),
    }
}

impl<T: Node> Node for Vec<T> {
    type Model = Seq<T::Model>;

    open spec fn model(&self) -> Seq<T::Model> {
        models(self@)
    }

    open spec fn outcome(
        node: Seq<T::Model>,
        tokens: Seq<Token>,
        clipboard: ClipboardModel,
    ) -> Outcome<Seq<T::Model>> {
        vec_outcome::<T>(node, tokens, clipboard)
    }

    open spec fn json(node: Seq<T::Model>) -> JsonModel {
        json_list::<T>(node)
    }

    open spec fn decoded(value: JsonModel) -> Result<Seq<T::Model>, Seq<char>> {
        decoded_list::<T>("vector"@, value)
    }

    open spec fn default_model() -> Seq<T::Model> {
        Seq::empty()
    }

    fn node_step_with(&mut self, runner: NodeRunner, clipboard: &mut Clipboard) -> (text: String) {
        let mut runner = runner;
        let ghost tokens = runner@;
        let token = runner.step();
        proof {
            if token@.is_chain() {
                lemma_rest_well_formed(tokens);
            }
        }
        let length = self.len();
        match token {
            NodeToken::ChainIndex(index) => {
                if index < length {
                    step_item(self.as_mut_slice(), index, runner, clipboard)
                } else {
                    used_index("vector", index, length)
                }
            },
            NodeToken::ChainAll => {
                let picks = indices(length);
                step_picks(self.as_mut_slice(), &picks, &runner, clipboard)
            },
            NodeToken::ChainProperty(name) => {
                if text_is(&name, "length") {
                    let (text, _) = integer_step(
                        IntegerKind::Usize,
                        length as i128,
                        runner,
                        clipboard,
                    );
                    text
                } else {
                    cannot("vector", &NodeToken::ChainProperty(name))
                }
            },
            NodeToken::Get => {
                let value = list_to_json(self);
                json_pretty(&value)
            },
            NodeToken::SetValue(value) => {
                match set_list::<T>("vector", value.as_str()) {
                    Ok(items) => {
                        *self = items;
                        String::new()
                    },
                    Err(message) => message,
                }
            },
            NodeToken::InsertIndex(index) => {
                if index > length {
                    tried_index("insert at", "vector", index, length, length)
                } else {
                    let item = T::default_node();
                    self.insert(index, item);
                    assert(models(self@) =~= models(old(self)@).insert(index as int, item.model()));
                    String::new()
                }
            },
            NodeToken::RemoveIndex(index) => {
                if length == 0 {
                    remove_empty("vector")
                } else if index >= length {
                    tried_index("remove the value at", "vector", index, length, length - 1)
                } else {
                    self.remove(index);
                    assert(models(self@) =~= models(old(self)@).remove(index as int));
                    String::new()
                }
            },
            NodeToken::SetDefault => {
                *self = Vec::new();
                assert(models(self@) =~= Seq::<T::Model>::empty());
                String::new()
            },
            NodeToken::Help => String::from_str(
                "\nVector Help\n\nCommands:\n*   help    - display this help\n*   get     - display JSON\n*   set     - set to JSON\n*   insert  - create a new element\n*   remove  - remove an element\n*   default - reset to empty vector\n\nAccessors:\n*   [index] - access item at index\n*   .length - display number of items",
            ),
            action => cannot("vector", &action),
        }
    }

    fn to_json(&self) -> (value: serde_json::Value) {
        list_to_json(self)
    }

    fn from_json(value: &serde_json::Value) -> (result: Result<Vec<T>, String>) {
        list_from_json::<T>("vector", value)
    }

    fn default_node() -> (node: Vec<T>) {
        let node: Vec<T> = Vec::new();
        assert(models(node@) =~= Seq::<T::Model>::empty());
        node
    }
}

/// The help of an optional node.
pub open spec fn option_help() -> Seq<char> {
    "\nOption Help\n\nCommands:\n*   help    - display this help\n*   get     - display JSON\n*   set     - set to JSON\n*   insert  - set to a value\n*   remove  - remove value\n*   default - remove value\n\nAccessors:\n*   .value - the stored value number of items"@
}

/// The mathematical value of an optional node.
pub open spec fn option_model<T: Node>(node: Option<T>) -> Option<T::Model> {
    match node {
        Some(value) => Some(value.model()),
        None => None,
    }
}

/// The JSON value that stands for an optional node: `null` where there is none.
pub open spec fn option_json<T: Node>(node: Option<T::Model>) -> JsonModel {
    match node {
        Some(value) => T::json(value),
        None => JsonModel::Null,
    }
}

/// The optional node that a JSON value stands for.
pub open spec fn option_decoded<T: Node>(value: JsonModel) -> Result<Option<T::Model>, Seq<char>> {
    if value is Null {
        Ok(None)
    } else {
        match T::decoded(value) {
            Ok(node) => Ok(Some(node)),
            Err(message) => Err(message),
        }
    }
}

/// The optional node that the text `text` sets.
pub open spec fn option_set<T: Node>(text: Seq<char>) -> Result<Option<T::Model>, Seq<char>> {
    match json_parsed(text) {
        Ok(value) => match option_decoded::<T>(value) {
            Ok(node) => Ok(node),
            Err(message) => Err("Option"@ + " set error: "@ + message),
        },
        Err(message) => Err("Option"@ + " set error: "@ + message),
    }
}

/// What an optional node makes of a command.
///
/// `.value` hands the command to the value, where there is one. `get` writes
/// the option as JSON and `set` reads it from JSON. `insert` sets it to a new
/// value, `remove` and `reset` to none.
pub open spec fn option_outcome<T: Node>(
    node: Option<T::Model>,
    tokens: Seq<Token>,
    clipboard: ClipboardModel,
) -> Outcome<Option<T::Model>> {
    let rest = tokens.drop_last();
    let unchanged = |text: Seq<char>| Outcome { text, node, clipboard };
    match tokens.last() {
        Token::ChainProperty(name) => if name == "value"@ {
            match node {
                Some(value) => {
                    let one = T::outcome(value, rest, clipboard);
                    Outcome { text: one.text, node: Some(one.node), clipboard: one.clipboard }
                },
                None => unchanged("Option contains no value"@),
            }
        } else {
            unchanged(cannot_text("Option"@, tokens.last()))
        },
        Token::Get => unchanged(json_pretty_text(option_json::<T>(node))),
        Token::SetValue(value) => match option_set::<T>(value) {
            Ok(node) => Outcome { text: Seq::empty(), node, clipboard },
            Err(message) => unchanged(message),
        },
        Token::Insert => Outcome {
            text: Seq::empty(),
            node: Some(T::default_model()),
            clipboard,
        },
        Token::Remove => Outcome { text: Seq::empty(), node: None, clipboard },
        Token::SetDefault => Outcome { text: Seq::empty(), node: None, clipboard },
        Token::Help => unchanged(option_help()),
        token => unchanged(cannot_text("Option"@, token)),
    }
}

impl<T: Node> Node for Option<T> {
    type Model = Option<T::Model>;

    open spec fn model(&self) -> Option<T::Model> {
        option_model(*self)
    }

    open spec fn outcome(
        node: Option<T::Model>,
        tokens: Seq<Token>,
        clipboard: ClipboardModel,
    ) -> Outcome<Option<T::Model>> {
        option_outcome::<T>(node, tokens, clipboard)
    }

    open spec fn json(node: Option<T::Model>) -> JsonModel {
        option_json::<T>(node)
    }

    open spec fn decoded(value: JsonModel) -> Result<Option<T::Model>, Seq<char>> {
        option_decoded::<T>(value)
    }

    open spec fn default_model() -> Option<T::Model> {
        None
    }

    fn node_step_with(&mut self, runner: NodeRunner, clipboard: &mut Clipboard) -> (text: String) {
        let mut runner = runner;
        let ghost tokens = runner@;
        let token = runner.step();
        proof {
            if token@.is_chain() {
                lemma_rest_well_formed(tokens);
            }
            assert(Self::outcome(old(self).model(), tokens, old(clipboard)@) == option_outcome::<T>(
                old(self).model(),
                tokens,
                old(clipboard)@,
            ));
        }
        match token {
            NodeToken::ChainProperty(name) => {
                if text_is(&name, "value") {
                    match self {
                        Some(value) => {
                            let ghost before = value.model();
                            let text = value.node_step_with(runner, clipboard);
                            assert(old(self).model() == Some(before));
                            assert(self.model() == Some(value.model()));
                            text
                        },
                        None => {
                            assert(old(self).model() == None::<T::Model>);
                            String::from_str("Option contains no value")
                        },
                    }
                } else {
                    cannot("Option", &NodeToken::ChainProperty(name))
                }
            },
            NodeToken::Get => {
                let value = self.to_json();
                json_pretty(&value)
            },
            NodeToken::SetValue(value) => {
                match json_parse(value.as_str()) {
                    Ok(json) => match Self::from_json(&json) {
                        Ok(node) => {
                            *self = node;
                            String::new()
                        },
                        Err(message) => set_error("Option", message.as_str()),
                    },
                    Err(message) => set_error("Option", message.as_str()),
                }
            },
            NodeToken::Insert => {
                let inner = T::default_node();
                *self = Some(inner);
                assert(self.model() == Some(inner.model()));
                String::new()
            },
            NodeToken::Remove => {
                *self = None;
                assert(self.model() == None::<T::Model>);
                String::new()
            },
            NodeToken::SetDefault => {
                *self = None;
                assert(self.model() == None::<T::Model>);
                String::new()
            },
            NodeToken::Help => String::from_str(
                "\nOption Help\n\nCommands:\n*   help    - display this help\n*   get     - display JSON\n*   set     - set to JSON\n*   insert  - set to a value\n*   remove  - remove value\n*   default - remove value\n\nAccessors:\n*   .value - the stored value number of items",
            ),
            action => cannot("Option", &action),
        }
    }

    fn to_json(&self) -> (value: serde_json::Value) {
        match self {
            Some(node) => {
                assert(self.model() == Some(node.model()));
                assert(Self::json(self.model()) == T::json(node.model()));
                node.to_json()
            },
            None => json_null(),
        }
    }

    fn from_json(value: &serde_json::Value) -> (result: Result<Option<T>, String>) {
        if json_is_null(value) {
            let node: Option<T> = None;
            assert(node.model() == None::<T::Model>);
            assert(Self::decoded(json_view(*value)) == option_decoded::<T>(json_view(*value)));
            Ok(node)
        } else {
            match T::from_json(value) {
                Ok(inner) => {
                    let node = Some(inner);
                    assert(node.model() == Some(inner.model()));
                    assert(Self::decoded(json_view(*value)) == option_decoded::<T>(json_view(*value)));
                    Ok(node)
                },
                Err(message) => Err(message),
            }
        }
    }

    fn default_node() -> (node: Option<T>) {
        None
    }
}

} // verus!
