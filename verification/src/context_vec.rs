//! A vector with a selection.

use vstd::prelude::*;
use vstd::pervasive::unreached;
use vstd::string::*;
use crate::collections::length_outcome;
use crate::container::{
    all_indices, decoded_list, fan_out, indices, json_list, list_from_json, list_set,
    list_to_json, models, remove_empty, remove_empty_text, set_list, step_item, step_picks,
    tried_index, tried_index_text, used_index, used_index_text,
};
use crate::context::{
    check_bounds, in_bounds, kept_below, lemma_shifted_down_last, shift_down, shift_up, shifted_down,
    shifted_up,
};
use crate::json::{json_pretty, json_pretty_text, json_view, JsonModel};
use crate::node::{cannot, cannot_text, Clipboard, ClipboardModel, Node, Outcome};
use crate::node_runner::{lemma_rest_well_formed, NodeRunner};
use crate::node_token::{NodeToken, Token};
use crate::numeric::{integer_step, IntegerKind};
use crate::text::text_is;

verus! {

/// A vector with a context: indices of the elements that are currently
/// selected, so that commands can address them with `[?]`.
///
/// Every index of the context points to an element of the vector, and keeps
/// pointing to the same element when others are inserted or removed.
pub struct ContextVec<T> {
    context: Vec<usize>,
    vector: Vec<T>,
}

impl<T> View for ContextVec<T> {
    type V = Seq<T>;

    closed spec fn view(&self) -> Seq<T> {
        self.vector@
    }
}

impl<T> ContextVec<T> {
    #[verifier::type_invariant]
    spec fn valid(&self) -> bool {
        in_bounds(self.context@, self.vector@.len() as int)
    }

    /// The indices that are selected, in the order in which they were given.
    pub closed spec fn context(&self) -> Seq<usize> {
        self.context@
    }

    /// Takes the context and the vector out, and leaves the container empty.
    fn take_parts(&mut self) -> (parts: (Vec<usize>, Vec<T>))
        ensures
            parts.0@ == old(self).context(),
            parts.1@ == old(self)@,
            in_bounds(parts.0@, parts.1@.len() as int),
            final(self).context() == Seq::<usize>::empty(),
            final(self)@ == Seq::<T>::empty(),
    {
        proof {
            use_type_invariant(&*self);
        }
        let mut context: Vec<usize> = Vec::new();
        let mut vector: Vec<T> = Vec::new();
        std::mem::swap(&mut self.context, &mut context);
        std::mem::swap(&mut self.vector, &mut vector);
        (context, vector)
    }

    /// Puts a context and a vector into the container, which is empty.
    fn put_parts(&mut self, context: Vec<usize>, vector: Vec<T>)
        requires
            old(self).context().len() == 0,
            in_bounds(context@, vector@.len() as int),
        ensures
            final(self).context() == context@,
            final(self)@ == vector@,
    {
        let mut context = context;
        let mut vector = vector;
        std::mem::swap(&mut self.vector, &mut vector);
        std::mem::swap(&mut self.context, &mut context);
    }

    /// Create a new empty ContextVec
    pub fn new() -> (result: ContextVec<T>)
        ensures
            result@ == Seq::<T>::empty(),
            result.context() == Seq::<usize>::empty(),
    {
        ContextVec { context: Vec::new(), vector: Vec::new() }
    }

    /// Create a new ContextVec from a Vec
    pub fn from_vec(vector: Vec<T>) -> (result: ContextVec<T>)
        ensures
            result@ == vector@,
            result.context() == Seq::<usize>::empty(),
    {
        ContextVec { context: Vec::new(), vector }
    }

    /// Get the value currently pointed to by context
    pub fn selection_first(&self) -> (result: Option<&T>)
        ensures
            match result {
                Some(value) => self.context().len() > 0 && 0 <= self.context()[0] < self@.len()
                    && *value == self@[self.context()[0] as int],
                None => self.context().len() == 0,
            },
    {
        proof {
            use_type_invariant(self);
        }
        if self.context.len() > 0 {
            Some(&self.vector[self.context[0]])
        } else {
            None
        }
    }

    /// Mutably get the value currently pointed to by context
    pub fn selection_first_mut(&mut self) -> (result: Option<&mut T>)
        ensures
            final(self).context() == old(self).context(),
            match result {
                Some(value) => old(self).context().len() > 0
                    && 0 <= old(self).context()[0] < old(self)@.len()
                    && *value == old(self)@[old(self).context()[0] as int]
                    && final(self)@
                    == old(self)@.update(old(self).context()[0] as int, *final(value)),
                None => old(self).context().len() == 0 && final(self)@ == old(self)@,
            },
    {
        proof {
            use_type_invariant(&*self);
        }
        if self.context.len() > 0 {
            let i = self.context[0];
            Some(&mut self.vector[i])
        } else {
            None
        }
    }

    /// Get the values currently pointed to by context
    pub fn selection(&self) -> (result: Vec<&T>)
        ensures
            result@.len() == self.context().len(),
            forall|i: int|
                0 <= i < result@.len() ==> 0 <= (#[trigger] self.context()[i]) < self@.len()
                    && *result@[i] == self@[self.context()[i] as int],
    {
        proof {
            use_type_invariant(self);
        }
        let mut result: Vec<&T> = Vec::new();
        let mut n: usize = 0;
        while n < self.context.len()
            invariant
                n <= self.context.len(),
                result@.len() == n,
                in_bounds(self.context@, self.vector@.len() as int),
                forall|i: int|
                    0 <= i < n ==> *(#[trigger] result@[i]) == self.vector@[self.context@[i] as int],
            decreases self.context.len() - n,
        {
            result.push(&self.vector[self.context[n]]);
            n += 1;
        }
        result
    }

    /// Get a slice of the context
    pub fn get_context(&self) -> (result: &[usize])
        ensures
            result@ == self.context(),
            in_bounds(self.context(), self@.len() as int),
    {
        proof {
            use_type_invariant(self);
        }
        self.context.as_slice()
    }

    /// Consume the ContextVec into the context
    pub fn into_context(self) -> (result: Vec<usize>)
        ensures
            result@ == self.context(),
    {
        self.context
    }

    /// Consume the ContextVec into the vector
    pub fn into_vector(self) -> (result: Vec<T>)
        ensures
            result@ == self@,
    {
        self.vector
    }

    /// Consume the ContextVec into a tuple of the context and the vector
    pub fn into_tuple(self) -> (result: (Vec<usize>, Vec<T>))
        ensures
            result.0@ == self.context(),
            result.1@ == self@,
            in_bounds(result.0@, result.1@.len() as int),
    {
        proof {
            use_type_invariant(&self);
        }
        (self.context, self.vector)
    }

    /// Clears the context
    pub fn clear_context(&mut self)
        ensures
            final(self).context() == Seq::<usize>::empty(),
            final(self)@ == old(self)@,
    {
        self.context = Vec::new();
    }

    /// Sets a new context
    pub fn set_context(&mut self, value: usize)
        requires
            value < old(self)@.len(),
        ensures
            final(self).context() == seq![value],
            final(self)@ == old(self)@,
    {
        if value >= self.vector.len() {
            unreached::<()>();
        }
        let mut context: Vec<usize> = Vec::new();
        context.push(value);
        self.context = context;
    }

    /// Sets a new context
    pub fn set_context_vec(&mut self, values: Vec<usize>)
        requires
            in_bounds(values@, old(self)@.len() as int),
        ensures
            final(self).context() == values@,
            final(self)@ == old(self)@,
    {
        check_bounds(&values, self.vector.len());
        self.context = values;
    }

    /// Set to a new vector.
    /// Clears the context.
    pub fn set_vec(&mut self, vector: Vec<T>)
        ensures
            final(self).context() == Seq::<usize>::empty(),
            final(self)@ == vector@,
    {
        self.context = Vec::new();
        self.vector = vector;
    }

    /// Clears the vector and the context
    pub fn clear(&mut self)
        ensures
            final(self).context() == Seq::<usize>::empty(),
            final(self)@ == Seq::<T>::empty(),
    {
        self.context = Vec::new();
        self.vector = Vec::new();
    }

    /// Push a value to the end of the vector
    pub fn push(&mut self, value: T)
        ensures
            final(self).context() == old(self).context(),
            final(self)@ == old(self)@.push(value),
    {
        let (context, mut vector) = self.take_parts();
        vector.push(value);
        self.put_parts(context, vector);
    }

    /// Insert a value into the vector.
    /// The context indices at or after `index` move up with their elements.
    pub fn insert(&mut self, index: usize, value: T)
        requires
            index <= old(self)@.len(),
        ensures
            final(self).context() == shifted_up(old(self).context(), index as int),
            final(self)@ == old(self)@.insert(index as int, value),
            final(self)@.len() == old(self)@.len() + 1,
            in_bounds(final(self).context(), final(self)@.len() as int),
    {
        let (mut context, mut vector) = self.take_parts();
        let len = vector.len();
        vector.insert(index, value);
        assert(vector.len() == len + 1);
        shift_up(&mut context, index, len);
        self.put_parts(context, vector);
    }

    /// Pop a value from the end of the vector.
    /// If it succeeds the context indices that pointed to it are removed.
    pub fn pop(&mut self) -> (result: Option<T>)
        ensures
            match result {
                Some(value) => old(self)@.len() > 0 && value == old(self)@.last() && final(self)@
                    == old(self)@.drop_last() && final(self).context() == kept_below(
                    old(self).context(),
                    old(self)@.len() - 1,
                ),
                None => old(self)@.len() == 0
                    && final(self)@ == old(self)@
                    && final(self).context() == old(self).context(),
            },
            in_bounds(final(self).context(), final(self)@.len() as int),
    {
        let (context, mut vector) = self.take_parts();
        let len = vector.len();
        if len == 0 {
            self.put_parts(context, vector);
            return None;
        }
        proof {
            lemma_shifted_down_last(context@, len as int);
        }
        let context = shift_down(&context, len - 1, len);
        let result = vector.pop();
        self.put_parts(context, vector);
        result
    }

    /// Remove a value at the specified index.
    /// Deletes any context indices pointing to the removed value.
    /// Shifts all larger context indices down.
    pub fn remove(&mut self, to_remove: usize) -> (element: T)
        requires
            to_remove < old(self)@.len(),
        ensures
            element == old(self)@[to_remove as int],
            final(self)@ == old(self)@.remove(to_remove as int),
            final(self)@.len() == old(self)@.len() - 1,
            final(self).context() == shifted_down(old(self).context(), to_remove as int),
            in_bounds(final(self).context(), final(self)@.len() as int),
    {
        let (context, mut vector) = self.take_parts();
        let len = vector.len();
        let context = shift_down(&context, to_remove, len);
        let element = vector.remove(to_remove);
        self.put_parts(context, vector);
        element
    }
}

/// `Vec::as_mut_slice`: the elements of the vector, to change them. It does
/// not panic, and a slice cannot grow or shrink, so the vector has as many
/// elements afterwards, whatever is done with them.
#[verifier::external_body]
pub(crate) fn elements_mut<T>(vector: &mut Vec<T>) -> (elements: &mut [T])
    ensures
        elements@ == old(vector)@,
        final(elements)@ == final(vector)@,
        final(vector)@.len() == old(vector)@.len(),
    no_unwind
{
    vector.as_mut_slice()
}

impl<T> Default for ContextVec<T> {
    /// An empty vector with an empty context.
    fn default() -> (result: ContextVec<T>)
        ensures
            result@ == Seq::<T>::empty(),
            result.context() == Seq::<usize>::empty(),
    {
        ContextVec::new()
    }
}

impl<T: Clone> Clone for ContextVec<T> {
    /// A vector with clones of the elements and the same context.
    fn clone(&self) -> (result: ContextVec<T>)
        ensures
            result.context() == self.context(),
            result@.len() == self@.len(),
            forall|i: int| 0 <= i < self@.len() ==> cloned::<T>(#[trigger] self@[i], result@[i]),
    {
        proof {
            use_type_invariant(self);
        }
        let vector = self.vector.clone();
        let context = self.context.clone();
        assert(context@ =~= self.context@);
        ContextVec { context, vector }
    }
}

impl<T> std::ops::DerefMut for ContextVec<T> {
    fn deref_mut(&mut self) -> (result: &mut [T])
        ensures
            result@ == old(self)@,
            final(result)@ == final(self)@,
            final(self).context() == old(self).context(),
    {
        proof {
            use_type_invariant(&*self);
        }
        elements_mut(&mut self.vector)
    }
}

impl<T> std::ops::Deref for ContextVec<T> {
    type Target = [T];

    fn deref(&self) -> (result: &[T])
        ensures
            result@ == self@,
    {
        self.vector.as_slice()
    }
}

/// The mathematical value of a [`ContextVec`] of nodes.
pub ghost struct ContextVecModel<M> {
    /// The indices that are selected.
    pub context: Seq<usize>,
    /// The elements.
    pub vector: Seq<M>,
}

/// The help of a vector with a context.
pub open spec fn context_vec_help() -> Seq<char> {
    "\nContext Vector Help\n\nCommands:\n*   help          - display this help\n*   get           - display JSON\n*   set           - set to JSON\n*   insert        - create a new element at the end of the vector\n*   insert $INDEX - create a new element at $INDEX\n*   remove        - remove the element at the end of the vector\n*   remove $INDEX - remove the element at $INDEX\n*   default       - reset to default values\n\nAccessors:\n*   [INDEX] - access item at INDEX\n*   [?]     - access items at current context\n*   .length - display number of items"@
}

/// What a vector with a context makes of a command.
///
/// `[i]` hands the command to the element at `i`, `[?]` to the elements that
/// the context selects, in the order of the context, `[*]` to every element,
/// `.length` to the number of elements. `get` writes the elements as JSON and
/// `set` reads them from JSON, which clears the context. `insert` puts a new
/// element at the end or at an index, `remove` takes the last element or the
/// one at an index away, and the context follows the elements. `reset`
/// empties the vector and the context.
pub open spec fn context_vec_outcome<T: Node>(
    node: ContextVecModel<T::Model>,
    tokens: Seq<Token>,
    clipboard: ClipboardModel,
) -> Outcome<ContextVecModel<T::Model>> {
    let rest = tokens.drop_last();
    let len = node.vector.len();
    let unchanged = |text: Seq<char>| Outcome { text, node, clipboard };
    let of_elements = |inner: Outcome<Seq<T::Model>>|
        Outcome {
            text: inner.text,
            node: ContextVecModel { context: node.context, vector: inner.node },
            clipboard: inner.clipboard,
        };
    let done = |context: Seq<usize>, vector: Seq<T::Model>|
        Outcome { text: Seq::empty(), node: ContextVecModel { context, vector }, clipboard };
    match tokens.last() {
        Token::ChainIndex(index) => if index < len {
            let one = T::outcome(node.vector[index as int], rest, clipboard);
            Outcome {
                text: one.text,
                node: ContextVecModel {
                    context: node.context,
                    vector: node.vector.update(index as int, one.node),
                },
                clipboard: one.clipboard,
            }
        } else {
            unchanged(used_index_text("vector"@, index, len))
        },
        Token::ChainContext => of_elements(
            fan_out::<T>(node.vector, node.context, rest, clipboard),
        ),
        Token::ChainAll => of_elements(
            fan_out::<T>(node.vector, all_indices(len), rest, clipboard),
        ),
        Token::ChainProperty(name) => if name == "length"@ {
            length_outcome(node, len, rest, clipboard)
        } else {
            unchanged(cannot_text("vector"@, tokens.last()))
        },
        Token::Get => unchanged(json_pretty_text(json_list::<T>(node.vector))),
        Token::SetValue(value) => match list_set::<T>("vector"@, value) {
            Ok(items) => done(Seq::empty(), items),
            Err(message) => unchanged(message),
        },
        Token::Insert => done(node.context, node.vector.push(T::default_model())),
        Token::Remove => if len == 0 {
            unchanged(remove_empty_text("vector"@))
        } else {
            done(kept_below(node.context, len - 1), node.vector.drop_last())
        },
        Token::InsertIndex(index) => if index > len {
            unchanged(tried_index_text("insert at"@, "vector"@, index, len, len))
        } else {
            done(
                shifted_up(node.context, index as int),
                node.vector.insert(index as int, T::default_model()),
            )
        },
        Token::RemoveIndex(index) => if len == 0 {
            unchanged(remove_empty_text("vector"@))
        } else if index >= len {
            unchanged(
                tried_index_text("remove the value at"@, "vector"@, index, len, (len - 1) as nat),
            )
        } else {
            done(shifted_down(node.context, index as int), node.vector.remove(index as int))
        },
        Token::SetDefault => done(Seq::empty(), Seq::empty()),
        Token::Help => unchanged(context_vec_help()),
        token => unchanged(cannot_text("vector"@, token)),
    }
}

/// The vector with a context that a JSON list stands for: its elements, and
/// an empty context.
pub open spec fn context_vec_decoded<T: Node>(value: JsonModel) -> Result<
    ContextVecModel<T::Model>,
    Seq<char>,
> {
    match decoded_list::<T>("vector"@, value) {
        Ok(items) => Ok(ContextVecModel { context: Seq::empty(), vector: items }),
        Err(message) => Err(message),
    }
}

impl<T: Node> Node for ContextVec<T> {
    type Model = ContextVecModel<T::Model>;

    open spec fn model(&self) -> ContextVecModel<T::Model> {
        ContextVecModel { context: self.context(), vector: models(self@) }
    }

    open spec fn outcome(
        node: ContextVecModel<T::Model>,
        tokens: Seq<Token>,
        clipboard: ClipboardModel,
    ) -> Outcome<ContextVecModel<T::Model>> {
        context_vec_outcome::<T>(node, tokens, clipboard)
    }

    open spec fn json(node: ContextVecModel<T::Model>) -> JsonModel {
        json_list::<T>(node.vector)
    }

    open spec fn decoded(value: JsonModel) -> Result<ContextVecModel<T::Model>, Seq<char>> {
        context_vec_decoded::<T>(value)
    }

    open spec fn default_model() -> ContextVecModel<T::Model> {
        ContextVecModel { context: Seq::empty(), vector: Seq::empty() }
    }

    fn node_step_with(&mut self, runner: NodeRunner, clipboard: &mut Clipboard) -> (text: String) {
        let mut runner = runner;
        let ghost tokens = runner@;
        let token = runner.step();
        proof {
            if token@.is_chain() {
                lemma_rest_well_formed(tokens);
            }
            assert(Self::outcome(old(self).model(), tokens, old(clipboard)@)
                == context_vec_outcome::<T>(old(self).model(), tokens, old(clipboard)@));
        }
        let (mut context, mut vector) = self.take_parts();
        let length = vector.len();
        let ghost before = vector@;
        let text = match token {
            NodeToken::ChainIndex(index) => {
                if index < length {
                    step_item(vector.as_mut_slice(), index, runner, clipboard)
                } else {
                    used_index("vector", index, length)
                }
            },
            NodeToken::ChainContext => step_picks(vector.as_mut_slice(), &context, &runner, clipboard),
            NodeToken::ChainAll => {
                let picks = indices(length);
                step_picks(vector.as_mut_slice(), &picks, &runner, clipboard)
            },
            NodeToken::ChainProperty(name) => {
                if text_is(&name, "length") {
                    let (text, _) = integer_step(
                        IntegerKind::Usize,
                        length as i128,
                        runner,
                        clipboard,
                    );
                    text
                } else {
                    cannot("vector", &NodeToken::ChainProperty(name))
                }
            },
            NodeToken::Get => {
                let value = list_to_json(&vector);
                json_pretty(&value)
            },
            NodeToken::SetValue(value) => {
                match set_list::<T>("vector", value.as_str()) {
                    Ok(items) => {
                        context = Vec::new();
                        vector = items;
                        String::new()
                    },
                    Err(message) => message,
                }
            },
            NodeToken::Insert => {
                let item = T::default_node();
                vector.push(item);
                assert(models(vector@) =~= models(before).push(item.model()));
                String::new()
            },
            NodeToken::Remove => {
                if length == 0 {
                    remove_empty("vector")
                } else {
                    proof {
                        lemma_shifted_down_last(context@, length as int);
                    }
                    context = shift_down(&context, length - 1, length);
                    vector.pop();
                    assert(models(vector@) =~= models(before).drop_last());
                    String::new()
                }
            },
            NodeToken::InsertIndex(index) => {
                if index > length {
                    tried_index("insert at", "vector", index, length, length)
                } else {
                    let item = T::default_node();
                    vector.insert(index, item);
                    assert(vector.len() == length + 1);
                    shift_up(&mut context, index, length);
                    assert(models(vector@) =~= models(before).insert(index as int, item.model()));
                    String::new()
                }
            },
            NodeToken::RemoveIndex(index) => {
                if length == 0 {
                    remove_empty("vector")
                } else if index >= length {
                    tried_index("remove the value at", "vector", index, length, length - 1)
                } else {
                    context = shift_down(&context, index, length);
                    vector.remove(index);
                    assert(models(vector@) =~= models(before).remove(index as int));
                    String::new()
                }
            },
            NodeToken::SetDefault => {
                context = Vec::new();
                vector = Vec::new();
                assert(models(vector@) =~= Seq::<T::Model>::empty());
                String::new()
            },
            NodeToken::Help => String::from_str(
                "\nContext Vector Help\n\nCommands:\n*   help          - display this help\n*   get           - display JSON\n*   set           - set to JSON\n*   insert        - create a new element at the end of the vector\n*   insert $INDEX - create a new element at $INDEX\n*   remove        - remove the element at the end of the vector\n*   remove $INDEX - remove the element at $INDEX\n*   default       - reset to default values\n\nAccessors:\n*   [INDEX] - access item at INDEX\n*   [?]     - access items at current context\n*   .length - display number of items",
            ),
            action => cannot("vector", &action),
        };
        self.put_parts(context, vector);
        text
    }

    fn to_json(&self) -> (value: serde_json::Value) {
        proof {
            assert(Self::json(self.model()) == json_list::<T>(models(self@)));
        }
        list_to_json(&self.vector)
    }

    fn from_json(value: &serde_json::Value) -> (result: Result<ContextVec<T>, String>) {
        proof {
            assert(Self::decoded(json_view(*value)) == context_vec_decoded::<T>(json_view(*value)));
        }
        match list_from_json::<T>("vector", value) {
            Ok(items) => Ok(ContextVec::from_vec(items)),
            Err(message) => Err(message),
        }
    }

    fn default_node() -> (node: ContextVec<T>) {
        let node: ContextVec<T> = ContextVec::new();
        assert(models(node@) =~= Seq::<T::Model>::empty());
        node
    }
}

} // verus!
