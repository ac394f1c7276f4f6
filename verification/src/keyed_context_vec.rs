//! A vector with a selection whose elements also have keys.

use vstd::prelude::*;
use vstd::pervasive::unreached;
use vstd::string::*;
use crate::collections::length_outcome;
use crate::container::{
    all_indices, decoded_list, fan_out, indices, json_list, list_from_json, list_set,
    list_to_json, models, remove_empty, remove_empty_text, set_error, set_list, step_item,
    step_picks, tried_index, tried_index_text, used_index, used_index_text,
};
use crate::context_vec::elements_mut;
use crate::context::{
    check_bounds, in_bounds, kept_below, lemma_shifted_down_last, shift_down, shift_up, shifted_down,
    shifted_up,
};
use crate::aggregate::field_from_json;
use crate::json::{
    json_as_list, json_as_text, json_from_list, json_from_members, json_from_text,
    json_members, json_pretty, json_pretty_text, json_view, json_views, member_of, JsonModel,
};
use crate::keys::{
    copy_keys, find_key, key_message, key_message_text, lemma_position, position, used_key,
    used_key_text,
};
use crate::node::{cannot, cannot_text, invalid, invalid_text, Clipboard, ClipboardModel, Node, Outcome};
use crate::node_runner::{lemma_rest_well_formed, NodeRunner};
use crate::node_token::{NodeToken, Token};
use crate::numeric::{integer_step, IntegerKind};
use crate::text::{ascending, text_is, texts_view};

verus! {

/// A KeyedContextVec is a ContextVec with the added ability to access elements via String keys.
///
/// Every index of the context points to an element of the vector, and keeps
/// pointing to the same element when others are inserted or removed. Every
/// element has one key, and no two elements have the same key.
pub struct KeyedContextVec<T> {
    context: Vec<usize>,
    entries: Entries<T>,
}

/// The elements of a keyed container and their keys, which go together.
struct Entries<T> {
    vector: Vec<T>,
    keys: Vec<String>,
}

impl<T> View for KeyedContextVec<T> {
    type V = Seq<T>;

    closed spec fn view(&self) -> Seq<T> {
        self.entries.vector@
    }
}

/// The keys of `pairs`, in order.
pub open spec fn pair_keys<T>(pairs: Seq<(String, T)>) -> Seq<Seq<char>> {
    pairs.map_values(|pair: (String, T)| pair.0@)
}

/// The values of `pairs`, in order.
pub open spec fn pair_values<T>(pairs: Seq<(String, T)>) -> Seq<T> {
    pairs.map_values(|pair: (String, T)| pair.1)
}

/// Keys stay distinct when a new one is put among them.
pub proof fn lemma_insert_distinct(keys: Seq<Seq<char>>, index: int, key: Seq<char>)
    requires
        keys.no_duplicates(),
        position(keys, key) is None,
        0 <= index <= keys.len(),
    ensures
        keys.insert(index, key).no_duplicates(),
{
    lemma_position(keys, key);
    let after = keys.insert(index, key);
    assert forall|i: int, j: int| 0 <= i < after.len()
        && 0 <= j < after.len()
        && i != j implies after[i]
        != after[j] by {
        let a = if i < index {
            i
        } else {
            i - 1
        };
        let b = if j < index {
            j
        } else {
            j - 1
        };
        if i != index && j != index {
            assert(after[i] == keys[a]);
            assert(after[j] == keys[b]);
        } else if i == index {
            assert(after[j] == keys[b]);
        } else {
            assert(after[i] == keys[a]);
        }
    }
}

/// Keys stay distinct when one of them is taken away.
pub proof fn lemma_remove_distinct(keys: Seq<Seq<char>>, index: int)
    requires
        keys.no_duplicates(),
        0 <= index < keys.len(),
    ensures
        keys.remove(index).no_duplicates(),
{
    let after = keys.remove(index);
    assert forall|i: int, j: int| 0 <= i < after.len()
        && 0 <= j < after.len()
        && i != j implies after[i]
        != after[j] by {
        let a = if i < index {
            i
        } else {
            i + 1
        };
        let b = if j < index {
            j
        } else {
            j + 1
        };
        assert(after[i] == keys[a]);
        assert(after[j] == keys[b]);
    }
}

/// Parts the pairs into their keys and their values.
fn split_pairs<T>(pairs: Vec<(String, T)>) -> (parts: (Vec<String>, Vec<T>))
    ensures
        texts_view(parts.0@) == pair_keys(pairs@),
        parts.1@ == pair_values(pairs@),
        parts.0@.len() == parts.1@.len(),
{
    let mut pairs = pairs;
    let ghost all = pairs@;
    let mut last_keys: Vec<String> = Vec::new();
    let mut last_values: Vec<T> = Vec::new();
    while pairs.len() > 0
        invariant
            pairs@ == all.take(pairs.len() as int),
            last_keys.len() == last_values.len(),
            last_keys.len() + pairs.len() == all.len(),
            forall|k: int|
                0 <= k < last_keys.len() ==> (#[trigger] last_keys@[k])@ == all[all.len() - 1 - k].0@,
            forall|k: int|
                0 <= k < last_values.len() ==> #[trigger] last_values@[k] == all[all.len() - 1
                    - k].1,
        decreases pairs.len(),
    {
        match pairs.pop() {
            Some(pair) => {
                last_keys.push(pair.0);
                last_values.push(pair.1);
                assert(pairs@ =~= all.take(pairs.len() as int));
            },
            None => {},
        }
    }
    let mut keys: Vec<String> = Vec::new();
    let mut values: Vec<T> = Vec::new();
    while last_keys.len() > 0 && last_values.len() > 0
        invariant
            last_keys.len() == last_values.len(),
            keys.len() == values.len(),
            keys.len() + last_keys.len() == all.len(),
            forall|k: int|
                0 <= k < last_keys.len() ==> (#[trigger] last_keys@[k])@ == all[all.len() - 1 - k].0@,
            forall|k: int|
                0 <= k < last_values.len() ==> #[trigger] last_values@[k] == all[all.len() - 1
                    - k].1,
            forall|k: int| 0 <= k < keys.len() ==> (#[trigger] keys@[k])@ == all[k].0@,
            forall|k: int| 0 <= k < values.len() ==> #[trigger] values@[k] == all[k].1,
        decreases last_keys.len(),
    {
        match last_keys.pop() {
            Some(key) => {
                keys.push(key);
            },
            None => {},
        }
        match last_values.pop() {
            Some(value) => {
                values.push(value);
            },
            None => {},
        }
    }
    assert(texts_view(keys@) =~= pair_keys(all));
    assert(values@ =~= pair_values(all));
    (keys, values)
}

impl<T> KeyedContextVec<T> {
    #[verifier::type_invariant]
    spec fn valid(&self) -> bool {
        &&& in_bounds(self.context@, self.entries.vector@.len() as int)
        &&& self.entries.keys@.len() == self.entries.vector@.len()
        &&& texts_view(self.entries.keys@).no_duplicates()
    }

    /// The indices that are selected, in the order in which they were given.
    pub closed spec fn context(&self) -> Seq<usize> {
        self.context@
    }

    /// The keys of the elements, in the order of the elements.
    pub closed spec fn key_texts(&self) -> Seq<Seq<char>> {
        texts_view(self.entries.keys@)
    }

    /// Whether a context, elements and keys can be those of one container.
    pub open spec fn fit(context: Seq<usize>, vector: Seq<T>, keys: Seq<Seq<char>>) -> bool {
        &&& in_bounds(context, vector.len() as int)
        &&& keys.len() == vector.len()
        &&& keys.no_duplicates()
    }

    /// Takes the context, the vector and the keys out, and leaves the container empty.
    fn take_parts(&mut self) -> (parts: (Vec<usize>, Vec<T>, Vec<String>))
        ensures
            parts.0@ == old(self).context(),
            parts.1@ == old(self)@,
            texts_view(parts.2@) == old(self).key_texts(),
            Self::fit(parts.0@, parts.1@, texts_view(parts.2@)),
            final(self).context() == Seq::<usize>::empty(),
            final(self)@ == Seq::<T>::empty(),
            final(self).key_texts() == Seq::<Seq<char>>::empty(),
    {
        proof {
            use_type_invariant(&*self);
        }
        let mut context: Vec<usize> = Vec::new();
        let keys: Vec<String> = Vec::new();
        assert(texts_view(keys@) =~= Seq::<Seq<char>>::empty());
        let mut entries = Entries { vector: Vec::new(), keys };
        std::mem::swap(&mut self.context, &mut context);
        std::mem::swap(&mut self.entries, &mut entries);
        (context, entries.vector, entries.keys)
    }

    /// Puts a context, a vector and keys into the container, which is empty.
    fn put_parts(&mut self, context: Vec<usize>, vector: Vec<T>, keys: Vec<String>)
        requires
            old(self).context().len() == 0,
            old(self)@.len() == 0,
            old(self).key_texts().len() == 0,
            Self::fit(context@, vector@, texts_view(keys@)),
        ensures
            final(self).context() == context@,
            final(self)@ == vector@,
            final(self).key_texts() == texts_view(keys@),
    {
        let mut context = context;
        let mut entries = Entries { vector, keys };
        std::mem::swap(&mut self.entries, &mut entries);
        std::mem::swap(&mut self.context, &mut context);
    }

    /// Create a new empty KeyedContextVec
    pub fn new() -> (result: KeyedContextVec<T>)
        ensures
            result@ == Seq::<T>::empty(),
            result.context() == Seq::<usize>::empty(),
            result.key_texts() == Seq::<Seq<char>>::empty(),
    {
        let keys: Vec<String> = Vec::new();
        assert(texts_view(keys@) =~= Seq::<Seq<char>>::empty());
        KeyedContextVec { context: Vec::new(), entries: Entries { vector: Vec::new(), keys } }
    }

    /// Create a new KeyedContextVec from a Vec
    pub fn from_vec(pairs: Vec<(String, T)>) -> (result: KeyedContextVec<T>)
        requires
            pair_keys(pairs@).no_duplicates(),
        ensures
            result@ == pair_values(pairs@),
            result.key_texts() == pair_keys(pairs@),
            result.context() == Seq::<usize>::empty(),
    {
        let (keys, vector) = split_pairs(pairs);
        KeyedContextVec { context: Vec::new(), entries: Entries { vector, keys } }
    }

    /// Get the value currently pointed to by context
    pub fn selection_first(&self) -> (result: Option<&T>)
        ensures
            match result {
                Some(value) => self.context().len() > 0 && 0 <= self.context()[0] < self@.len()
                    && *value == self@[self.context()[0] as int],
                None => self.context().len() == 0,
            },
    {
        proof {
            use_type_invariant(self);
        }
        if self.context.len() > 0 {
            Some(&self.entries.vector[self.context[0]])
        } else {
            None
        }
    }

    /// Mutably get the value currently pointed to by context
    pub fn selection_first_mut(&mut self) -> (result: Option<&mut T>)
        ensures
            final(self).context() == old(self).context(),
            final(self).key_texts() == old(self).key_texts(),
            match result {
                Some(value) => old(self).context().len() > 0
                    && 0 <= old(self).context()[0] < old(self)@.len()
                    && *value == old(self)@[old(self).context()[0] as int]
                    && final(self)@
                    == old(self)@.update(old(self).context()[0] as int, *final(value)),
                None => old(self).context().len() == 0 && final(self)@ == old(self)@,
            },
    {
        proof {
            use_type_invariant(&*self);
        }
        if self.context.len() > 0 {
            let i = self.context[0];
            Some(&mut self.entries.vector[i])
        } else {
            None
        }
    }

    /// Get the values currently pointed to by context
    pub fn selection(&self) -> (result: Vec<&T>)
        ensures
            result@.len() == self.context().len(),
            forall|i: int|
                0 <= i < result@.len() ==> 0 <= (#[trigger] self.context()[i]) < self@.len()
                    && *result@[i] == self@[self.context()[i] as int],
    {
        proof {
            use_type_invariant(self);
        }
        let mut result: Vec<&T> = Vec::new();
        let mut n: usize = 0;
        while n < self.context.len()
            invariant
                n <= self.context.len(),
                result@.len() == n,
                in_bounds(self.context@, self.entries.vector@.len() as int),
                forall|i: int|
                    0 <= i < n ==> *(#[trigger] result@[i]) == self.entries.vector@[self.context@[i] as int],
            decreases self.context.len() - n,
        {
            result.push(&self.entries.vector[self.context[n]]);
            n += 1;
        }
        result
    }

    /// Get a slice of the context
    pub fn get_context(&self) -> (result: &[usize])
        ensures
            result@ == self.context(),
            in_bounds(self.context(), self@.len() as int),
    {
        proof {
            use_type_invariant(self);
        }
        self.context.as_slice()
    }

    /// Consume the KeyedContextVec into the context
    pub fn into_context(self) -> (result: Vec<usize>)
        ensures
            result@ == self.context(),
    {
        self.context
    }

    /// Consume the KeyedContextVec into the vector
    pub fn into_vector(self) -> (result: Vec<T>)
        ensures
            result@ == self@,
    {
        self.entries.vector
    }

    /// Consume the KeyedContextVec into a tuple of the context, keys and the vector
    pub fn into_tuple(self) -> (result: (Vec<usize>, Vec<String>, Vec<T>))
        ensures
            result.0@ == self.context(),
            texts_view(result.1@) == self.key_texts(),
            result.2@ == self@,
            Self::fit(result.0@, result.2@, texts_view(result.1@)),
    {
        proof {
            use_type_invariant(&self);
        }
        (self.context, self.entries.keys, self.entries.vector)
    }

    /// Clears the context
    pub fn clear_context(&mut self)
        ensures
            final(self).context() == Seq::<usize>::empty(),
            final(self)@ == old(self)@,
            final(self).key_texts() == old(self).key_texts(),
    {
        proof {
            use_type_invariant(&*self);
        }
        self.context = Vec::new();
    }

    /// Sets a new context
    pub fn set_context(&mut self, value: usize)
        requires
            value < old(self)@.len(),
        ensures
            final(self).context() == seq![value],
            final(self)@ == old(self)@,
            final(self).key_texts() == old(self).key_texts(),
    {
        proof {
            use_type_invariant(&*self);
        }
        if value >= self.entries.vector.len() {
            unreached::<()>();
        }
        let mut context: Vec<usize> = Vec::new();
        context.push(value);
        self.context = context;
    }

    /// Sets a new context
    pub fn set_context_vec(&mut self, values: Vec<usize>)
        requires
            in_bounds(values@, old(self)@.len() as int),
        ensures
            final(self).context() == values@,
            final(self)@ == old(self)@,
            final(self).key_texts() == old(self).key_texts(),
    {
        proof {
            use_type_invariant(&*self);
        }
        check_bounds(&values, self.entries.vector.len());
        self.context = values;
    }

    /// Set to a new vector.
    /// Clears the context.
    pub fn set_vec(&mut self, pairs: Vec<(String, T)>)
        requires
            pair_keys(pairs@).no_duplicates(),
        ensures
            final(self).context() == Seq::<usize>::empty(),
            final(self)@ == pair_values(pairs@),
            final(self).key_texts() == pair_keys(pairs@),
    {
        let (keys, vector) = split_pairs(pairs);
        self.take_parts();
        self.put_parts(Vec::new(), vector, keys);
    }

    /// Clears the keys/values and the context
    pub fn clear(&mut self)
        ensures
            final(self).context() == Seq::<usize>::empty(),
            final(self)@ == Seq::<T>::empty(),
            final(self).key_texts() == Seq::<Seq<char>>::empty(),
    {
        self.take_parts();
    }

    /// Push a value to the end of the vector
    pub fn push(&mut self, key: String, value: T)
        requires
            position(old(self).key_texts(), key@) is None,
        ensures
            final(self).context() == old(self).context(),
            final(self)@ == old(self)@.push(value),
            final(self).key_texts() == old(self).key_texts().push(key@),
    {
        let (context, mut vector, mut keys) = self.take_parts();
        if find_key(&keys, key.as_str()).is_some() {
            unreached::<()>();
        }
        proof {
            lemma_insert_distinct(texts_view(keys@), keys@.len() as int, key@);
            assert(texts_view(keys@).insert(keys@.len() as int, key@) =~= texts_view(
                keys@.push(key),
            ));
            assert(texts_view(keys@.push(key)) =~= texts_view(keys@).push(key@));
        }
        vector.push(value);
        keys.push(key);
        self.put_parts(context, vector, keys);
    }

    /// Insert a value into the vector.
    /// The context indices at or after `index` move up with their elements.
    pub fn insert(&mut self, index: usize, key: String, value: T)
        requires
            index <= old(self)@.len(),
            position(old(self).key_texts(), key@) is None,
        ensures
            final(self).context() == shifted_up(old(self).context(), index as int),
            final(self)@ == old(self)@.insert(index as int, value),
            final(self).key_texts() == old(self).key_texts().insert(index as int, key@),
            final(self)@.len() == old(self)@.len() + 1,
            in_bounds(final(self).context(), final(self)@.len() as int),
    {
        let (mut context, mut vector, mut keys) = self.take_parts();
        let len = vector.len();
        if find_key(&keys, key.as_str()).is_some() {
            unreached::<()>();
        }
        proof {
            lemma_insert_distinct(texts_view(keys@), index as int, key@);
            assert(texts_view(keys@.insert(index as int, key)) =~= texts_view(keys@).insert(
                index as int,
                key@,
            ));
        }
        vector.insert(index, value);
        keys.insert(index, key);
        assert(vector.len() == len + 1);
        shift_up(&mut context, index, len);
        self.put_parts(context, vector, keys);
    }

    /// Pop a value from the end of the vector.
    /// If it succeeds its key and the context indices that pointed to it are removed.
    pub fn pop(&mut self) -> (result: Option<T>)
        ensures
            match result {
                Some(value) => old(self)@.len() > 0 && value == old(self)@.last() && final(self)@
                    == old(self)@.drop_last() && final(self).context() == kept_below(
                    old(self).context(),
                    old(self)@.len() - 1,
                ) && final(self).key_texts() == old(self).key_texts().drop_last(),
                None => old(self)@.len() == 0
                    && final(self)@ == old(self)@
                    && final(self).context() == old(self).context()
                    && final(self).key_texts() == old(self).key_texts(),
            },
            in_bounds(final(self).context(), final(self)@.len() as int),
    {
        let (context, mut vector, mut keys) = self.take_parts();
        let len = vector.len();
        if len == 0 {
            self.put_parts(context, vector, keys);
            return None;
        }
        proof {
            lemma_shifted_down_last(context@, len as int);
            lemma_remove_distinct(texts_view(keys@), len - 1);
            assert(texts_view(keys@).remove(len - 1) =~= texts_view(keys@.drop_last()));
            assert(texts_view(keys@.drop_last()) =~= texts_view(keys@).drop_last());
        }
        let context = shift_down(&context, len - 1, len);
        let result = vector.pop();
        keys.pop();
        self.put_parts(context, vector, keys);
        result
    }

    /// Remove a value at the specified index, and its key.
    /// Deletes any context indices pointing to the removed value.
    /// Shifts all larger context indices down.
    pub fn remove(&mut self, to_remove: usize) -> (element: T)
        requires
            to_remove < old(self)@.len(),
        ensures
            element == old(self)@[to_remove as int],
            final(self)@ == old(self)@.remove(to_remove as int),
            final(self).key_texts() == old(self).key_texts().remove(to_remove as int),
            final(self)@.len() == old(self)@.len() - 1,
            final(self).context() == shifted_down(old(self).context(), to_remove as int),
            in_bounds(final(self).context(), final(self)@.len() as int),
    {
        let (context, mut vector, mut keys) = self.take_parts();
        let len = vector.len();
        proof {
            lemma_remove_distinct(texts_view(keys@), to_remove as int);
            assert(texts_view(keys@.remove(to_remove as int)) =~= texts_view(keys@).remove(
                to_remove as int,
            ));
        }
        let context = shift_down(&context, to_remove, len);
        let element = vector.remove(to_remove);
        keys.remove(to_remove);
        self.put_parts(context, vector, keys);
        element
    }

    /// Retrieve the value corresponding to the given key
    /// This operation is O(n)
    pub fn key_to_value(&self, key_search: &str) -> (result: Option<&T>)
        ensures
            match result {
                Some(value) => match position(self.key_texts(), key_search@) {
                    Some(i) => 0 <= i < self@.len() && *value == self@[i],
                    None => false,
                },
                None => position(self.key_texts(), key_search@) is None,
            },
    {
        proof {
            use_type_invariant(self);
        }
        match find_key(&self.entries.keys, key_search) {
            Some(i) => Some(&self.entries.vector[i]),
            None => None,
        }
    }

    /// Retrieve the value corresponding to the given key, to change it
    /// This operation is O(n)
    pub fn key_to_value_mut(&mut self, key_search: &str) -> (result: Option<&mut T>)
        ensures
            final(self).context() == old(self).context(),
            final(self).key_texts() == old(self).key_texts(),
            match result {
                Some(value) => match position(old(self).key_texts(), key_search@) {
                    Some(i) => 0 <= i < old(self)@.len() && *value == old(self)@[i] && final(self)@
                        == old(self)@.update(i, *final(value)),
                    None => false,
                },
                None => position(old(self).key_texts(), key_search@) is None && final(self)@
                    == old(self)@,
            },
    {
        proof {
            use_type_invariant(&*self);
        }
        match find_key(&self.entries.keys, key_search) {
            Some(i) => Some(&mut self.entries.vector[i]),
            None => None,
        }
    }

    /// Retrive the key corresponding to the given index
    pub fn index_to_key(&self, i: usize) -> (result: Option<String>)
        ensures
            match result {
                Some(key) => i < self.key_texts().len() && key@ == self.key_texts()[i as int],
                None => i >= self.key_texts().len(),
            },
    {
        if i < self.entries.keys.len() {
            Some(self.entries.keys[i].clone())
        } else {
            None
        }
    }

    /// Retrieve the index corresponding to the given key
    /// This operation is O(n)
    pub fn key_to_index(&self, key_search: &str) -> (result: Option<usize>)
        ensures
            match result {
                Some(i) => position(self.key_texts(), key_search@) == Some(i as int) && i
                    < self@.len(),
                None => position(self.key_texts(), key_search@) is None,
            },
    {
        proof {
            use_type_invariant(self);
        }
        find_key(&self.entries.keys, key_search)
    }

    /// The key/value pairs, in the order of the elements
    pub fn key_value_iter(&self) -> (result: Vec<(&String, &T)>)
        ensures
            result@.len() == self@.len(),
            self.key_texts().len() == self@.len(),
            forall|i: int|
                0 <= i < result@.len() ==> (#[trigger] result@[i]).0@ == self.key_texts()[i]
                    && *result@[i].1 == self@[i],
    {
        proof {
            use_type_invariant(self);
        }
        let mut result: Vec<(&String, &T)> = Vec::new();
        let mut n: usize = 0;
        while n < self.entries.keys.len()
            invariant
                n <= self.entries.keys.len(),
                self.entries.keys@.len() == self.entries.vector@.len(),
                result@.len() == n,
                forall|i: int|
                    0 <= i < n ==> (#[trigger] result@[i]).0@ == self.entries.keys@[i]@
                        && *result@[i].1
                        == self.entries.vector@[i],
            decreases self.entries.keys.len() - n,
        {
            result.push((&self.entries.keys[n], &self.entries.vector[n]));
            n += 1;
        }
        result
    }

    /// The keys, in the order of the elements
    pub fn key_iter(&self) -> (result: Vec<&String>)
        ensures
            result@.len() == self.key_texts().len(),
            forall|i: int| 0 <= i < result@.len() ==> (#[trigger] result@[i])@ == self.key_texts()[i],
    {
        let mut result: Vec<&String> = Vec::new();
        let mut n: usize = 0;
        while n < self.entries.keys.len()
            invariant
                n <= self.entries.keys.len(),
                result@.len() == n,
                forall|i: int| 0 <= i < n ==> (#[trigger] result@[i])@ == self.entries.keys@[i]@,
            decreases self.entries.keys.len() - n,
        {
            result.push(&self.entries.keys[n]);
            n += 1;
        }
        result
    }

    /// Create a vector of keys
    pub fn keys(&self) -> (result: Vec<String>)
        ensures
            texts_view(result@) == self.key_texts(),
            self.key_texts().len() == self@.len(),
            self.key_texts().no_duplicates(),
    {
        proof {
            use_type_invariant(self);
        }
        copy_keys(&self.entries.keys)
    }

    /// Returns true if the passed key is used
    pub fn contains_key(&self, key: &String) -> (result: bool)
        ensures
            result == (position(self.key_texts(), key@) is Some),
    {
        find_key(&self.entries.keys, key.as_str()).is_some()
    }
}

impl<T> Default for KeyedContextVec<T> {
    /// An empty vector without keys and with an empty context.
    fn default() -> (result: KeyedContextVec<T>)
        ensures
            result@ == Seq::<T>::empty(),
            result.context() == Seq::<usize>::empty(),
            result.key_texts() == Seq::<Seq<char>>::empty(),
    {
        KeyedContextVec::new()
    }
}

impl<T: Clone> Clone for KeyedContextVec<T> {
    /// A vector with clones of the elements, the same keys and the same context.
    fn clone(&self) -> (result: KeyedContextVec<T>)
        ensures
            result.context() == self.context(),
            result.key_texts() == self.key_texts(),
            result@.len() == self@.len(),
            forall|i: int| 0 <= i < self@.len() ==> cloned::<T>(#[trigger] self@[i], result@[i]),
    {
        proof {
            use_type_invariant(self);
        }
        let vector = self.entries.vector.clone();
        let keys = copy_keys(&self.entries.keys);
        let context = self.context.clone();
        assert(context@ =~= self.context@);
        assert(texts_view(keys@).len() == keys@.len());
        assert(texts_view(self.entries.keys@).len() == self.entries.keys@.len());
        KeyedContextVec { context, entries: Entries { vector, keys } }
    }
}

impl<'a, T> std::ops::Index<&'a str> for KeyedContextVec<T> {
    type Output = T;

    /// The element with the key `key`.
    fn index(&self, key: &'a str) -> (result: &T)
        ensures
            position(self.key_texts(), key@) is Some,
            *result == self@[position(self.key_texts(), key@)->0],
    {
        proof {
            use_type_invariant(self);
        }
        match find_key(&self.entries.keys, key) {
            Some(i) => &self.entries.vector[i],
            None => unreached(),
        }
    }
}

impl<'a, T> vstd::std_specs::core::IndexSpecImpl<&'a str> for KeyedContextVec<T> {
    open spec fn index_req(&self, key: &&'a str) -> bool {
        position(self.key_texts(), (*key)@) is Some
    }
}

impl<T> std::ops::Index<usize> for KeyedContextVec<T> {
    type Output = T;

    /// The element at `index`.
    fn index(&self, index: usize) -> (result: &T)
        ensures
            *result == self@[index as int],
    {
        &self.entries.vector[index]
    }
}

impl<T> vstd::std_specs::core::IndexSpecImpl<usize> for KeyedContextVec<T> {
    open spec fn index_req(&self, index: &usize) -> bool {
        *index < self@.len()
    }
}

impl<T> std::ops::Index<std::ops::Range<usize>> for KeyedContextVec<T> {
    type Output = [T];

    /// The elements from `index.start` up to `index.end`.
    fn index(&self, index: std::ops::Range<usize>) -> (result: &[T])
        ensures
            result@ == self@.subrange(index.start as int, index.end as int),
    {
        vstd::slice::slice_subrange(self.entries.vector.as_slice(), index.start, index.end)
    }
}

impl<T> vstd::std_specs::core::IndexSpecImpl<std::ops::Range<usize>> for KeyedContextVec<T> {
    open spec fn index_req(&self, index: &std::ops::Range<usize>) -> bool {
        index.start <= index.end <= self@.len()
    }
}

/// `std::ops::RangeTo`, the range `..end`: its one field is its end.
#[verifier::external_type_specification]
#[verifier::reject_recursive_types(Idx)]
pub struct ExRangeTo<Idx>(std::ops::RangeTo<Idx>);

/// `std::ops::RangeFrom`, the range `start..`: its one field is its start.
#[verifier::external_type_specification]
#[verifier::reject_recursive_types(Idx)]
pub struct ExRangeFrom<Idx>(std::ops::RangeFrom<Idx>);

/// `std::ops::RangeFull`, the range `..`, which has no field.
#[verifier::external_type_specification]
pub struct ExRangeFull(std::ops::RangeFull);

impl<T> std::ops::Index<std::ops::RangeTo<usize>> for KeyedContextVec<T> {
    type Output = [T];

    /// The elements up to `index.end`.
    fn index(&self, index: std::ops::RangeTo<usize>) -> (result: &[T])
        ensures
            result@ == self@.subrange(0, index.end as int),
    {
        vstd::slice::slice_subrange(self.entries.vector.as_slice(), 0, index.end)
    }
}

impl<T> vstd::std_specs::core::IndexSpecImpl<std::ops::RangeTo<usize>> for KeyedContextVec<T> {
    open spec fn index_req(&self, index: &std::ops::RangeTo<usize>) -> bool {
        index.end <= self@.len()
    }
}

impl<T> std::ops::Index<std::ops::RangeFrom<usize>> for KeyedContextVec<T> {
    type Output = [T];

    /// The elements from `index.start` on.
    fn index(&self, index: std::ops::RangeFrom<usize>) -> (result: &[T])
        ensures
            result@ == self@.subrange(index.start as int, self@.len() as int),
    {
        let elements = self.entries.vector.as_slice();
        vstd::slice::slice_subrange(elements, index.start, elements.len())
    }
}

impl<T> vstd::std_specs::core::IndexSpecImpl<std::ops::RangeFrom<usize>> for KeyedContextVec<T> {
    open spec fn index_req(&self, index: &std::ops::RangeFrom<usize>) -> bool {
        index.start <= self@.len()
    }
}

impl<T> std::ops::Index<std::ops::RangeFull> for KeyedContextVec<T> {
    type Output = [T];

    /// All elements.
    fn index(&self, _index: std::ops::RangeFull) -> (result: &[T])
        ensures
            result@ == self@,
    {
        self.entries.vector.as_slice()
    }
}

impl<T> vstd::std_specs::core::IndexSpecImpl<std::ops::RangeFull> for KeyedContextVec<T> {
    open spec fn index_req(&self, index: &std::ops::RangeFull) -> bool {
        true
    }
}

impl<T> std::ops::DerefMut for KeyedContextVec<T> {
    fn deref_mut(&mut self) -> (result: &mut [T])
        ensures
            result@ == old(self)@,
            final(result)@ == final(self)@,
            final(self).context() == old(self).context(),
            final(self).key_texts() == old(self).key_texts(),
    {
        proof {
            use_type_invariant(&*self);
        }
        elements_mut(&mut self.entries.vector)
    }
}

impl<T> std::ops::Deref for KeyedContextVec<T> {
    type Target = [T];

    fn deref(&self) -> (result: &[T])
        ensures
            result@ == self@,
    {
        self.entries.vector.as_slice()
    }
}

/// The mathematical value of a [`KeyedContextVec`] of nodes.
pub ghost struct KeyedContextVecModel<M> {
    /// The indices that are selected.
    pub context: Seq<usize>,
    /// The elements.
    pub vector: Seq<M>,
    /// The key of each element.
    pub keys: Seq<Seq<char>>,
}

/// The help of a keyed vector with a context.
pub open spec fn keyed_help() -> Seq<char> {
    "\nKeyed Context Vector Help\n\nCommands:\n*   help               - display this help\n*   get                - display JSON\n*   set                - set to JSON\n*   insert $KEY        - create a new element at the end of the vector with $KEY\n*   insert $INDEX $KEY - create a new element at $INDEX with $KEY\n*   remove             - remove the element\n*   remove $KEY        - remove the element with $KEY\n*   remove $INDEX      - remove the element at $INDEX\n*   default            - reset to default values\n\nAccessors:\n*   [INDEX] - access item at INDEX\n*   [?]     - access items at current context\n*   .length - display number of items"@
}

/// The message for a key that is inserted a second time.
pub open spec fn insert_key_text(key: Seq<char>, keys: Seq<Seq<char>>) -> Seq<char> {
    key_message_text(
        "Tried to insert with key '"@,
        key,
        "' on a "@,
        "keyed context vector"@,
        " that already contains it. Current keys: "@,
        keys,
    )
}

/// The message for the removal of a key that the container does not hold.
pub open spec fn remove_key_text(key: Seq<char>, keys: Seq<Seq<char>>) -> Seq<char> {
    key_message_text(
        "Tried to remove the value with key '"@,
        key,
        "' on a "@,
        "keyed context vector"@,
        " that doesnt contain it. Current keys: "@,
        keys,
    )
}

/// The message for a list of values that are not as many as the keys.
pub open spec fn set_count_text() -> Seq<char> {
    "keyed context vector"@ + " set error: "@
        + "the number of values differs from the number of keys"@
}

/// What a keyed vector with a context makes of a command.
///
/// `[i]` hands the command to the element at `i`, `["key"]` to the element
/// with the key, `[?]` to the elements that the context selects, in the order
/// of the context, `[*]` to every element, `.length` to the number of
/// elements. `get` writes the elements as JSON; `set` reads as many elements
/// as there are keys from JSON, and clears the context. `insert key` puts a
/// new element with a new key at the end, `insert i key` at an index;
/// `remove` takes the last element away, `remove i` the one at an index,
/// `remove key` the one with a key; the keys and the context follow the
/// elements. `reset` empties the container.
pub open spec fn keyed_outcome<T: Node>(
    node: KeyedContextVecModel<T::Model>,
    tokens: Seq<Token>,
    clipboard: ClipboardModel,
) -> Outcome<KeyedContextVecModel<T::Model>> {
    let rest = tokens.drop_last();
    let len = node.vector.len();
    let name = "keyed context vector"@;
    let unchanged = |text: Seq<char>| Outcome { text, node, clipboard };
    let of_element = |index: int|
        {
            let one = T::outcome(node.vector[index], rest, clipboard);
            Outcome {
                text: one.text,
                node: KeyedContextVecModel { vector: node.vector.update(index, one.node), ..node },
                clipboard: one.clipboard,
            }
        };
    let of_elements = |inner: Outcome<Seq<T::Model>>|
        Outcome {
            text: inner.text,
            node: KeyedContextVecModel { vector: inner.node, ..node },
            clipboard: inner.clipboard,
        };
    let done = |context: Seq<usize>, vector: Seq<T::Model>, keys: Seq<Seq<char>>|
        Outcome {
            text: Seq::empty(),
            node: KeyedContextVecModel { context, vector, keys },
            clipboard,
        };
    let removed = |index: int|
        done(shifted_down(node.context, index), node.vector.remove(index), node.keys.remove(index));
    match tokens.last() {
        Token::ChainIndex(index) => if index < len {
            of_element(index as int)
        } else {
            unchanged(used_index_text(name, index, len))
        },
        Token::ChainKey(key) => match position(node.keys, key) {
            Some(index) => if index < len {
                of_element(index)
            } else {
                unchanged(used_key_text(name, key, node.keys))
            },
            None => unchanged(used_key_text(name, key, node.keys)),
        },
        Token::ChainContext => of_elements(
            fan_out::<T>(node.vector, node.context, rest, clipboard),
        ),
        Token::ChainAll => of_elements(
            fan_out::<T>(node.vector, all_indices(len), rest, clipboard),
        ),
        Token::ChainProperty(property) => if property == "length"@ {
            length_outcome(node, len, rest, clipboard)
        } else {
            unchanged(cannot_text(name, tokens.last()))
        },
        Token::Get => unchanged(json_pretty_text(json_list::<T>(node.vector))),
        Token::SetValue(value) => match list_set::<T>(name, value) {
            Ok(items) => if items.len() == len {
                done(Seq::empty(), items, node.keys)
            } else {
                unchanged(set_count_text())
            },
            Err(message) => unchanged(message),
        },
        Token::InsertKey(key) => if position(node.keys, key) is Some {
            unchanged(insert_key_text(key, node.keys))
        } else {
            done(node.context, node.vector.push(T::default_model()), node.keys.push(key))
        },
        Token::InsertIndexKey(index, key) => if index > len {
            unchanged(tried_index_text("insert at"@, name, index, len, len))
        } else if position(node.keys, key) is Some {
            unchanged(insert_key_text(key, node.keys))
        } else {
            done(
                shifted_up(node.context, index as int),
                node.vector.insert(index as int, T::default_model()),
                node.keys.insert(index as int, key),
            )
        },
        Token::Remove => if len == 0 {
            unchanged(remove_empty_text(name))
        } else {
            done(kept_below(node.context, len - 1), node.vector.drop_last(), node.keys.drop_last())
        },
        Token::RemoveIndex(index) => if len == 0 {
            unchanged(remove_empty_text(name))
        } else if index >= len {
            unchanged(tried_index_text("remove the value at"@, name, index, len, (len - 1) as nat))
        } else {
            removed(index as int)
        },
        Token::RemoveKey(key) => match position(node.keys, key) {
            Some(index) => if index < len {
                removed(index)
            } else {
                unchanged(remove_key_text(key, node.keys))
            },
            None => unchanged(remove_key_text(key, node.keys)),
        },
        Token::SetDefault => done(Seq::empty(), Seq::empty(), Seq::empty()),
        Token::Help => unchanged(keyed_help()),
        token => unchanged(cannot_text(name, token)),
    }
}

/// The JSON list of the texts `keys`.
pub open spec fn json_texts(keys: Seq<Seq<char>>) -> JsonModel {
    JsonModel::List(keys.map_values(|key: Seq<char>| JsonModel::Text(key)))
}

/// Whether every value of `values` is a text.
pub open spec fn all_texts(values: Seq<JsonModel>) -> bool {
    forall|i: int| 0 <= i < values.len() ==> (#[trigger] values[i]) is Text
}

/// The texts that the values `values` are.
pub open spec fn text_values(values: Seq<JsonModel>) -> Seq<Seq<char>> {
    values.map_values(|value: JsonModel| value->Text_0)
}

/// The JSON object that stands for a keyed container: its elements as the
/// member `vector`, then its keys as the member `keys`.
pub open spec fn keyed_json<T: Node>(node: KeyedContextVecModel<T::Model>) -> JsonModel {
    JsonModel::Object(
        json_members(
            seq!["vector"@, "keys"@],
            seq![json_list::<T>(node.vector), json_texts(node.keys)],
        ),
    )
}

/// The message for a JSON value that stands for no keyed container.
pub open spec fn keyed_invalid_text() -> Seq<char> {
    invalid_text("keyed context vector"@, "an object of distinct keys and as many values"@)
}

/// The keyed container that a JSON value stands for: an object with the
/// member `vector`, a list of elements, and the member `keys`, a list of as
/// many texts of which no two are the same. The members may stand in any
/// order, and among others. The context of the container is empty.
pub open spec fn keyed_decoded<T: Node>(value: JsonModel) -> Result<
    KeyedContextVecModel<T::Model>,
    Seq<char>,
> {
    match member_of(value, "vector"@) {
        Some(vector) => match member_of(value, "keys"@) {
            Some(JsonModel::List(keys)) => if all_texts(keys) && text_values(
                keys,
            ).no_duplicates() {
                match decoded_list::<T>("keyed context vector"@, vector) {
                    Ok(items) => if items.len() == keys.len() {
                        Ok(
                            KeyedContextVecModel {
                                context: Seq::empty(),
                                vector: items,
                                keys: text_values(keys),
                            },
                        )
                    } else {
                        Err(keyed_invalid_text())
                    },
                    Err(message) => Err(message),
                }
            } else {
                Err(keyed_invalid_text())
            },
            _ => Err(keyed_invalid_text()),
        },
        None => Err(keyed_invalid_text()),
    }
}

/// Reads distinct keys from a JSON list of texts.
fn keys_from_json(value: &serde_json::Value) -> (result: Option<Vec<String>>)
    ensures
        match result {
            Some(keys) => match json_view(*value) {
                JsonModel::List(values) => all_texts(values) && text_values(values)
                    == texts_view(keys@) && texts_view(keys@).no_duplicates(),
                _ => false,
            },
            None => match json_view(*value) {
                JsonModel::List(values) => !(all_texts(values) && text_values(
                    values,
                ).no_duplicates()),
                _ => true,
            },
        },
{
    let values = match json_as_list(value) {
        Some(values) => values,
        None => {
            return None;
        },
    };
    let ghost all = json_views(values@);
    let mut keys: Vec<String> = Vec::new();
    let mut n: usize = 0;
    assert(texts_view(keys@) =~= text_values(all.take(0)));
    while n < values.len()
        invariant
            n <= values.len(),
            all == json_views(values@),
            json_view(*value) == JsonModel::List(all),
            all_texts(all.take(n as int)),
            texts_view(keys@) == text_values(all.take(n as int)),
            texts_view(keys@).no_duplicates(),
        decreases values.len() - n,
    {
        let ghost before = keys@;
        assert(all.take(n + 1).drop_last() =~= all.take(n as int));
        match json_as_text(&values[n]) {
            Some(key) => {
                assert(all[n as int] == JsonModel::Text(key@));
                match find_key(&keys, key.as_str()) {
                    Some(i) => {
                        proof {
                            lemma_position(texts_view(keys@), key@);
                            assert(text_values(all)[i as int] == text_values(all.take(n as int))[i as int]);
                            assert(text_values(all)[n as int] == key@);
                        }
                        return None;
                    },
                    None => {
                        proof {
                            lemma_insert_distinct(texts_view(keys@), n as int, key@);
                            assert(texts_view(before.push(key)) =~= texts_view(before).insert(
                                n as int,
                                key@,
                            ));
                            assert(text_values(all.take(n + 1)) =~= text_values(
                                all.take(n as int),
                            ).push(key@));
                            assert(texts_view(before).insert(n as int, key@) =~= texts_view(
                                before,
                            ).push(key@));
                        }
                        keys.push(key);
                    },
                }
            },
            None => {
                assert(!(all[n as int] is Text));
                return None;
            },
        }
        n += 1;
    }
    assert(all.take(n as int) =~= all);
    Some(keys)
}

impl<T: Node> Node for KeyedContextVec<T> {
    type Model = KeyedContextVecModel<T::Model>;

    open spec fn model(&self) -> KeyedContextVecModel<T::Model> {
        KeyedContextVecModel {
            context: self.context(),
            vector: models(self@),
            keys: self.key_texts(),
        }
    }

    open spec fn outcome(
        node: KeyedContextVecModel<T::Model>,
        tokens: Seq<Token>,
        clipboard: ClipboardModel,
    ) -> Outcome<KeyedContextVecModel<T::Model>> {
        keyed_outcome::<T>(node, tokens, clipboard)
    }

    open spec fn json(node: KeyedContextVecModel<T::Model>) -> JsonModel {
        keyed_json::<T>(node)
    }

    open spec fn decoded(value: JsonModel) -> Result<KeyedContextVecModel<T::Model>, Seq<char>> {
        keyed_decoded::<T>(value)
    }

    open spec fn default_model() -> KeyedContextVecModel<T::Model> {
        KeyedContextVecModel { context: Seq::empty(), vector: Seq::empty(), keys: Seq::empty() }
    }

    fn node_step_with(&mut self, runner: NodeRunner, clipboard: &mut Clipboard) -> (text: String) {
        let mut runner = runner;
        let ghost tokens = runner@;
        let token = runner.step();
        proof {
            if token@.is_chain() {
                lemma_rest_well_formed(tokens);
            }
            assert(Self::outcome(old(self).model(), tokens, old(clipboard)@) == keyed_outcome::<T>(
                old(self).model(),
                tokens,
                old(clipboard)@,
            ));
        }
        let (mut context, mut vector, mut keys) = self.take_parts();
        let length = vector.len();
        let ghost before = vector@;
        let ghost old_keys = texts_view(keys@);
        let name = "keyed context vector";
        let text = match token {
            NodeToken::ChainIndex(index) => {
                if index < length {
                    step_item(vector.as_mut_slice(), index, runner, clipboard)
                } else {
                    used_index(name, index, length)
                }
            },
            NodeToken::ChainKey(key) => {
                match find_key(&keys, key.as_str()) {
                    Some(index) => step_item(vector.as_mut_slice(), index, runner, clipboard),
                    None => used_key(name, key.as_str(), &keys),
                }
            },
            NodeToken::ChainContext => step_picks(vector.as_mut_slice(), &context, &runner, clipboard),
            NodeToken::ChainAll => {
                let picks = indices(length);
                step_picks(vector.as_mut_slice(), &picks, &runner, clipboard)
            },
            NodeToken::ChainProperty(property) => {
                if text_is(&property, "length") {
                    let (text, _) = integer_step(
                        IntegerKind::Usize,
                        length as i128,
                        runner,
                        clipboard,
                    );
                    text
                } else {
                    cannot(name, &NodeToken::ChainProperty(property))
                }
            },
            NodeToken::Get => {
                let value = list_to_json(&vector);
                json_pretty(&value)
            },
            NodeToken::SetValue(value) => {
                match set_list::<T>(name, value.as_str()) {
                    Ok(items) => {
                        if items.len() == length {
                            context = Vec::new();
                            vector = items;
                            String::new()
                        } else {
                            set_error(name, "the number of values differs from the number of keys")
                        }
                    },
                    Err(message) => message,
                }
            },
            NodeToken::InsertKey(key) => {
                if find_key(&keys, key.as_str()).is_some() {
                    key_message(
                        "Tried to insert with key '",
                        key.as_str(),
                        "' on a ",
                        name,
                        " that already contains it. Current keys: ",
                        &keys,
                    )
                } else {
                    let item = T::default_node();
                    proof {
                        lemma_insert_distinct(old_keys, length as int, key@);
                        assert(texts_view(keys@.push(key)) =~= old_keys.push(key@));
                        assert(old_keys.insert(length as int, key@) =~= old_keys.push(key@));
                    }
                    vector.push(item);
                    keys.push(key);
                    assert(models(vector@) =~= models(before).push(item.model()));
                    String::new()
                }
            },
            NodeToken::InsertIndexKey(index, key) => {
                if index > length {
                    tried_index("insert at", name, index, length, length)
                } else if find_key(&keys, key.as_str()).is_some() {
                    key_message(
                        "Tried to insert with key '",
                        key.as_str(),
                        "' on a ",
                        name,
                        " that already contains it. Current keys: ",
                        &keys,
                    )
                } else {
                    let item = T::default_node();
                    proof {
                        lemma_insert_distinct(old_keys, index as int, key@);
                        assert(texts_view(keys@.insert(index as int, key)) =~= old_keys.insert(
                            index as int,
                            key@,
                        ));
                    }
                    vector.insert(index, item);
                    keys.insert(index, key);
                    assert(vector.len() == length + 1);
                    shift_up(&mut context, index, length);
                    assert(models(vector@) =~= models(before).insert(index as int, item.model()));
                    String::new()
                }
            },
            NodeToken::Remove => {
                if length == 0 {
                    remove_empty(name)
                } else {
                    proof {
                        lemma_shifted_down_last(context@, length as int);
                        lemma_remove_distinct(old_keys, length - 1);
                        assert(old_keys.remove(length - 1) =~= old_keys.drop_last());
                        assert(texts_view(keys@.drop_last()) =~= old_keys.drop_last());
                    }
                    context = shift_down(&context, length - 1, length);
                    vector.pop();
                    keys.pop();
                    assert(models(vector@) =~= models(before).drop_last());
                    String::new()
                }
            },
            NodeToken::RemoveIndex(index) => {
                if length == 0 {
                    remove_empty(name)
                } else if index >= length {
                    tried_index("remove the value at", name, index, length, length - 1)
                } else {
                    proof {
                        lemma_remove_distinct(old_keys, index as int);
                        assert(texts_view(keys@.remove(index as int)) =~= old_keys.remove(
                            index as int,
                        ));
                    }
                    context = shift_down(&context, index, length);
                    vector.remove(index);
                    keys.remove(index);
                    assert(models(vector@) =~= models(before).remove(index as int));
                    String::new()
                }
            },
            NodeToken::RemoveKey(key) => {
                match find_key(&keys, key.as_str()) {
                    Some(index) => {
                        proof {
                            lemma_remove_distinct(old_keys, index as int);
                            assert(texts_view(keys@.remove(index as int)) =~= old_keys.remove(
                                index as int,
                            ));
                        }
                        context = shift_down(&context, index, length);
                        vector.remove(index);
                        keys.remove(index);
                        assert(models(vector@) =~= models(before).remove(index as int));
                        String::new()
                    },
                    None => key_message(
                        "Tried to remove the value with key '",
                        key.as_str(),
                        "' on a ",
                        name,
                        " that doesnt contain it. Current keys: ",
                        &keys,
                    ),
                }
            },
            NodeToken::SetDefault => {
                context = Vec::new();
                vector = Vec::new();
                keys = Vec::new();
                assert(models(vector@) =~= Seq::<T::Model>::empty());
                assert(texts_view(keys@) =~= Seq::<Seq<char>>::empty());
                String::new()
            },
            NodeToken::Help => String::from_str(
                "\nKeyed Context Vector Help\n\nCommands:\n*   help               - display this help\n*   get                - display JSON\n*   set                - set to JSON\n*   insert $KEY        - create a new element at the end of the vector with $KEY\n*   insert $INDEX $KEY - create a new element at $INDEX with $KEY\n*   remove             - remove the element\n*   remove $KEY        - remove the element with $KEY\n*   remove $INDEX      - remove the element at $INDEX\n*   default            - reset to default values\n\nAccessors:\n*   [INDEX] - access item at INDEX\n*   [?]     - access items at current context\n*   .length - display number of items",
            ),
            action => cannot(name, &action),
        };
        self.put_parts(context, vector, keys);
        text
    }

    fn to_json(&self) -> (value: serde_json::Value) {
        proof {
            use_type_invariant(self);
            assert(Self::json(self.model()) == keyed_json::<T>(self.model()));
        }
        let mut key_values: Vec<serde_json::Value> = Vec::new();
        let mut n: usize = 0;
        while n < self.entries.keys.len()
            invariant
                n <= self.entries.keys.len(),
                key_values@.len() == n,
                forall|i: int|
                    0 <= i < n ==> json_view(#[trigger] key_values@[i]) == JsonModel::Text(
                        self.entries.keys@[i]@,
                    ),
            decreases self.entries.keys.len() - n,
        {
            key_values.push(json_from_text(self.entries.keys[n].as_str()));
            n += 1;
        }
        assert(json_views(key_values@) =~= self.key_texts().map_values(
            |key: Seq<char>| JsonModel::Text(key),
        ));
        let keys_json = json_from_list(key_values);
        let mut names: Vec<String> = Vec::new();
        names.push(String::from_str("vector"));
        names.push(String::from_str("keys"));
        let mut values: Vec<serde_json::Value> = Vec::new();
        values.push(list_to_json(&self.entries.vector));
        values.push(keys_json);
        proof {
            reveal_strlit("keys");
            reveal_strlit("vector");
            assert(texts_view(names@) =~= seq!["vector"@, "keys"@]);
            assert("keys"@.len() != "vector"@.len());
            assert(texts_view(names@).no_duplicates());
            assert(json_views(values@) =~= seq![
                json_list::<T>(models(self@)),
                json_texts(self.key_texts()),
            ]);
        }
        json_from_members(names, values)
    }

    fn from_json(value: &serde_json::Value) -> (result: Result<KeyedContextVec<T>, String>) {
        proof {
            assert(Self::decoded(json_view(*value)) == keyed_decoded::<T>(json_view(*value)));
        }
        let name = "keyed context vector";
        let valid = "an object of distinct keys and as many values";
        let vector = match field_from_json(value, "vector") {
            Some(vector) => vector,
            None => {
                return Err(invalid(name, valid));
            },
        };
        let listed = match field_from_json(value, "keys") {
            Some(listed) => listed,
            None => {
                return Err(invalid(name, valid));
            },
        };
        let keys = match keys_from_json(&listed) {
            Some(keys) => keys,
            None => {
                return Err(invalid(name, valid));
            },
        };
        proof {
            let texts = json_view(listed)->List_0;
            assert(text_values(texts).len() == texts.len());
            assert(texts_view(keys@).len() == keys@.len());
        }
        match list_from_json::<T>(name, &vector) {
            Ok(items) => {
                assert(models(items@).len() == items@.len());
                if items.len() == keys.len() {
                    let node = KeyedContextVec {
                        context: Vec::new(),
                        entries: Entries { vector: items, keys },
                    };
                    assert(node.model() == (KeyedContextVecModel {
                        context: Seq::<usize>::empty(),
                        vector: models(items@),
                        keys: texts_view(keys@),
                    }));
                    Ok(node)
                } else {
                    Err(invalid(name, valid))
                }
            },
            Err(message) => Err(message),
        }
    }

    fn default_node() -> (node: KeyedContextVec<T>) {
        let node: KeyedContextVec<T> = KeyedContextVec::new();
        assert(models(node@) =~= Seq::<T::Model>::empty());
        node
    }
}

} // verus!
