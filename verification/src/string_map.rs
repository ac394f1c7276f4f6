//! A map from strings to values that keeps its keys in ascending order.

use vstd::prelude::*;
use vstd::string::*;
use crate::collections::length_outcome;
use crate::container::{
    all_indices, decoded_items, fan_out, indices, items_from_json, items_to_json, models,
    set_error, step_item, step_picks,
};
use crate::json::{
    json_as_members, json_from_members, json_members, json_parse, json_parsed, json_pretty,
    json_pretty_text, json_view, json_views, member_names, member_values, JsonModel,
};
use crate::keys::{
    copy_keys, find_key, format_keys, key_list, key_message, key_message_text, lemma_position,
    position, used_key, used_key_text,
};
use crate::node::{
    cannot, cannot_text, invalid, invalid_text, Clipboard, ClipboardModel, Node, Outcome,
};
use crate::node_runner::{lemma_rest_well_formed, NodeRunner};
use crate::node_token::{NodeToken, Token};
use crate::numeric::{integer_step, IntegerKind};
use crate::text::{
    ascending, lemma_text_before_irreflexive, lemma_text_before_total,
    lemma_text_before_transitive, text_before, text_is, text_less, texts_view,
};

verus! {

/// A map from strings to values. It holds each key once, and hands its keys
/// and values out in the ascending order of the keys.
pub struct StringMap<T> {
    keys: Vec<String>,
    values: Vec<T>,
}

impl<T> View for StringMap<T> {
    type V = Seq<T>;

    /// The values, in the ascending order of their keys.
    closed spec fn view(&self) -> Seq<T> {
        self.values@
    }
}

/// How many of `keys` come before `key`: where the keys ascend, the place of
/// `key` among them.
pub open spec fn rank(keys: Seq<Seq<char>>, key: Seq<char>) -> int
    decreases keys.len(),
{
    if keys.len() == 0 {
        0
    } else {
        rank(keys.drop_last(), key) + if text_before(keys.last(), key) {
            1int
        } else {
            0int
        }
    }
}

/// Where the first `n` keys come before `key` and the others do not, the rank
/// of `key` is `n`.
pub proof fn lemma_rank(keys: Seq<Seq<char>>, key: Seq<char>, n: int)
    requires
        0 <= n <= keys.len(),
        forall|j: int| 0 <= j < n ==> text_before(#[trigger] keys[j], key),
        forall|j: int| n <= j < keys.len() ==> !text_before(#[trigger] keys[j], key),
    ensures
        rank(keys, key) == n,
    decreases keys.len(),
{
    if keys.len() > 0 {
        let front = keys.drop_last();
        assert(forall|j: int| 0 <= j < front.len() ==> front[j] == keys[j]);
        if n == keys.len() {
            lemma_rank(front, key, n - 1);
        } else {
            lemma_rank(front, key, n);
        }
    }
}

/// Ascending keys are distinct.
pub proof fn lemma_ascending_distinct(keys: Seq<Seq<char>>)
    requires
        ascending(keys),
    ensures
        keys.no_duplicates(),
{
    assert forall|i: int, j: int| 0 <= i < keys.len()
        && 0 <= j < keys.len()
        && i != j implies keys[i]
        != keys[j] by {
        lemma_text_before_irreflexive(keys[i]);
        if i < j {
            assert(text_before(keys[i], keys[j]));
        } else {
            assert(text_before(keys[j], keys[i]));
        }
    }
}

/// Keys still ascend when one is put between those before it and those after it.
pub proof fn lemma_insert_ascending(keys: Seq<Seq<char>>, n: int, key: Seq<char>)
    requires
        ascending(keys),
        0 <= n <= keys.len(),
        forall|j: int| 0 <= j < n ==> text_before(#[trigger] keys[j], key),
        forall|j: int| n <= j < keys.len() ==> text_before(key, #[trigger] keys[j]),
    ensures
        ascending(keys.insert(n, key)),
{
    let after = keys.insert(n, key);
    assert forall|i: int, j: int| 0 <= i < j < after.len() implies text_before(
        after[i],
        after[j],
    ) by {
        let a = if i < n {
            i
        } else {
            i - 1
        };
        let b = if j < n {
            j
        } else {
            j - 1
        };
        if i == n {
            assert(after[j] == keys[b]);
        } else if j == n {
            assert(after[i] == keys[a]);
        } else {
            assert(after[i] == keys[a]);
            assert(after[j] == keys[b]);
            assert(text_before(keys[a], keys[b]));
        }
    }
}

/// Keys still ascend when one of them is taken away.
pub proof fn lemma_remove_ascending(keys: Seq<Seq<char>>, n: int)
    requires
        ascending(keys),
        0 <= n < keys.len(),
    ensures
        ascending(keys.remove(n)),
{
    let after = keys.remove(n);
    assert forall|i: int, j: int| 0 <= i < j < after.len() implies text_before(
        after[i],
        after[j],
    ) by {
        let a = if i < n {
            i
        } else {
            i + 1
        };
        let b = if j < n {
            j
        } else {
            j + 1
        };
        assert(after[i] == keys[a]);
        assert(after[j] == keys[b]);
        assert(text_before(keys[a], keys[b]));
    }
}

/// Finds the place of a key that is none of the ascending keys.
fn find_rank(keys: &Vec<String>, key: &str) -> (n: usize)
    requires
        ascending(texts_view(keys@)),
        position(texts_view(keys@), key@) is None,
    ensures
        n == rank(texts_view(keys@), key@),
        n <= keys.len(),
        ascending(texts_view(keys@).insert(n as int, key@)),
{
    let ghost texts = texts_view(keys@);
    let mut n: usize = 0;
    let mut searching = true;
    while searching && n < keys.len()
        invariant
            n <= keys.len(),
            texts == texts_view(keys@),
            forall|j: int| 0 <= j < n ==> text_before(#[trigger] texts[j], key@),
            !searching ==> n < keys.len() && !text_before(texts[n as int], key@),
        decreases keys.len() - n + if searching { 1int } else { 0int },
    {
        if text_less(keys[n].as_str(), key) {
            n += 1;
        } else {
            searching = false;
        }
    }
    proof {
        lemma_position(texts, key@);
        assert forall|j: int| n <= j < texts.len() implies text_before(key@, #[trigger] texts[j]) by {
            lemma_text_before_total(key@, texts[n as int]);
            if j > n {
                assert(text_before(texts[n as int], texts[j]));
                lemma_text_before_transitive(key@, texts[n as int], texts[j]);
            }
        }
        assert forall|j: int| n <= j < texts.len() implies !text_before(#[trigger] texts[j], key@) by {
            if text_before(texts[j], key@) {
                lemma_text_before_transitive(key@, texts[j], key@);
                lemma_text_before_irreflexive(key@);
            }
        }
        lemma_rank(texts, key@, n as int);
        lemma_insert_ascending(texts, n as int, key@);
    }
    n
}

/// Gives `key` the value `value` among ascending keys and their values.
fn insert_entry<T>(keys: &mut Vec<String>, values: &mut Vec<T>, key: String, value: T) -> (result:
    Option<T>)
    requires
        old(keys)@.len() == old(values)@.len(),
        ascending(texts_view(old(keys)@)),
    ensures
        final(keys)@.len() == final(values)@.len(),
        ascending(texts_view(final(keys)@)),
        match position(texts_view(old(keys)@), key@) {
            Some(i) => 0 <= i < old(values)@.len() && result == Some(old(values)@[i])
                && final(values)@ == old(values)@.update(i, value) && texts_view(final(keys)@)
                == texts_view(old(keys)@),
            None => result is None && final(values)@ == old(values)@.insert(
                rank(texts_view(old(keys)@), key@),
                value,
            ) && texts_view(final(keys)@) == texts_view(old(keys)@).insert(
                rank(texts_view(old(keys)@), key@),
                key@,
            ) && 0 <= rank(texts_view(old(keys)@), key@) <= old(keys)@.len(),
        },
{
    match find_key(keys, key.as_str()) {
        Some(i) => {
            let mut value = value;
            std::mem::swap(&mut values[i], &mut value);
            Some(value)
        },
        None => {
            let n = find_rank(keys, key.as_str());
            assert(texts_view(keys@.insert(n as int, key)) =~= texts_view(keys@).insert(
                n as int,
                key@,
            ));
            keys.insert(n, key);
            values.insert(n, value);
            None
        },
    }
}

impl<T> StringMap<T> {
    #[verifier::type_invariant]
    spec fn valid(&self) -> bool {
        &&& self.keys@.len() == self.values@.len()
        &&& ascending(texts_view(self.keys@))
    }

    /// The keys, in ascending order.
    pub closed spec fn key_texts(&self) -> Seq<Seq<char>> {
        texts_view(self.keys@)
    }

    /// Takes the keys and the values out, and leaves the map empty.
    fn take_parts(&mut self) -> (parts: (Vec<String>, Vec<T>))
        ensures
            texts_view(parts.0@) == old(self).key_texts(),
            parts.1@ == old(self)@,
            parts.0@.len() == parts.1@.len(),
            ascending(texts_view(parts.0@)),
            final(self)@ == Seq::<T>::empty(),
            final(self).key_texts() == Seq::<Seq<char>>::empty(),
    {
        proof {
            use_type_invariant(&*self);
        }
        let mut taken: StringMap<T> = StringMap::new();
        std::mem::swap(self, &mut taken);
        (taken.keys, taken.values)
    }

    /// Puts keys and values into the map.
    fn put_parts(&mut self, keys: Vec<String>, values: Vec<T>)
        requires
            keys@.len() == values@.len(),
            ascending(texts_view(keys@)),
        ensures
            final(self)@ == values@,
            final(self).key_texts() == texts_view(keys@),
    {
        let mut full = StringMap { keys, values };
        std::mem::swap(self, &mut full);
    }

    /// An empty map.
    pub fn new() -> (result: StringMap<T>)
        ensures
            result@ == Seq::<T>::empty(),
            result.key_texts() == Seq::<Seq<char>>::empty(),
    {
        let keys: Vec<String> = Vec::new();
        assert(texts_view(keys@) =~= Seq::<Seq<char>>::empty());
        StringMap { keys, values: Vec::new() }
    }

    /// The number of keys.
    pub fn len(&self) -> (result: usize)
        ensures
            result == self@.len(),
            result == self.key_texts().len(),
            ascending(self.key_texts()),
    {
        proof {
            use_type_invariant(self);
        }
        self.values.len()
    }

    /// Whether the map holds no key.
    pub fn is_empty(&self) -> (result: bool)
        ensures
            result == (self@.len() == 0),
    {
        self.values.len() == 0
    }

    /// Whether the map holds `key`.
    pub fn contains_key(&self, key: &str) -> (result: bool)
        ensures
            result == (position(self.key_texts(), key@) is Some),
    {
        find_key(&self.keys, key).is_some()
    }

    /// The value of `key`.
    pub fn get(&self, key: &str) -> (result: Option<&T>)
        ensures
            match result {
                Some(value) => match position(self.key_texts(), key@) {
                    Some(i) => 0 <= i < self@.len() && *value == self@[i],
                    None => false,
                },
                None => position(self.key_texts(), key@) is None,
            },
    {
        proof {
            use_type_invariant(self);
        }
        match find_key(&self.keys, key) {
            Some(i) => Some(&self.values[i]),
            None => None,
        }
    }

    /// The value of `key`, to change it.
    pub fn get_mut(&mut self, key: &str) -> (result: Option<&mut T>)
        ensures
            final(self).key_texts() == old(self).key_texts(),
            match result {
                Some(value) => match position(old(self).key_texts(), key@) {
                    Some(i) => 0 <= i < old(self)@.len() && *value == old(self)@[i] && final(self)@
                        == old(self)@.update(i, *final(value)),
                    None => false,
                },
                None => position(old(self).key_texts(), key@) is None && final(self)@ == old(self)@,
            },
    {
        proof {
            use_type_invariant(&*self);
        }
        match find_key(&self.keys, key) {
            Some(i) => Some(&mut self.values[i]),
            None => None,
        }
    }

    /// Gives `key` the value `value`. Where the map held the key, its old
    /// value is handed back; where not, the key takes its place among the keys.
    pub fn insert(&mut self, key: String, value: T) -> (result: Option<T>)
        ensures
            match position(old(self).key_texts(), key@) {
                Some(i) => 0 <= i < old(self)@.len()
                    && result == Some(old(self)@[i])
                    && final(self)@ == old(self)@.update(i, value)
                    && final(self).key_texts() == old(self).key_texts(),
                None => result is None && final(self)@ == old(self)@.insert(
                    rank(old(self).key_texts(), key@),
                    value,
                ) && final(self).key_texts() == old(self).key_texts().insert(
                    rank(old(self).key_texts(), key@),
                    key@,
                ),
            },
    {
        let (mut keys, mut values) = self.take_parts();
        let result = insert_entry(&mut keys, &mut values, key, value);
        self.put_parts(keys, values);
        result
    }

    /// Takes `key` and its value out of the map.
    pub fn remove(&mut self, key: &str) -> (result: Option<T>)
        ensures
            match position(old(self).key_texts(), key@) {
                Some(i) => 0 <= i < old(self)@.len()
                    && result == Some(old(self)@[i])
                    && final(self)@ == old(self)@.remove(i)
                    && final(self).key_texts() == old(self).key_texts().remove(i),
                None => result is None && final(self)@ == old(self)@ && final(self).key_texts()
                    == old(self).key_texts(),
            },
    {
        let (mut keys, mut values) = self.take_parts();
        match find_key(&keys, key) {
            Some(i) => {
                proof {
                    lemma_remove_ascending(texts_view(keys@), i as int);
                    assert(texts_view(keys@.remove(i as int)) =~= texts_view(keys@).remove(i as int));
                }
                keys.remove(i);
                let value = values.remove(i);
                self.put_parts(keys, values);
                Some(value)
            },
            None => {
                self.put_parts(keys, values);
                None
            },
        }
    }

    /// The keys, in ascending order.
    pub fn keys(&self) -> (result: Vec<String>)
        ensures
            texts_view(result@) == self.key_texts(),
            ascending(self.key_texts()),
    {
        proof {
            use_type_invariant(self);
        }
        copy_keys(&self.keys)
    }

    /// Empties the map.
    pub fn clear(&mut self)
        ensures
            final(self)@ == Seq::<T>::empty(),
            final(self).key_texts() == Seq::<Seq<char>>::empty(),
    {
        self.take_parts();
    }
}

/// The mathematical value of a [`StringMap`] of nodes.
pub ghost struct StringMapModel<M> {
    /// The keys, in ascending order.
    pub keys: Seq<Seq<char>>,
    /// The value of each key.
    pub values: Seq<M>,
}

/// The help of a map.
pub open spec fn map_help() -> Seq<char> {
    "\nMap Help\n\nCommands:\n*   help    - display this help\n*   keys    - display the keys\n*   get     - display JSON\n*   set     - set to JSON\n*   insert  - create a new element\n*   remove  - remove an element\n*   default - reset to empty map\n\nAccessors:\n*   [key]   - access item at the string key\n*   .length - display number of items"@
}

/// The JSON object that stands for a map: a member for each key.
pub open spec fn map_json<T: Node>(node: StringMapModel<T::Model>) -> JsonModel {
    JsonModel::Object(
        json_members(node.keys, node.values.map_values(|item: T::Model| T::json(item))),
    )
}

/// The map `node` after `key` was given the value `value`: in place of its
/// old value where the map held the key, and else at the place of the key
/// among the keys.
pub open spec fn with_entry<M>(node: StringMapModel<M>, key: Seq<char>, value: M) -> StringMapModel<
    M,
> {
    match position(node.keys, key) {
        Some(i) => StringMapModel { keys: node.keys, values: node.values.update(i, value) },
        None => StringMapModel {
            keys: node.keys.insert(rank(node.keys, key), key),
            values: node.values.insert(rank(node.keys, key), value),
        },
    }
}

/// The map that holds each of `keys` with the value at the same place.
pub open spec fn map_of<M>(keys: Seq<Seq<char>>, values: Seq<M>) -> StringMapModel<M>
    decreases keys.len(),
{
    if keys.len() == 0 {
        StringMapModel { keys: Seq::empty(), values: Seq::empty() }
    } else {
        with_entry(map_of(keys.skip(1), values.skip(1)), keys[0], values[0])
    }
}

/// The map of keys that ascend holds them as they are given.
pub proof fn lemma_map_of_ascending<M>(keys: Seq<Seq<char>>, values: Seq<M>)
    requires
        keys.len() == values.len(),
        ascending(keys),
    ensures
        map_of(keys, values) == (StringMapModel { keys, values }),
    decreases keys.len(),
{
    if keys.len() > 0 {
        let later = keys.skip(1);
        assert(forall|j: int| 0 <= j < later.len() ==> later[j] == keys[j + 1]);
        lemma_map_of_ascending(later, values.skip(1));
        lemma_position(later, keys[0]);
        assert forall|j: int| 0 <= j < later.len() implies later[j] != keys[0]
            && !text_before(#[trigger] later[j], keys[0]) by {
            assert(text_before(keys[0], keys[j + 1]));
            lemma_text_before_irreflexive(keys[0]);
            if text_before(later[j], keys[0]) {
                lemma_text_before_transitive(keys[0], later[j], keys[0]);
            }
        }
        lemma_rank(later, keys[0], 0);
        assert(later.insert(0, keys[0]) =~= keys);
        assert(values.skip(1).insert(0, values[0]) =~= values);
    } else {
        assert(keys =~= Seq::<Seq<char>>::empty());
        assert(values =~= Seq::<M>::empty());
    }
}

/// The map that a JSON object stands for: a key for each member, whatever the
/// order of the members; a value that is no object stands for none.
pub open spec fn map_decoded<T: Node>(value: JsonModel) -> Result<
    StringMapModel<T::Model>,
    Seq<char>,
> {
    match value {
        JsonModel::Object(members) => match decoded_items::<T>(member_values(members)) {
            Ok(values) => Ok(map_of(member_names(members), values)),
            Err(message) => Err(message),
        },
        _ => Err(invalid_text("map"@, "an object"@)),
    }
}

/// The map that the text `text` sets, or the message that says why it sets none.
pub open spec fn map_set<T: Node>(text: Seq<char>) -> Result<StringMapModel<T::Model>, Seq<char>> {
    match json_parsed(text) {
        Ok(value) => match map_decoded::<T>(value) {
            Ok(node) => Ok(node),
            Err(message) => Err("map"@ + " set error: "@ + message),
        },
        Err(message) => Err("map"@ + " set error: "@ + message),
    }
}

/// What a map makes of a command.
///
/// `["key"]` hands the command to the value of the key, `[*]` to every value
/// in the ascending order of the keys, `.length` to the number of keys.
/// `getkeys` lists the keys, `get` writes the map as JSON and `set` reads it
/// from JSON. `insert key` gives a new key a new value, `remove key` takes a
/// key and its value away, `reset` empties the map.
pub open spec fn map_outcome<T: Node>(
    node: StringMapModel<T::Model>,
    tokens: Seq<Token>,
    clipboard: ClipboardModel,
) -> Outcome<StringMapModel<T::Model>> {
    let rest = tokens.drop_last();
    let len = node.values.len();
    let unchanged = |text: Seq<char>| Outcome { text, node, clipboard };
    let done = |keys: Seq<Seq<char>>, values: Seq<T::Model>|
        Outcome { text: Seq::empty(), node: StringMapModel { keys, values }, clipboard };
    match tokens.last() {
        Token::ChainKey(key) => match position(node.keys, key) {
            Some(index) => if index < len {
                let one = T::outcome(node.values[index], rest, clipboard);
                Outcome {
                    text: one.text,
                    node: StringMapModel {
                        keys: node.keys,
                        values: node.values.update(index, one.node),
                    },
                    clipboard: one.clipboard,
                }
            } else {
                unchanged(used_key_text("map"@, key, node.keys))
            },
            None => unchanged(used_key_text("map"@, key, node.keys)),
        },
        Token::ChainAll => {
            let inner = fan_out::<T>(node.values, all_indices(len), rest, clipboard);
            Outcome {
                text: inner.text,
                node: StringMapModel { keys: node.keys, values: inner.node },
                clipboard: inner.clipboard,
            }
        },
        Token::GetKeys => unchanged(key_list(node.keys)),
        Token::ChainProperty(property) => if property == "length"@ {
            length_outcome(node, len, rest, clipboard)
        } else {
            unchanged(cannot_text("map"@, tokens.last()))
        },
        Token::Get => unchanged(json_pretty_text(map_json::<T>(node))),
        Token::SetValue(value) => match map_set::<T>(value) {
            Ok(node) => Outcome { text: Seq::empty(), node, clipboard },
            Err(message) => unchanged(message),
        },
        Token::InsertKey(key) => if position(node.keys, key) is Some {
            unchanged(
                key_message_text(
                    "Tried to insert key '"@,
                    key,
                    "' on a "@,
                    "map"@,
                    " that already contains it. Current keys: "@,
                    node.keys,
                ),
            )
        } else {
            done(
                node.keys.insert(rank(node.keys, key), key),
                node.values.insert(rank(node.keys, key), T::default_model()),
            )
        },
        Token::RemoveKey(key) => match position(node.keys, key) {
            Some(index) => done(node.keys.remove(index), node.values.remove(index)),
            None => unchanged(
                key_message_text(
                    "Tried to remove key '"@,
                    key,
                    "' on a "@,
                    "map"@,
                    " that doesnt contain it. Current keys: "@,
                    node.keys,
                ),
            ),
        },
        Token::SetDefault => done(Seq::empty(), Seq::empty()),
        Token::Help => unchanged(map_help()),
        token => unchanged(cannot_text("map"@, token)),
    }
}

impl<T: Node> StringMap<T> {
    /// The JSON object that stands for the keys and the values.
    fn members_to_json(keys: &Vec<String>, values: &Vec<T>) -> (value: serde_json::Value)
        requires
            keys@.len() == values@.len(),
            ascending(texts_view(keys@)),
        ensures
            json_view(value) == map_json::<T>(
                StringMapModel { keys: texts_view(keys@), values: models(values@) },
            ),
    {
        proof {
            lemma_ascending_distinct(texts_view(keys@));
        }
        json_from_members(copy_keys(keys), items_to_json(values.as_slice()))
    }

    /// The keys in ascending order, each with its value.
    fn sorted(names: Vec<String>, items: Vec<T>) -> (parts: (Vec<String>, Vec<T>))
        requires
            names@.len() == items@.len(),
        ensures
            (StringMapModel { keys: texts_view(parts.0@), values: models(parts.1@) }) == map_of(
                texts_view(names@),
                models(items@),
            ),
            parts.0@.len() == parts.1@.len(),
            ascending(texts_view(parts.0@)),
    {
        let mut names = names;
        let mut items = items;
        let ghost all_names = texts_view(names@);
        let ghost all_items = models(items@);
        let mut keys: Vec<String> = Vec::new();
        let mut values: Vec<T> = Vec::new();
        proof {
            assert(texts_view(keys@) =~= Seq::<Seq<char>>::empty());
            assert(models(values@) =~= Seq::<T::Model>::empty());
            assert(all_names.skip(all_names.len() as int) =~= Seq::<Seq<char>>::empty());
        }
        while names.len() > 0 && items.len() > 0
            invariant
                names@.len() == items@.len(),
                all_names.len() == all_items.len(),
                names@.len() <= all_names.len(),
                texts_view(names@) == all_names.take(names@.len() as int),
                models(items@) == all_items.take(items@.len() as int),
                keys@.len() == values@.len(),
                ascending(texts_view(keys@)),
                (StringMapModel { keys: texts_view(keys@), values: models(values@) }) == map_of(
                    all_names.skip(names@.len() as int),
                    all_items.skip(names@.len() as int),
                ),
            decreases names.len(),
        {
            let ghost n = names@.len() - 1;
            let ghost old_keys = texts_view(keys@);
            let ghost old_values = values@;
            let ghost old_names = names@;
            let ghost old_items = items@;
            let name = names.pop();
            let item = items.pop();
            match (name, item) {
                (Some(name), Some(item)) => {
                    proof {
                        assert(name@ == texts_view(old_names)[n]);
                        assert(item.model() == models(old_items)[n]);
                        assert(texts_view(names@) =~= all_names.take(n));
                        assert(models(items@) =~= all_items.take(n));
                        assert(all_names.skip(n).skip(1) =~= all_names.skip(n + 1));
                        assert(all_items.skip(n).skip(1) =~= all_items.skip(n + 1));
                        lemma_position(old_keys, name@);
                    }
                    insert_entry(&mut keys, &mut values, name, item);
                    proof {
                        match position(old_keys, name@) {
                            Some(i) => {
                                assert(models(values@) =~= models(old_values).update(
                                    i,
                                    item.model(),
                                ));
                            },
                            None => {
                                assert(models(values@) =~= models(old_values).insert(
                                    rank(old_keys, name@),
                                    item.model(),
                                ));
                            },
                        }
                    }
                },
                _ => {},
            }
        }
        proof {
            assert(all_names.skip(0) =~= all_names);
            assert(all_items.skip(0) =~= all_items);
        }
        (keys, values)
    }

    /// The keys and the values that the JSON object `value` stands for.
    fn members_from_json(value: &serde_json::Value) -> (result: Result<
        (Vec<String>, Vec<T>),
        String,
    >)
        ensures
            match result {
                Ok(parts) => map_decoded::<T>(json_view(*value)) == Ok::<
                    StringMapModel<T::Model>,
                    Seq<char>,
                >(StringMapModel { keys: texts_view(parts.0@), values: models(parts.1@) })
                    && parts.0@.len() == parts.1@.len() && ascending(texts_view(parts.0@)),
                Err(message) => map_decoded::<T>(json_view(*value)) == Err::<
                    StringMapModel<T::Model>,
                    Seq<char>,
                >(message@),
            },
    {
        match json_as_members(value) {
            Some((names, values)) => {
                proof {
                    let members = json_members(texts_view(names@), json_views(values@));
                    assert(member_names(members) =~= texts_view(names@));
                    assert(member_values(members) =~= json_views(values@));
                }
                match items_from_json::<T>(&values) {
                    Ok(items) => Ok(Self::sorted(names, items)),
                    Err(message) => Err(message),
                }
            },
            None => Err(invalid("map", "an object")),
        }
    }
}

impl<T: Node> Node for StringMap<T> {
    type Model = StringMapModel<T::Model>;

    open spec fn model(&self) -> StringMapModel<T::Model> {
        StringMapModel { keys: self.key_texts(), values: models(self@) }
    }

    open spec fn outcome(
        node: StringMapModel<T::Model>,
        tokens: Seq<Token>,
        clipboard: ClipboardModel,
    ) -> Outcome<StringMapModel<T::Model>> {
        map_outcome::<T>(node, tokens, clipboard)
    }

    open spec fn json(node: StringMapModel<T::Model>) -> JsonModel {
        map_json::<T>(node)
    }

    open spec fn decoded(value: JsonModel) -> Result<StringMapModel<T::Model>, Seq<char>> {
        map_decoded::<T>(value)
    }

    open spec fn default_model() -> StringMapModel<T::Model> {
        StringMapModel { keys: Seq::empty(), values: Seq::empty() }
    }

    fn node_step_with(&mut self, runner: NodeRunner, clipboard: &mut Clipboard) -> (text: String) {
        let mut runner = runner;
        let ghost tokens = runner@;
        let token = runner.step();
        proof {
            if token@.is_chain() {
                lemma_rest_well_formed(tokens);
            }
            assert(Self::outcome(old(self).model(), tokens, old(clipboard)@) == map_outcome::<T>(
                old(self).model(),
                tokens,
                old(clipboard)@,
            ));
        }
        let (mut keys, mut values) = self.take_parts();
        let length = values.len();
        let ghost before = values@;
        let ghost old_keys = texts_view(keys@);
        let text = match token {
            NodeToken::ChainKey(key) => {
                match find_key(&keys, key.as_str()) {
                    Some(index) => step_item(values.as_mut_slice(), index, runner, clipboard),
                    None => used_key("map", key.as_str(), &keys),
                }
            },
            NodeToken::ChainAll => {
                let picks = indices(length);
                step_picks(values.as_mut_slice(), &picks, &runner, clipboard)
            },
            NodeToken::GetKeys => format_keys(&keys),
            NodeToken::ChainProperty(property) => {
                if text_is(&property, "length") {
                    let (text, _) = integer_step(
                        IntegerKind::Usize,
                        length as i128,
                        runner,
                        clipboard,
                    );
                    text
                } else {
                    cannot("map", &NodeToken::ChainProperty(property))
                }
            },
            NodeToken::Get => {
                let value = Self::members_to_json(&keys, &values);
                json_pretty(&value)
            },
            NodeToken::SetValue(value) => {
                match json_parse(value.as_str()) {
                    Ok(json) => match Self::members_from_json(&json) {
                        Ok((new_keys, new_values)) => {
                            keys = new_keys;
                            values = new_values;
                            String::new()
                        },
                        Err(message) => set_error("map", message.as_str()),
                    },
                    Err(message) => set_error("map", message.as_str()),
                }
            },
            NodeToken::InsertKey(key) => {
                if find_key(&keys, key.as_str()).is_some() {
                    key_message(
                        "Tried to insert key '",
                        key.as_str(),
                        "' on a ",
                        "map",
                        " that already contains it. Current keys: ",
                        &keys,
                    )
                } else {
                    let n = find_rank(&keys, key.as_str());
                    let item = T::default_node();
                    assert(texts_view(keys@.insert(n as int, key)) =~= old_keys.insert(
                        n as int,
                        key@,
                    ));
                    keys.insert(n, key);
                    values.insert(n, item);
                    assert(models(values@) =~= models(before).insert(n as int, item.model()));
                    String::new()
                }
            },
            NodeToken::RemoveKey(key) => {
                match find_key(&keys, key.as_str()) {
                    Some(index) => {
                        proof {
                            lemma_remove_ascending(old_keys, index as int);
                            assert(texts_view(keys@.remove(index as int)) =~= old_keys.remove(
                                index as int,
                            ));
                        }
                        keys.remove(index);
                        values.remove(index);
                        assert(models(values@) =~= models(before).remove(index as int));
                        String::new()
                    },
                    None => key_message(
                        "Tried to remove key '",
                        key.as_str(),
                        "' on a ",
                        "map",
                        " that doesnt contain it. Current keys: ",
                        &keys,
                    ),
                }
            },
            NodeToken::SetDefault => {
                keys = Vec::new();
                values = Vec::new();
                assert(models(values@) =~= Seq::<T::Model>::empty());
                assert(texts_view(keys@) =~= Seq::<Seq<char>>::empty());
                String::new()
            },
            NodeToken::Help => String::from_str(
                "\nMap Help\n\nCommands:\n*   help    - display this help\n*   keys    - display the keys\n*   get     - display JSON\n*   set     - set to JSON\n*   insert  - create a new element\n*   remove  - remove an element\n*   default - reset to empty map\n\nAccessors:\n*   [key]   - access item at the string key\n*   .length - display number of items",
            ),
            action => cannot("map", &action),
        };
        self.put_parts(keys, values);
        text
    }

    fn to_json(&self) -> (value: serde_json::Value) {
        proof {
            use_type_invariant(self);
            assert(Self::json(self.model()) == map_json::<T>(self.model()));
        }
        Self::members_to_json(&self.keys, &self.values)
    }

    fn from_json(value: &serde_json::Value) -> (result: Result<StringMap<T>, String>) {
        proof {
            assert(Self::decoded(json_view(*value)) == map_decoded::<T>(json_view(*value)));
        }
        match Self::members_from_json(value) {
            Ok((keys, values)) => Ok(StringMap { keys, values }),
            Err(message) => Err(message),
        }
    }

    fn default_node() -> (node: StringMap<T>) {
        let node: StringMap<T> = StringMap::new();
        assert(models(node@) =~= Seq::<T::Model>::empty());
        node
    }
}

} // verus!
