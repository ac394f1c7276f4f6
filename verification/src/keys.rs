//! The keys of the keyed containers: finding one, and listing them in messages.

use vstd::prelude::*;
use vstd::string::*;
use crate::text::{joined, texts_view};

verus! {

/// The first position of `key` in `keys`, where it is one of them.
pub open spec fn position(keys: Seq<Seq<char>>, key: Seq<char>) -> Option<int>
    decreases keys.len(),
{
    if keys.len() == 0 {
        None
    } else {
        match position(keys.drop_last(), key) {
            Some(i) => Some(i),
            None => if keys.last() == key {
                Some(keys.len() - 1)
            } else {
                None
            },
        }
    }
}

/// Each key between single quotes.
pub open spec fn quoted_keys(keys: Seq<Seq<char>>) -> Seq<Seq<char>> {
    keys.map_values(|key: Seq<char>| "'"@ + key + "'"@)
}

/// The keys as messages list them: each between single quotes, with a comma
/// and a space between each two.
pub open spec fn key_list(keys: Seq<Seq<char>>) -> Seq<char> {
    joined(quoted_keys(keys), 0, ", "@)
}

/// A position says where the key stands first, and there is none only where
/// the key is none of the keys.
pub proof fn lemma_position(keys: Seq<Seq<char>>, key: Seq<char>)
    ensures
        match position(keys, key) {
            Some(i) => 0 <= i < keys.len() && keys[i] == key && forall|j: int|
                0 <= j < i ==> keys[j] != key,
            None => forall|j: int| 0 <= j < keys.len() ==> keys[j] != key,
        },
    decreases keys.len(),
{
    if keys.len() > 0 {
        let front = keys.drop_last();
        lemma_position(front, key);
        assert(forall|j: int| 0 <= j < front.len() ==> front[j] == keys[j]);
        match position(front, key) {
            Some(i) => {
                assert(front[i] == key);
            },
            None => {
                assert forall|j: int| 0 <= j < keys.len() - 1 implies keys[j] != key by {
                    assert(front[j] != key);
                }
            },
        }
    }
}

/// `itertools::join` on strings: the strings in order, with `separator`
/// between each two, and nothing where there is none.
#[verifier::external_body]
fn join_texts(texts: &Vec<String>, separator: &str) -> (text: String)
    ensures
        text@ == joined(texts_view(texts@), 0, separator@),
{
    itertools::join(texts, separator)
}

/// Finds the first position of `key` in `keys`.
pub fn find_key(keys: &Vec<String>, key: &str) -> (found: Option<usize>)
    ensures
        match found {
            Some(i) => position(texts_view(keys@), key@) == Some(i as int) && i < keys.len(),
            None => position(texts_view(keys@), key@) is None,
        },
{
    let wanted = key.to_owned();
    let mut n: usize = 0;
    assert(texts_view(keys@).take(0) =~= Seq::<Seq<char>>::empty());
    while n < keys.len()
        invariant
            n <= keys.len(),
            wanted@ == key@,
            position(texts_view(keys@).take(n as int), key@) is None,
        decreases keys.len() - n,
    {
        proof {
            assert(texts_view(keys@).take(n + 1).drop_last() =~= texts_view(keys@).take(n as int));
            assert(texts_view(keys@).take(n + 1).last() == keys@[n as int]@);
        }
        if keys[n] == wanted {
            proof {
                lemma_position_found(texts_view(keys@), key@, n + 1);
            }
            return Some(n);
        }
        n += 1;
    }
    assert(texts_view(keys@).take(n as int) =~= texts_view(keys@));
    None
}

/// A key that stands among the first `k` keys stands at the same first
/// position among all of them.
pub proof fn lemma_position_found(keys: Seq<Seq<char>>, key: Seq<char>, k: int)
    requires
        0 <= k <= keys.len(),
        position(keys.take(k), key) is Some,
    ensures
        position(keys, key) == position(keys.take(k), key),
    decreases keys.len() - k,
{
    if k < keys.len() {
        assert(keys.take(k + 1).drop_last() =~= keys.take(k));
        lemma_position_found(keys, key, k + 1);
    } else {
        assert(keys.take(k) =~= keys);
    }
}

/// The keys as messages list them.
pub fn format_keys(keys: &Vec<String>) -> (text: String)
    ensures
        text@ == key_list(texts_view(keys@)),
{
    let mut quoted: Vec<String> = Vec::new();
    let mut n: usize = 0;
    while n < keys.len()
        invariant
            n <= keys.len(),
            quoted@.len() == n,
            forall|i: int| 0 <= i < n ==> (#[trigger] quoted@[i])@ == "'"@ + keys@[i]@ + "'"@,
        decreases keys.len() - n,
    {
        let mut one = String::from_str("'");
        one.append(keys[n].as_str());
        one.append("'");
        quoted.push(one);
        n += 1;
    }
    assert(texts_view(quoted@) =~= quoted_keys(texts_view(keys@)));
    join_texts(&quoted, ", ")
}

/// A copy of `keys`.
pub fn copy_keys(keys: &Vec<String>) -> (copy: Vec<String>)
    ensures
        texts_view(copy@) == texts_view(keys@),
{
    let mut copy: Vec<String> = Vec::new();
    let mut n: usize = 0;
    while n < keys.len()
        invariant
            n <= keys.len(),
            copy@.len() == n,
            forall|i: int| 0 <= i < n ==> (#[trigger] copy@[i])@ == keys@[i]@,
        decreases keys.len() - n,
    {
        copy.push(keys[n].clone());
        n += 1;
    }
    assert(texts_view(copy@) =~= texts_view(keys@));
    copy
}

/// The message for a key that a container of the kind `name` does not hold.
pub open spec fn used_key_text(name: Seq<char>, key: Seq<char>, keys: Seq<Seq<char>>) -> Seq<
    char,
> {
    if keys.len() == 0 {
        "Used key '"@ + key + "' on an empty "@ + name + "."@
    } else {
        "Used key '"@ + key + "' on a "@ + name + " that does not contain it. Try one of: "@
            + key_list(keys)
    }
}

/// The message for a key that a container of the kind `name` does not hold.
pub fn used_key(name: &str, key: &str, keys: &Vec<String>) -> (text: String)
    ensures
        text@ == used_key_text(name@, key@, texts_view(keys@)),
{
    let mut text = String::from_str("Used key '");
    text.append(key);
    if keys.len() == 0 {
        text.append("' on an empty ");
        text.append(name);
        text.append(".");
    } else {
        text.append("' on a ");
        text.append(name);
        text.append(" that does not contain it. Try one of: ");
        text.append(format_keys(keys).as_str());
    }
    text
}

/// A message about the key `key` that ends with the keys of the container:
/// `start`, the key, `middle`, the kind of the container, `end`, the keys.
pub open spec fn key_message_text(
    start: Seq<char>,
    key: Seq<char>,
    middle: Seq<char>,
    name: Seq<char>,
    end: Seq<char>,
    keys: Seq<Seq<char>>,
) -> Seq<char> {
    start + key + middle + name + end + key_list(keys)
}

/// A message about the key `key` that ends with the keys of the container.
pub fn key_message(
    start: &str,
    key: &str,
    middle: &str,
    name: &str,
    end: &str,
    keys: &Vec<String>,
) -> (text: String)
    ensures
        text@ == key_message_text(start@, key@, middle@, name@, end@, texts_view(keys@)),
{
    let mut text = String::from_str(start);
    text.append(key);
    text.append(middle);
    text.append(name);
    text.append(end);
    text.append(format_keys(keys).as_str());
    text
}

} // verus!
