//! What the nodes of an application's own structs and enums are written with.
//!
//! A struct shows its public fields: `.name` hands the command on to the
//! field `name`. A field that is not public is not shown, and is answered
//! like a name that the struct does not have. An enum shows the fields of
//! the variant it is set to: `.name` where they have names, `[i]` where they
//! have none; `variant name` sets it to the variant `name`, made of new
//! nodes, and a name that is none of its variants is answered with a message.
//!
//! Both answer `get` and `set` through the JSON value of the whole
//! aggregate, which holds its fields in the order in which they are
//! declared; `copy` and `paste` go through the clipboard, which keeps one
//! copy for each kind of aggregate; `reset` sets the aggregate to a new node;
//! `help` lists the actions and the fields. An action that the aggregate
//! does not know is answered as every node answers it.

use vstd::prelude::*;
use vstd::string::*;
use crate::json::{
    json_as_members, json_from_members, json_members, json_parse, json_parsed, json_pretty,
    json_pretty_text, json_view, json_views, member_names, member_of, JsonModel,
};
use crate::keys::{find_key, lemma_position, position};
use crate::node::{Clipboard, ClipboardModel, Node};
use crate::text::{decimal_text, format_integer, texts_view};

verus! {

/// The message for a property that an aggregate of the kind `name` does not show.
pub open spec fn missing_property_text(name: Seq<char>, property: Seq<char>) -> Seq<char> {
    name + " does not have a property '"@ + property + "'"@
}

/// The message for a property that an aggregate of the kind `name` does not show.
pub fn missing_property(name: &str, property: &str) -> (text: String)
    ensures
        text@ == missing_property_text(name@, property@),
{
    let mut text = String::from_str(name);
    text.append(" does not have a property '");
    text.append(property);
    text.append("'");
    text
}

/// The message for a pasting where no node of the kind `name` was copied.
pub open spec fn not_copied_text(name: Seq<char>) -> Seq<char> {
    name + " has not been copied"@
}

/// The message for a text or a JSON value that sets no aggregate of the kind `name`.
pub open spec fn set_failed_text(name: Seq<char>, message: Seq<char>) -> Seq<char> {
    name + " set Error: "@ + message
}

/// The message for a text or a JSON value that sets no aggregate of the kind `name`.
pub fn set_failed(name: &str, message: &str) -> (text: String)
    ensures
        text@ == set_failed_text(name@, message@),
{
    let mut text = String::from_str(name);
    text.append(" set Error: ");
    text.append(message);
    text
}

/// The text that `get` answers: the JSON value of the node, indented.
pub fn get_node<N: Node>(node: &N) -> (text: String)
    ensures
        text@ == json_pretty_text(N::json(node.model())),
{
    let value = node.to_json();
    json_pretty(&value)
}

/// What a `set` with the text `text` makes of a node of the kind `name`: the
/// node that the text stands for, or the message that says why it stands for none.
pub open spec fn set_result<N: Node>(name: Seq<char>, text: Seq<char>) -> Result<
    N::Model,
    Seq<char>,
> {
    match json_parsed(text) {
        Ok(value) => match N::decoded(value) {
            Ok(node) => Ok(node),
            Err(message) => Err(set_failed_text(name, message)),
        },
        Err(message) => Err(set_failed_text(name, message)),
    }
}

/// Sets `node` to what the JSON text `text` stands for, and answers nothing;
/// or leaves it as it is, and answers why the text stands for no node.
pub fn set_node<N: Node>(node: &mut N, name: &str, text: &str) -> (answer: String)
    ensures
        match set_result::<N>(name@, text@) {
            Ok(model) => answer@ == Seq::<char>::empty() && final(node).model() == model,
            Err(message) => answer@ == message && final(node).model() == old(node).model(),
        },
{
    match json_parse(text) {
        Ok(value) => match N::from_json(&value) {
            Ok(new) => {
                *node = new;
                String::new()
            },
            Err(message) => set_failed(name, message.as_str()),
        },
        Err(message) => set_failed(name, message.as_str()),
    }
}

/// Copies `node` onto the clipboard as a node of the kind `name`, and answers nothing.
pub fn copy_node<N: Node>(node: &N, name: &str, clipboard: &mut Clipboard) -> (answer: String)
    ensures
        answer@ == Seq::<char>::empty(),
        final(clipboard)@ == old(clipboard)@.with_copy(name@, N::json(node.model())),
{
    clipboard.copy_json(name, node.to_json());
    String::new()
}

/// What a `paste` makes of a node of the kind `name`: the node that was
/// copied last for this kind, or the message that says why there is none.
pub open spec fn paste_result<N: Node>(name: Seq<char>, clipboard: ClipboardModel) -> Result<
    N::Model,
    Seq<char>,
> {
    match clipboard.copy_of(name) {
        Some(value) => match N::decoded(value) {
            Ok(node) => Ok(node),
            Err(message) => Err(set_failed_text(name, message)),
        },
        None => Err(not_copied_text(name)),
    }
}

/// Sets `node` to the node of the kind `name` that was copied last, and
/// answers nothing; or leaves it as it is, and answers why.
pub fn paste_node<N: Node>(node: &mut N, name: &str, clipboard: &Clipboard) -> (answer: String)
    ensures
        match paste_result::<N>(name@, clipboard@) {
            Ok(model) => answer@ == Seq::<char>::empty() && final(node).model() == model,
            Err(message) => answer@ == message && final(node).model() == old(node).model(),
        },
{
    match clipboard.copied_json(name) {
        Some(value) => match N::from_json(&value) {
            Ok(new) => {
                *node = new;
                String::new()
            },
            Err(message) => set_failed(name, message.as_str()),
        },
        None => {
            let mut text = String::from_str(name);
            text.append(" has not been copied");
            text
        },
    }
}

/// The JSON object with the members `names` and `values`, in this order:
/// the value of an aggregate with these fields. There is none where the
/// names are not as many as the values, or a name stands twice.
pub fn fields_to_json(names: Vec<String>, values: Vec<serde_json::Value>) -> (value: Option<
    serde_json::Value,
>)
    ensures
        match value {
            Some(v) => names@.len() == values@.len() && texts_view(names@).no_duplicates()
                && json_view(v) == JsonModel::Object(
                json_members(texts_view(names@), json_views(values@)),
            ),
            None => !(names@.len() == values@.len() && texts_view(names@).no_duplicates()),
        },
{
    if names.len() != values.len() {
        return None;
    }
    let ghost texts = texts_view(names@);
    let mut n: usize = 0;
    while n < names.len()
        invariant
            n <= names.len(),
            texts == texts_view(names@),
            forall|i: int, j: int| 0 <= i < j < n ==> texts[i] != texts[j],
        decreases names.len() - n,
    {
        proof {
            lemma_position(texts, names@[n as int]@);
        }
        match find_key(&names, names[n].as_str()) {
            Some(first) => {
                if first != n {
                    assert(texts[first as int] == texts[n as int]);
                    return None;
                }
            },
            None => {},
        }
        n += 1;
    }
    assert(texts.no_duplicates()) by {
        assert forall|i: int, j: int| 0 <= i < texts.len() && 0 <= j < texts.len() && i
            != j implies texts[i] != texts[j] by {
            if i < j {
                assert(texts[i] != texts[j]);
            } else {
                assert(texts[j] != texts[i]);
            }
        }
    }
    Some(json_from_members(names, values))
}

/// The member `name` of a JSON object: the value of the field `name` of an
/// aggregate.
pub fn field_from_json(value: &serde_json::Value, name: &str) -> (field: Option<serde_json::Value>)
    ensures
        match field {
            Some(f) => member_of(json_view(*value), name@) == Some(json_view(f)),
            None => member_of(json_view(*value), name@) is None,
        },
{
    match json_as_members(value) {
        Some((names, values)) => {
            let mut values = values;
            proof {
                let members = json_members(texts_view(names@), json_views(values@));
                assert(member_names(members) =~= texts_view(names@));
                lemma_position(texts_view(names@), name@);
            }
            match find_key(&names, name) {
                Some(i) => Some(values.remove(i)),
                None => None,
            }
        },
        None => None,
    }
}

/// One line of help for each pair: the first text, and after a dash the
/// second, where it is not empty.
pub open spec fn help_lines(pairs: Seq<(String, String)>) -> Seq<char>
    decreases pairs.len(),
{
    if pairs.len() == 0 {
        Seq::empty()
    } else {
        let pair = pairs.last();
        let line = if pair.1@.len() == 0 {
            "*   "@ + pair.0@ + "\n"@
        } else {
            "*   "@ + pair.0@ + " - "@ + pair.1@ + "\n"@
        };
        help_lines(pairs.drop_last()) + line
    }
}

/// The help of a struct of the kind `name`: the actions of every struct,
/// then its own actions with what they do, then its fields with their types.
pub open spec fn struct_help_text(
    name: Seq<char>,
    actions: Seq<(String, String)>,
    fields: Seq<(String, String)>,
) -> Seq<char> {
    ("\n"@ + name
        + " Help\n\nActions:\n*   help  - display this help\n*   get   - display JSON\n*   set   - set to JSON\n*   copy  - copy the values from this struct\n*   paste - paste the copied values to this struct\n*   reset - reset to default values\n"@
        + help_lines(actions) + "\nAccessors:\n"@ + help_lines(fields)).drop_last()
}

/// Writes one line of help for each pair.
fn write_help_lines(text: &mut String, pairs: &Vec<(String, String)>)
    ensures
        final(text)@ == old(text)@ + help_lines(pairs@),
{
    let mut n: usize = 0;
    assert(pairs@.take(0) =~= Seq::<(String, String)>::empty());
    assert(text@ =~= old(text)@ + help_lines(pairs@.take(0)));
    while n < pairs.len()
        invariant
            n <= pairs.len(),
            text@ == old(text)@ + help_lines(pairs@.take(n as int)),
        decreases pairs.len() - n,
    {
        let ghost before = text@;
        proof {
            assert(pairs@.take(n + 1).drop_last() =~= pairs@.take(n as int));
            assert(pairs@.take(n + 1).last() == pairs@[n as int]);
        }
        text.append("*   ");
        text.append(pairs[n].0.as_str());
        if !pairs[n].1.as_str().is_empty() {
            text.append(" - ");
            text.append(pairs[n].1.as_str());
        }
        text.append("\n");
        assert(text@ =~= old(text)@ + help_lines(pairs@.take(n + 1)));
        n += 1;
    }
    assert(pairs@.take(n as int) =~= pairs@);
}

/// The help of a struct of the kind `name`.
pub fn struct_help(name: &str, actions: &Vec<(String, String)>, fields: &Vec<(String, String)>) -> (text:
    String)
    ensures
        text@ == struct_help_text(name@, actions@, fields@),
{
    let mut text = String::from_str("\n");
    text.append(name);
    text.append(
        " Help\n\nActions:\n*   help  - display this help\n*   get   - display JSON\n*   set   - set to JSON\n*   copy  - copy the values from this struct\n*   paste - paste the copied values to this struct\n*   reset - reset to default values\n",
    );
    write_help_lines(&mut text, actions);
    text.append("\nAccessors:");
    let mut rest = String::from_str("\n");
    write_help_lines(&mut rest, fields);
    let chars = crate::text::chars_of(rest.as_str());
    let mut n: usize = 0;
    let ghost head = text@;
    proof {
        reveal_strlit("\nAccessors:\n");
        reveal_strlit("\nAccessors:");
        reveal_strlit("\n");
        assert("\nAccessors:\n"@ =~= "\nAccessors:"@ + "\n"@);
    }
    assert(chars@.len() > 0);
    let last: usize = chars.len() - 1;
    while n < last
        invariant
            n <= last,
            last + 1 == chars.len(),
            text@ == head + chars@.take(n as int),
        decreases last - n,
    {
        text.push(chars[n]);
        assert(chars@.take(n + 1) =~= chars@.take(n as int).push(chars@[n as int]));
        n += 1;
    }
    assert(chars@.len() > 0);
    assert(chars@.take(n as int) =~= chars@.drop_last());
    assert(text@ =~= struct_help_text(name@, actions@, fields@));
    text
}

/// The message for a variant that an enum of the kind `name` does not have.
pub open spec fn missing_variant_text(name: Seq<char>, variant: Seq<char>) -> Seq<char> {
    name + " does not have a variant '"@ + variant + "'"@
}

/// The message for a variant that an enum of the kind `name` does not have.
pub fn missing_variant(name: &str, variant: &str) -> (text: String)
    ensures
        text@ == missing_variant_text(name@, variant@),
{
    let mut text = String::from_str(name);
    text.append(" does not have a variant '");
    text.append(variant);
    text.append("'");
    text
}

/// The message for an index on a variant whose fields have names, or that has none.
pub open spec fn cannot_index_text(variant: Seq<char>) -> Seq<char> {
    "Cannot index "@ + variant
}

/// The message for an index on a variant whose fields have names, or that has none.
pub fn cannot_index(variant: &str) -> (text: String)
    ensures
        text@ == cannot_index_text(variant@),
{
    let mut text = String::from_str("Cannot index ");
    text.append(variant);
    text
}

/// The message for an index that is greater than `highest`, the last index
/// of the fields of a variant.
pub open spec fn variant_index_text(index: usize, variant: Seq<char>, highest: usize) -> Seq<
    char,
> {
    "Used index "@ + decimal_text(index as int) + " on a "@ + variant
        + " (try a value between 0-"@ + decimal_text(highest as int)
}

/// The message for an index that is greater than `highest`, the last index
/// of the fields of a variant.
pub fn variant_index(index: usize, variant: &str, highest: usize) -> (text: String)
    ensures
        text@ == variant_index_text(index, variant@, highest),
{
    let mut text = String::from_str("Used index ");
    text.append(format_integer(index as i128).as_str());
    text.append(" on a ");
    text.append(variant);
    text.append(" (try a value between 0-");
    text.append(format_integer(highest as i128).as_str());
    text
}

/// The line of help that starts the fields of a variant.
pub fn variant_heading(variant: &str) -> (text: String)
    ensures
        text@ == "As "@ + variant@ + ":"@,
{
    let mut text = String::from_str("As ");
    text.append(variant);
    text.append(":");
    text
}

/// The line of help for a field of a variant that has a name.
pub fn named_accessor(field: &str, kind: &str) -> (text: String)
    ensures
        text@ == "*   ."@ + field@ + " - "@ + kind@,
{
    let mut text = String::from_str("*   .");
    text.append(field);
    text.append(" - ");
    text.append(kind);
    text
}

/// The line of help for a field of a variant that has an index.
pub fn indexed_accessor(index: usize, kind: &str) -> (text: String)
    ensures
        text@ == "*   ["@ + decimal_text(index as int) + "] - "@ + kind@,
{
    let mut text = String::from_str("*   [");
    text.append(format_integer(index as i128).as_str());
    text.append("] - ");
    text.append(kind);
    text
}

/// Each of `lines` with `start` before it and the end of a line after it.
pub open spec fn lines_text(start: Seq<char>, lines: Seq<String>) -> Seq<char>
    decreases lines.len(),
{
    if lines.len() == 0 {
        Seq::empty()
    } else {
        lines_text(start, lines.drop_last()) + start + lines.last()@ + "\n"@
    }
}

/// The help of an enum of the kind `name`: the actions of every enum, then
/// its own actions with what they do, its variants, and the lines that name
/// the fields of the variants, where there are any.
pub open spec fn enum_help_text(
    name: Seq<char>,
    actions: Seq<(String, String)>,
    variants: Seq<String>,
    accessors: Seq<String>,
) -> Seq<char> {
    "\n"@ + name
        + " Help\n\nActions:\n*   help    - display this help\n*   get     - display JSON\n*   set     - set to JSON\n*   copy    - copy the values from this enum\n*   paste   - paste the copied values to this enum\n*   reset   - reset to default variant\n*   variant - set to the specified variant\n"@
        + help_lines(actions) + "\nValid variants:\n"@ + lines_text("*   "@, variants) + "\n"@
        + if accessors.len() == 0 {
        "\n"@
    } else {
        "Accessors:\nChanges depending on which variant the enum is currently set to:\n"@
            + "\n"@ + lines_text(Seq::empty(), accessors)
    }
}

/// Writes each of `lines` with `start` before it.
fn write_lines(text: &mut String, start: &str, lines: &Vec<String>)
    ensures
        final(text)@ == old(text)@ + lines_text(start@, lines@),
{
    let mut n: usize = 0;
    assert(lines@.take(0) =~= Seq::<String>::empty());
    assert(text@ =~= old(text)@ + lines_text(start@, lines@.take(0)));
    while n < lines.len()
        invariant
            n <= lines.len(),
            text@ == old(text)@ + lines_text(start@, lines@.take(n as int)),
        decreases lines.len() - n,
    {
        proof {
            assert(lines@.take(n + 1).drop_last() =~= lines@.take(n as int));
            assert(lines@.take(n + 1).last() == lines@[n as int]);
        }
        text.append(start);
        text.append(lines[n].as_str());
        text.append("\n");
        assert(text@ =~= old(text)@ + lines_text(start@, lines@.take(n + 1)));
        n += 1;
    }
    assert(lines@.take(n as int) =~= lines@);
}

/// The help of an enum of the kind `name`.
pub fn enum_help(
    name: &str,
    actions: &Vec<(String, String)>,
    variants: &Vec<String>,
    accessors: &Vec<String>,
) -> (text: String)
    ensures
        text@ == enum_help_text(name@, actions@, variants@, accessors@),
{
    let mut text = String::from_str("\n");
    text.append(name);
    text.append(
        " Help\n\nActions:\n*   help    - display this help\n*   get     - display JSON\n*   set     - set to JSON\n*   copy    - copy the values from this enum\n*   paste   - paste the copied values to this enum\n*   reset   - reset to default variant\n*   variant - set to the specified variant\n",
    );
    write_help_lines(&mut text, actions);
    text.append("\nValid variants:\n");
    write_lines(&mut text, "*   ", variants);
    text.append("\n");
    if accessors.len() == 0 {
        text.append("\n");
    } else {
        text.append(
            "Accessors:\nChanges depending on which variant the enum is currently set to:\n",
        );
        text.append("\n");
        proof {
            reveal_strlit("");
            assert(""@ =~= Seq::<char>::empty());
        }
        let ghost before = text@;
        write_lines(&mut text, "", accessors);
    }
    assert(text@ =~= enum_help_text(name@, actions@, variants@, accessors@));
    text
}

} // verus!
