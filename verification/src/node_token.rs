//! The instructions that a command path is made of.

use vstd::prelude::*;
use vstd::string::*;
use crate::text::{decimal_text, format_integer, texts_view};

verus! {

/// One instruction of a command: a step down into a child, or the action that ends the path.
#[derive(Debug, PartialEq, Clone)]
pub enum NodeToken {
    ChainProperty(String),
    ChainIndex(usize),
    ChainKey(String),
    ChainContext,
    ChainAll,
    Help,
    Edit,
    Get,
    SetValue(String),
    SetDefault,
    SetVariant(String),
    CopyFrom,
    PasteTo,
    Insert,
    InsertIndex(usize),
    InsertKey(String),
    InsertIndexKey(usize, String),
    Remove,
    RemoveIndex(usize),
    RemoveKey(String),
    GetKeys,
    Custom(String, Vec<String>),
}

/// The mathematical value of a [`NodeToken`]: the same instruction over sequences of characters.
pub ghost enum Token {
    ChainProperty(Seq<char>),
    ChainIndex(usize),
    ChainKey(Seq<char>),
    ChainContext,
    ChainAll,
    Help,
    Edit,
    Get,
    SetValue(Seq<char>),
    SetDefault,
    SetVariant(Seq<char>),
    CopyFrom,
    PasteTo,
    Insert,
    InsertIndex(usize),
    InsertKey(Seq<char>),
    InsertIndexKey(usize, Seq<char>),
    Remove,
    RemoveIndex(usize),
    RemoveKey(Seq<char>),
    GetKeys,
    Custom(Seq<char>, Seq<Seq<char>>),
}

impl View for NodeToken {
    type V = Token;

    open spec fn view(&self) -> Token {
        match self {
            NodeToken::ChainProperty(name) => Token::ChainProperty(name@),
            NodeToken::ChainIndex(index) => Token::ChainIndex(*index),
            NodeToken::ChainKey(key) => Token::ChainKey(key@),
            NodeToken::ChainContext => Token::ChainContext,
            NodeToken::ChainAll => Token::ChainAll,
            NodeToken::Help => Token::Help,
            NodeToken::Edit => Token::Edit,
            NodeToken::Get => Token::Get,
            NodeToken::SetValue(value) => Token::SetValue(value@),
            NodeToken::SetDefault => Token::SetDefault,
            NodeToken::SetVariant(name) => Token::SetVariant(name@),
            NodeToken::CopyFrom => Token::CopyFrom,
            NodeToken::PasteTo => Token::PasteTo,
            NodeToken::Insert => Token::Insert,
            NodeToken::InsertIndex(index) => Token::InsertIndex(*index),
            NodeToken::InsertKey(key) => Token::InsertKey(key@),
            NodeToken::InsertIndexKey(index, key) => Token::InsertIndexKey(*index, key@),
            NodeToken::Remove => Token::Remove,
            NodeToken::RemoveIndex(index) => Token::RemoveIndex(*index),
            NodeToken::RemoveKey(key) => Token::RemoveKey(key@),
            NodeToken::GetKeys => Token::GetKeys,
            NodeToken::Custom(name, args) => Token::Custom(name@, texts_view(args@)),
        }
    }
}

impl Token {
    /// Whether the token steps down into a child rather than ending the path.
    pub open spec fn is_chain(self) -> bool {
        self is ChainProperty || self is ChainIndex || self is ChainKey || self is ChainContext
            || self is ChainAll
    }

    /// How the token is written in the message of a node that cannot perform it:
    /// a custom action by its name, every other token as the variant's name with
    /// its fields in brackets.
    pub open spec fn describe(self) -> Seq<char> {
        match self {
            Token::ChainProperty(name) => "ChainProperty("@ + quoted_text(name) + ")"@,
            Token::ChainIndex(index) => "ChainIndex("@ + decimal_text(index as int) + ")"@,
            Token::ChainKey(key) => "ChainKey("@ + quoted_text(key) + ")"@,
            Token::ChainContext => "ChainContext"@,
            Token::ChainAll => "ChainAll"@,
            Token::Help => "Help"@,
            Token::Edit => "Edit"@,
            Token::Get => "Get"@,
            Token::SetValue(value) => "Set("@ + quoted_text(value) + ")"@,
            Token::SetDefault => "SetDefault"@,
            Token::SetVariant(name) => "SetVariant("@ + quoted_text(name) + ")"@,
            Token::CopyFrom => "CopyFrom"@,
            Token::PasteTo => "PasteTo"@,
            Token::Insert => "Insert"@,
            Token::InsertIndex(index) => "InsertIndex("@ + decimal_text(index as int) + ")"@,
            Token::InsertKey(key) => "InsertKey("@ + quoted_text(key) + ")"@,
            Token::InsertIndexKey(index, key) => "InsertIndexKey("@ + decimal_text(index as int)
                + ", "@ + quoted_text(key) + ")"@,
            Token::Remove => "Remove"@,
            Token::RemoveIndex(index) => "RemoveIndex("@ + decimal_text(index as int) + ")"@,
            Token::RemoveKey(key) => "RemoveKey("@ + quoted_text(key) + ")"@,
            Token::GetKeys => "GetKeys"@,
            Token::Custom(name, args) => name,
        }
    }
}

/// The text that `{:?}` writes for a string: the string between double quotes,
/// with the characters that Rust escapes in a string literal escaped.
pub uninterp spec fn quoted_text(text: Seq<char>) -> Seq<char>;

/// `format!("{:?}", text)`: the debug form of a string. The contract only gives
/// the result its name; it is the same text for the same characters.
#[verifier::external_body]
fn quoted(text: &str) -> (result: String)
    ensures
        result@ == quoted_text(text@),
{
    format!("{:?}", text)
}

/// Copies every text of `texts`.
pub fn duplicate_texts(texts: &Vec<String>) -> (copy: Vec<String>)
    ensures
        texts_view(copy@) == texts_view(texts@),
{
    let mut copy: Vec<String> = Vec::new();
    let mut i: usize = 0;
    while i < texts.len()
        invariant
            i <= texts.len(),
            texts_view(copy@) == texts_view(texts@.take(i as int)),
        decreases texts.len() - i,
    {
        let ghost before = copy@;
        let text = texts[i].clone();
        copy.push(text);
        proof {
            assert(texts@.take(i + 1) =~= texts@.take(i as int).push(texts@[i as int]));
            assert(texts_view(before.push(text)) =~= texts_view(before).push(text@));
            assert(texts_view(texts@.take(i as int).push(texts@[i as int])) =~= texts_view(
                texts@.take(i as int),
            ).push(texts@[i as int]@));
        }
        i += 1;
    }
    assert(texts@.take(i as int) =~= texts@);
    copy
}

fn wrap_text(name: &str, text: &str) -> (result: String)
    ensures
        result@ == name@ + quoted_text(text@) + ")"@,
{
    let mut result = String::from_str(name);
    let inner = quoted(text);
    result.append(inner.as_str());
    result.append(")");
    result
}

fn wrap_index(name: &str, index: usize) -> (result: String)
    ensures
        result@ == name@ + decimal_text(index as int) + ")"@,
{
    let mut result = String::from_str(name);
    let inner = format_integer(index as i128);
    result.append(inner.as_str());
    result.append(")");
    result
}

impl NodeToken {
    /// Whether the token steps down into a child rather than ending the path.
    pub fn is_chain(&self) -> (r: bool)
        ensures
            r == self@.is_chain(),
    {
        match self {
            NodeToken::ChainProperty(_) => true,
            NodeToken::ChainIndex(_) => true,
            NodeToken::ChainKey(_) => true,
            NodeToken::ChainContext => true,
            NodeToken::ChainAll => true,
            _ => false,
        }
    }

    /// A copy of the token.
    pub fn duplicate(&self) -> (copy: NodeToken)
        ensures
            copy@ == self@,
    {
        match self {
            NodeToken::ChainProperty(name) => NodeToken::ChainProperty(name.clone()),
            NodeToken::ChainIndex(index) => NodeToken::ChainIndex(*index),
            NodeToken::ChainKey(key) => NodeToken::ChainKey(key.clone()),
            NodeToken::ChainContext => NodeToken::ChainContext,
            NodeToken::ChainAll => NodeToken::ChainAll,
            NodeToken::Help => NodeToken::Help,
            NodeToken::Edit => NodeToken::Edit,
            NodeToken::Get => NodeToken::Get,
            NodeToken::SetValue(value) => NodeToken::SetValue(value.clone()),
            NodeToken::SetDefault => NodeToken::SetDefault,
            NodeToken::SetVariant(name) => NodeToken::SetVariant(name.clone()),
            NodeToken::CopyFrom => NodeToken::CopyFrom,
            NodeToken::PasteTo => NodeToken::PasteTo,
            NodeToken::Insert => NodeToken::Insert,
            NodeToken::InsertIndex(index) => NodeToken::InsertIndex(*index),
            NodeToken::InsertKey(key) => NodeToken::InsertKey(key.clone()),
            NodeToken::InsertIndexKey(index, key) => NodeToken::InsertIndexKey(*index, key.clone()),
            NodeToken::Remove => NodeToken::Remove,
            NodeToken::RemoveIndex(index) => NodeToken::RemoveIndex(*index),
            NodeToken::RemoveKey(key) => NodeToken::RemoveKey(key.clone()),
            NodeToken::GetKeys => NodeToken::GetKeys,
            NodeToken::Custom(name, args) => NodeToken::Custom(name.clone(), duplicate_texts(args)),
        }
    }

    /// The token as a node names it when it cannot perform it.
    pub fn describe(&self) -> (text: String)
        ensures
            text@ == self@.describe(),
    {
        match self {
            NodeToken::ChainProperty(name) => wrap_text("ChainProperty(", name.as_str()),
            NodeToken::ChainIndex(index) => wrap_index("ChainIndex(", *index),
            NodeToken::ChainKey(key) => wrap_text("ChainKey(", key.as_str()),
            NodeToken::ChainContext => String::from_str("ChainContext"),
            NodeToken::ChainAll => String::from_str("ChainAll"),
            NodeToken::Help => String::from_str("Help"),
            NodeToken::Edit => String::from_str("Edit"),
            NodeToken::Get => String::from_str("Get"),
            NodeToken::SetValue(value) => wrap_text("Set(", value.as_str()),
            NodeToken::SetDefault => String::from_str("SetDefault"),
            NodeToken::SetVariant(name) => wrap_text("SetVariant(", name.as_str()),
            NodeToken::CopyFrom => String::from_str("CopyFrom"),
            NodeToken::PasteTo => String::from_str("PasteTo"),
            NodeToken::Insert => String::from_str("Insert"),
            NodeToken::InsertIndex(index) => wrap_index("InsertIndex(", *index),
            NodeToken::InsertKey(key) => wrap_text("InsertKey(", key.as_str()),
            NodeToken::InsertIndexKey(index, key) => {
                let mut text = String::from_str("InsertIndexKey(");
                let number = format_integer(*index as i128);
                text.append(number.as_str());
                text.append(", ");
                let inner = quoted(key.as_str());
                text.append(inner.as_str());
                text.append(")");
                text
            },
            NodeToken::Remove => String::from_str("Remove"),
            NodeToken::RemoveIndex(index) => wrap_index("RemoveIndex(", *index),
            NodeToken::RemoveKey(key) => wrap_text("RemoveKey(", key.as_str()),
            NodeToken::GetKeys => String::from_str("GetKeys"),
            NodeToken::Custom(name, _) => name.clone(),
        }
    }
}

} // verus!
