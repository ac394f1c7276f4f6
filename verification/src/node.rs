//! The protocol by which a tree of values performs a command.

use vstd::prelude::*;
use vstd::string::*;
use crate::json::{
    json_as_bool, json_as_text, json_copy, json_from_bool, json_from_text, json_view, json_views,
    JsonModel,
};
use crate::keys::{find_key, lemma_position, position};
use crate::node_runner::{parsed_command, NodeRunner};
use crate::node_token::{NodeToken, Token};
use crate::text::{text_is, texts_view};

verus! {

/// The values that were copied last, for `copy` and `paste`: one text and one number.
pub struct Clipboard {
    text: Option<String>,
    number: Option<i128>,
    fraction: Option<u64>,
    kinds: Vec<String>,
    copies: Vec<serde_json::Value>,
}

/// The mathematical value of a [`Clipboard`].
pub ghost struct ClipboardModel {
    /// The text that was copied last.
    pub text: Option<Seq<char>>,
    /// The number that was copied last; of a number with a fraction, its
    /// whole part.
    pub number: Option<int>,
    /// Where the number that was copied last is one with a fraction: the 64
    /// bits that stand for it. Only nodes that hold such numbers read them.
    pub fraction: Option<u64>,
    /// The kinds of aggregate of which a node was copied.
    pub kinds: Seq<Seq<char>>,
    /// For each of these kinds, the JSON value of the node that was copied last.
    pub copies: Seq<JsonModel>,
}

/// Whether `n` is a number that a clipboard can hold: one of an integer type
/// of at most 64 bits.
pub open spec fn copyable(n: int) -> bool {
    i64::MIN <= n <= u64::MAX
}

impl View for Clipboard {
    type V = ClipboardModel;

    closed spec fn view(&self) -> ClipboardModel {
        ClipboardModel {
            text: match self.text {
                Some(text) => Some(text@),
                None => None,
            },
            number: match self.number {
                Some(n) => Some(n as int),
                None => None,
            },
            fraction: self.fraction,
            kinds: texts_view(self.kinds@),
            copies: json_views(self.copies@),
        }
    }
}

impl ClipboardModel {
    /// The JSON value of the node of the kind `kind` that was copied last.
    pub open spec fn copy_of(self, kind: Seq<char>) -> Option<JsonModel> {
        match position(self.kinds, kind) {
            Some(i) => if i < self.copies.len() {
                Some(self.copies[i])
            } else {
                None
            },
            None => None,
        }
    }

    /// The clipboard after the JSON value `value` of a node of the kind `kind`
    /// was copied onto it.
    pub open spec fn with_copy(self, kind: Seq<char>, value: JsonModel) -> ClipboardModel {
        match position(self.kinds, kind) {
            Some(i) => ClipboardModel { copies: self.copies.update(i, value), ..self },
            None => ClipboardModel {
                kinds: self.kinds.push(kind),
                copies: self.copies.push(value),
                ..self
            },
        }
    }

    /// The clipboard onto which nothing was copied.
    pub open spec fn empty() -> ClipboardModel {
        ClipboardModel {
            text: None,
            number: None,
            fraction: None,
            kinds: Seq::empty(),
            copies: Seq::empty(),
        }
    }
}

impl Clipboard {
    #[verifier::type_invariant]
    spec fn valid(&self) -> bool {
        &&& match self.number {
            Some(n) => copyable(n as int),
            None => true,
        }
        &&& self.kinds@.len() == self.copies@.len()
    }

    /// A clipboard onto which nothing was copied.
    pub fn new() -> (clipboard: Clipboard)
        ensures
            clipboard@ == ClipboardModel::empty(),
    {
        let kinds: Vec<String> = Vec::new();
        let copies: Vec<serde_json::Value> = Vec::new();
        assert(texts_view(kinds@) =~= Seq::<Seq<char>>::empty());
        assert(json_views(copies@) =~= Seq::<JsonModel>::empty());
        Clipboard { text: None, number: None, fraction: None, kinds, copies }
    }

    /// Copies a text onto the clipboard.
    pub fn copy_text(&mut self, text: String)
        ensures
            final(self)@ == (ClipboardModel { text: Some(text@), ..old(self)@ }),
    {
        proof {
            use_type_invariant(&*self);
        }
        self.text = Some(text);
    }

    /// Copies a number onto the clipboard.
    pub fn copy_number(&mut self, number: i128)
        requires
            copyable(number as int),
        ensures
            final(self)@ == (ClipboardModel {
                number: Some(number as int),
                fraction: None,
                ..old(self)@
            }),
    {
        proof {
            use_type_invariant(&*self);
        }
        self.number = Some(number);
        self.fraction = None;
    }

    /// Copies a number with a fraction onto the clipboard: its whole part,
    /// and the bits that stand for the number itself.
    pub fn copy_fraction(&mut self, whole: i128, bits: u64)
        requires
            copyable(whole as int),
        ensures
            final(self)@ == (ClipboardModel {
                number: Some(whole as int),
                fraction: Some(bits),
                ..old(self)@
            }),
    {
        proof {
            use_type_invariant(&*self);
        }
        self.number = Some(whole);
        self.fraction = Some(bits);
    }

    /// Copies the JSON value of a node of the kind `kind` onto the clipboard,
    /// in place of the one that was copied before for this kind.
    pub fn copy_json(&mut self, kind: &str, value: serde_json::Value)
        ensures
            final(self)@ == old(self)@.with_copy(kind@, json_view(value)),
    {
        proof {
            use_type_invariant(&*self);
        }
        let mut taken = Clipboard::new();
        std::mem::swap(self, &mut taken);
        let Clipboard { text, number, fraction, kinds, copies } = taken;
        let mut kinds = kinds;
        let mut copies = copies;
        let ghost old_kinds = texts_view(kinds@);
        let ghost old_copies = json_views(copies@);
        proof {
            lemma_position(old_kinds, kind@);
        }
        match find_key(&kinds, kind) {
            Some(i) => {
                let mut value = value;
                std::mem::swap(&mut copies[i], &mut value);
                assert(json_views(copies@) =~= old_copies.update(i as int, json_view(copies@[i as int])));
            },
            None => {
                let name = kind.to_owned();
                kinds.push(name);
                copies.push(value);
                assert(texts_view(kinds@) =~= old_kinds.push(kind@));
                assert(json_views(copies@) =~= old_copies.push(json_view(value)));
            },
        }
        let mut full = Clipboard { text, number, fraction, kinds, copies };
        std::mem::swap(self, &mut full);
    }

    /// The JSON value of the node of the kind `kind` that was copied last.
    pub fn copied_json(&self, kind: &str) -> (value: Option<serde_json::Value>)
        ensures
            match value {
                Some(v) => self@.copy_of(kind@) == Some(json_view(v)),
                None => self@.copy_of(kind@) is None,
            },
    {
        proof {
            use_type_invariant(self);
            lemma_position(texts_view(self.kinds@), kind@);
        }
        match find_key(&self.kinds, kind) {
            Some(i) => Some(json_copy(&self.copies[i])),
            None => None,
        }
    }

    /// The bits of the number that was copied last, where it has a fraction.
    pub fn copied_fraction(&self) -> (bits: Option<u64>)
        ensures
            bits == self@.fraction,
    {
        self.fraction
    }

    /// The text that was copied last.
    pub fn copied_text(&self) -> (text: Option<String>)
        ensures
            match text {
                Some(t) => self@.text == Some(t@),
                None => self@.text is None,
            },
    {
        match &self.text {
            Some(text) => Some(text.clone()),
            None => None,
        }
    }

    /// The number that was copied last.
    pub fn copied_number(&self) -> (number: Option<i128>)
        ensures
            match number {
                Some(n) => self@.number == Some(n as int) && copyable(n as int),
                None => self@.number is None,
            },
    {
        proof {
            use_type_invariant(self);
        }
        self.number
    }
}

/// What a node makes of a command: the text it answers, the node afterwards
/// and the clipboard afterwards.
pub ghost struct Outcome<M> {
    pub text: Seq<char>,
    pub node: M,
    pub clipboard: ClipboardModel,
}

/// The message of a node of the kind `name` that cannot perform `token`.
pub open spec fn cannot_text(name: Seq<char>, token: Token) -> Seq<char> {
    name + " cannot '"@ + token.describe() + "'"@
}

/// The message of a node of the kind `name` that cannot perform `token`.
pub fn cannot(name: &str, token: &NodeToken) -> (text: String)
    ensures
        text@ == cannot_text(name@, token@),
{
    let mut text = String::from_str(name);
    text.append(" cannot '");
    let described = token.describe();
    text.append(described.as_str());
    text.append("'");
    text
}

/// The message for a JSON value that a node of the kind `name` cannot be set to.
pub open spec fn invalid_text(name: Seq<char>, valid: Seq<char>) -> Seq<char> {
    "Invalid value for "@ + name + " (needs to be: "@ + valid + ")"@
}

/// The message for a JSON value that a node of the kind `name` cannot be set to.
pub fn invalid(name: &str, valid: &str) -> (text: String)
    ensures
        text@ == invalid_text(name@, valid@),
{
    let mut text = String::from_str("Invalid value for ");
    text.append(name);
    text.append(" (needs to be: ");
    text.append(valid);
    text.append(")");
    text
}

/// A value that commands can address: a leaf, a container or an aggregate.
///
/// A node takes one token off the runner. Where the token steps into a child,
/// the node hands the runner on to the child; where it is an action, the node
/// performs it. The answer is a text: the result, or a message that says why
/// the command could not be performed, in which case the node is unchanged.
///
/// An implementation gives the type of its mathematical value and the four
/// functions that run. The nodes of this library also say, as mathematical
/// functions, what they make of a command and of a JSON value, and their
/// functions are proved against that. For a node that does not say so, these
/// functions are some functions of what they are given, of which nothing
/// more is known: what is proved of a container of such nodes holds as far
/// as the node is what it promises to be, a function of itself, the command
/// and the clipboard.
pub trait Node: Sized {
    /// The mathematical value of a node.
    type Model;

    /// The mathematical value of this node.
    open spec fn model(&self) -> Self::Model {
        arbitrary::<spec_fn(Self) -> Self::Model>()(*self)
    }

    /// What a node makes of the command `tokens` (the next token last).
    open spec fn outcome(
        node: Self::Model,
        tokens: Seq<Token>,
        clipboard: ClipboardModel,
    ) -> Outcome<Self::Model> {
        arbitrary::<spec_fn(Self::Model, Seq<Token>, ClipboardModel) -> Outcome<Self::Model>>()(
            node,
            tokens,
            clipboard,
        )
    }

    /// The JSON value that stands for a node.
    open spec fn json(node: Self::Model) -> JsonModel {
        arbitrary::<spec_fn(Self::Model) -> JsonModel>()(node)
    }

    /// The node that a JSON value stands for, or the message that says why it
    /// stands for none.
    ///
    /// A node is read from the JSON value that `serde_json` has parsed, not
    /// from the text: a container has its elements only as nodes, and cannot
    /// hand the text to a decoder that knows their types. So where a text is
    /// no JSON, the message is that of `serde_json`; where it is JSON of
    /// another shape, the message is that of the node that the value does not
    /// stand for, and names the values that it can be set to.
    open spec fn decoded(value: JsonModel) -> Result<Self::Model, Seq<char>> {
        arbitrary::<spec_fn(JsonModel) -> Result<Self::Model, Seq<char>>>()(value)
    }

    /// The node that a container inserts.
    open spec fn default_model() -> Self::Model {
        arbitrary()
    }

    /// Performs the command that `runner` holds, with `clipboard` for what
    /// `copy` and `paste` hand on.
    fn node_step_with(&mut self, runner: NodeRunner, clipboard: &mut Clipboard) -> (text: String)
        requires
            runner.well_formed(),
        ensures
            text@ == Self::outcome(old(self).model(), runner@, old(clipboard)@).text,
            final(self).model() == Self::outcome(old(self).model(), runner@, old(clipboard)@).node,
            final(clipboard)@ == Self::outcome(
                old(self).model(),
                runner@,
                old(clipboard)@,
            ).clipboard,
    ;

    /// Performs the command that `runner` holds, with a clipboard of its own
    /// onto which nothing was copied.
    fn node_step(&mut self, runner: NodeRunner) -> (text: String)
        requires
            runner.well_formed(),
        ensures
            text@ == Self::outcome(old(self).model(), runner@, ClipboardModel::empty()).text,
            final(self).model() == Self::outcome(
                old(self).model(),
                runner@,
                ClipboardModel::empty(),
            ).node,
    {
        let mut clipboard = Clipboard::new();
        self.node_step_with(runner, &mut clipboard)
    }

    /// The JSON value that stands for the node.
    fn to_json(&self) -> (value: serde_json::Value)
        ensures
            json_view(value) == Self::json(self.model()),
    ;

    /// The node that `value` stands for.
    fn from_json(value: &serde_json::Value) -> (result: Result<Self, String>)
        ensures
            match result {
                Ok(node) => Self::decoded(json_view(*value)) == Ok::<Self::Model, Seq<char>>(
                    node.model(),
                ),
                Err(message) => Self::decoded(json_view(*value)) == Err::<
                    Self::Model,
                    Seq<char>,
                >(message@),
            },
    ;

    /// The node that a container inserts.
    fn default_node() -> (node: Self)
        ensures
            node.model() == Self::default_model(),
    ;
}

/// What `node` makes of the command that the text `command` stands for: the
/// message of the parser where it stands for none, with the node unchanged.
pub open spec fn command_outcome<N: Node>(
    node: N::Model,
    command: Seq<char>,
    clipboard: ClipboardModel,
) -> Outcome<N::Model> {
    match parsed_command(command) {
        Ok(tokens) => N::outcome(node, tokens.reverse(), clipboard),
        Err(message) => Outcome { text: message, node, clipboard },
    }
}

/// Parses `command` and performs it on `node`.
pub fn run_command<N: Node>(node: &mut N, command: &str, clipboard: &mut Clipboard) -> (text:
    String)
    ensures
        text@ == command_outcome::<N>(old(node).model(), command@, old(clipboard)@).text,
        final(node).model() == command_outcome::<N>(
            old(node).model(),
            command@,
            old(clipboard)@,
        ).node,
        final(clipboard)@ == command_outcome::<N>(
            old(node).model(),
            command@,
            old(clipboard)@,
        ).clipboard,
{
    match NodeRunner::new(command) {
        Ok(runner) => {
            assert(runner@.reverse().reverse() =~= runner@);
            node.node_step_with(runner, clipboard)
        },
        Err(message) => message,
    }
}

/// The help of a boolean.
pub open spec fn bool_help() -> Seq<char> {
    "\nBool Help\n\nValid values: true or false\n\nCommands:\n*   help - display this help\n*   get  - display value\n*   set  - set to value"@
}

/// What a boolean makes of a command. It can be read, set and asked for help;
/// it is set to true by the text `true` and to false by any other text.
pub open spec fn bool_outcome(node: bool, tokens: Seq<Token>, clipboard: ClipboardModel) -> Outcome<
    bool,
> {
    match tokens.last() {
        Token::Get => Outcome { text: if node { "true"@ } else { "false"@ }, node, clipboard },
        Token::SetValue(value) => Outcome {
            text: Seq::empty(),
            node: value == "true"@,
            clipboard,
        },
        Token::Help => Outcome { text: bool_help(), node, clipboard },
        token => Outcome { text: cannot_text("bool"@, token), node, clipboard },
    }
}

impl Node for bool {
    type Model = bool;

    open spec fn model(&self) -> bool {
        *self
    }

    open spec fn outcome(node: bool, tokens: Seq<Token>, clipboard: ClipboardModel) -> Outcome<
        bool,
    > {
        bool_outcome(node, tokens, clipboard)
    }

    open spec fn json(node: bool) -> JsonModel {
        JsonModel::Bool(node)
    }

    open spec fn decoded(value: JsonModel) -> Result<bool, Seq<char>> {
        match value {
            JsonModel::Bool(b) => Ok(b),
            _ => Err(invalid_text("bool"@, "true or false"@)),
        }
    }

    open spec fn default_model() -> bool {
        false
    }

    fn node_step_with(&mut self, runner: NodeRunner, clipboard: &mut Clipboard) -> (text: String) {
        let mut runner = runner;
        match runner.step() {
            NodeToken::Get => {
                if *self {
                    String::from_str("true")
                } else {
                    String::from_str("false")
                }
            },
            NodeToken::SetValue(value) => {
                *self = text_is(&value, "true");
                String::new()
            },
            NodeToken::Help => String::from_str(
                "\nBool Help\n\nValid values: true or false\n\nCommands:\n*   help - display this help\n*   get  - display value\n*   set  - set to value",
            ),
            action => cannot("bool", &action),
        }
    }

    fn to_json(&self) -> (value: serde_json::Value) {
        json_from_bool(*self)
    }

    fn from_json(value: &serde_json::Value) -> (result: Result<bool, String>) {
        match json_as_bool(value) {
            Some(b) => Ok(b),
            None => Err(invalid("bool", "true or false")),
        }
    }

    fn default_node() -> (node: bool) {
        false
    }
}

/// The help of a string.
pub open spec fn string_help() -> Seq<char> {
    "\nString Help\n\nValid values: Anything\n\nCommands:\n*   help  - display this help\n*   copy  - copy this value\n*   paste - paste the copied value here\n*   get   - display value\n*   set   - set to value"@
}

/// What a string makes of a command. It can be read, set, copied, pasted and
/// asked for help; pasting needs a text on the clipboard.
pub open spec fn string_outcome(
    node: Seq<char>,
    tokens: Seq<Token>,
    clipboard: ClipboardModel,
) -> Outcome<Seq<char>> {
    match tokens.last() {
        Token::Get => Outcome { text: node, node, clipboard },
        Token::SetValue(value) => Outcome { text: Seq::empty(), node: value, clipboard },
        Token::CopyFrom => Outcome {
            text: Seq::empty(),
            node,
            clipboard: ClipboardModel { text: Some(node), ..clipboard },
        },
        Token::PasteTo => match clipboard.text {
            Some(value) => Outcome { text: Seq::empty(), node: value, clipboard },
            None => Outcome { text: "String has not been copied"@, node, clipboard },
        },
        Token::Help => Outcome { text: string_help(), node, clipboard },
        token => Outcome { text: cannot_text("String"@, token), node, clipboard },
    }
}

impl Node for String {
    type Model = Seq<char>;

    open spec fn model(&self) -> Seq<char> {
        self@
    }

    open spec fn outcome(node: Seq<char>, tokens: Seq<Token>, clipboard: ClipboardModel) -> Outcome<
        Seq<char>,
    > {
        string_outcome(node, tokens, clipboard)
    }

    open spec fn json(node: Seq<char>) -> JsonModel {
        JsonModel::Text(node)
    }

    open spec fn decoded(value: JsonModel) -> Result<Seq<char>, Seq<char>> {
        match value {
            JsonModel::Text(text) => Ok(text),
            _ => Err(invalid_text("String"@, "Anything"@)),
        }
    }

    open spec fn default_model() -> Seq<char> {
        Seq::empty()
    }

    fn node_step_with(&mut self, runner: NodeRunner, clipboard: &mut Clipboard) -> (text: String) {
        let mut runner = runner;
        match runner.step() {
            NodeToken::Get => self.clone(),
            NodeToken::SetValue(value) => {
                *self = value;
                String::new()
            },
            NodeToken::CopyFrom => {
                clipboard.copy_text(self.clone());
                String::new()
            },
            NodeToken::PasteTo => {
                match clipboard.copied_text() {
                    Some(value) => {
                        *self = value;
                        String::new()
                    },
                    None => String::from_str("String has not been copied"),
                }
            },
            NodeToken::Help => String::from_str(
                "\nString Help\n\nValid values: Anything\n\nCommands:\n*   help  - display this help\n*   copy  - copy this value\n*   paste - paste the copied value here\n*   get   - display value\n*   set   - set to value",
            ),
            action => cannot("String", &action),
        }
    }

    fn to_json(&self) -> (value: serde_json::Value) {
        json_from_text(self.as_str())
    }

    fn from_json(value: &serde_json::Value) -> (result: Result<String, String>) {
        match json_as_text(value) {
            Some(text) => Ok(text),
            None => Err(invalid("String", "Anything")),
        }
    }

    fn default_node() -> (node: String) {
        String::new()
    }
}

} // verus!
