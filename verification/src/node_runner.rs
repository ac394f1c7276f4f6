//! Command paths: the grammar that turns a string into tokens, and the cursor
//! that hands the tokens out.

use vstd::prelude::*;
use vstd::string::*;
use vstd::slice::slice_subrange;
use crate::node_token::{NodeToken, Token};
use crate::text::{
    chars_of, is_space, is_white_space, join_from, joined, parse_index, parsed_index, text_is, texts_view,
};

verus! {

/// The tokens of one command, last first: the next token to perform is the last one.
#[derive(Clone)]
pub struct NodeRunner {
    pub tokens: Vec<NodeToken>,
}

/// The mathematical value of each token of `tokens`.
pub open spec fn tokens_view(tokens: Seq<NodeToken>) -> Seq<Token> {
    tokens.map_values(|t: NodeToken| t@)
}

impl View for NodeRunner {
    type V = Seq<Token>;

    open spec fn view(&self) -> Seq<Token> {
        tokens_view(self.tokens@)
    }
}

/// A command as a runner holds it: steps into children, and below them, at
/// index 0, the one action that ends the path.
pub open spec fn well_formed(tokens: Seq<Token>) -> bool {
    &&& tokens.len() > 0
    &&& !tokens[0].is_chain()
    &&& forall|i: int| 1 <= i < tokens.len() ==> (#[trigger] tokens[i]).is_chain()
}

/// What ends a segment of a path.
#[derive(Clone, Copy)]
pub enum Mark {
    /// `.`, `[` or `:`: the end of a property name.
    Delimiter,
    /// `]`: the end of an index.
    Bracket,
    /// `"` directly before `]`: the end of a key.
    KeyEnd,
}

/// Whether `mark` stands at position `k` of `chars`.
pub open spec fn marked(chars: Seq<char>, mark: Mark, k: int) -> bool {
    0 <= k < chars.len() && match mark {
        Mark::Delimiter => chars[k] == '.' || chars[k] == '[' || chars[k] == ':',
        Mark::Bracket => chars[k] == ']',
        Mark::KeyEnd => chars[k] == '"' && k + 1 < chars.len() && chars[k + 1] == ']',
    }
}

/// The first position at or after `from` where `mark` stands, or the length of
/// `chars` where it stands nowhere.
pub open spec fn first_mark(chars: Seq<char>, mark: Mark, from: int) -> int
    decreases chars.len() - from,
{
    if from >= chars.len() {
        chars.len() as int
    } else if marked(chars, mark, from) {
        from
    } else {
        first_mark(chars, mark, from + 1)
    }
}

/// The state of the scan that splits an action clause into words.
pub ghost struct Scan {
    /// The words that are complete.
    pub words: Seq<Seq<char>>,
    /// The word that is being read.
    pub current: Seq<char>,
    /// Whether the scan stands between double quotes.
    pub quoted: bool,
    /// Whether the character before was a backslash that escapes this one.
    pub escaped: bool,
}

/// The scan after one more character.
pub open spec fn scan_step(s: Scan, c: char) -> Scan {
    if s.escaped {
        let current = if c == '"' {
            s.current.push('"')
        } else if c == 't' {
            s.current.push('\t')
        } else if c == 'n' {
            s.current.push('\n')
        } else if c == ' ' {
            s.current.push(' ')
        } else if c == '\\' {
            s.current.push('\\')
        } else {
            s.current
        };
        Scan { current, escaped: false, ..s }
    } else if c == '\\' {
        Scan { escaped: true, ..s }
    } else if !s.quoted && is_white_space(c) {
        if s.current.len() > 0 {
            Scan { words: s.words.push(s.current), current: Seq::empty(), ..s }
        } else {
            s
        }
    } else if c == '"' {
        if s.quoted {
            Scan { words: s.words.push(s.current), current: Seq::empty(), quoted: false, ..s }
        } else {
            Scan { quoted: true, ..s }
        }
    } else {
        Scan { current: s.current.push(c), ..s }
    }
}

/// The scan after all of `chars`.
pub open spec fn scan(chars: Seq<char>) -> Scan
    decreases chars.len(),
{
    if chars.len() == 0 {
        Scan { words: Seq::empty(), current: Seq::empty(), quoted: false, escaped: false }
    } else {
        scan_step(scan(chars.drop_last()), chars.last())
    }
}

/// The words of an action clause: split at white space, but for what stands
/// between double quotes, which is one word; a backslash escapes `"`, `t`, `n`,
/// a space and itself. An open quote at the end is an error.
pub open spec fn action_words(chars: Seq<char>) -> Result<Seq<Seq<char>>, Seq<char>> {
    let s = scan(chars);
    if s.quoted {
        Err("Unterminated string"@)
    } else if s.current.len() > 0 {
        Ok(s.words.push(s.current))
    } else {
        Ok(s.words)
    }
}

/// The action that the words of an action clause stand for.
///
/// The first word names the action. `help`, `reset`, `edit`, `copy`,
/// `paste`, `getkeys` and `get` take no argument, and what follows them is
/// not read. `set` takes what follows as its value, the words joined by
/// single spaces; it needs at least one word, which may be empty (`set ""`).
/// `insert` and `remove` take an index or a key: a word that is a decimal
/// number is an index, any other a key, and where `insert` has two arguments
/// the first is the index and the second the key. `variant` takes the name
/// of a variant, or none. Any other word is a custom action, with the words
/// that follow as its arguments: whether a node performs it is for the node
/// to say.
pub open spec fn action_token(words: Seq<Seq<char>>) -> Result<Token, Seq<char>> {
    if words.len() == 0 {
        Err("Missing action"@)
    } else if words[0] == "help"@ {
        Ok(Token::Help)
    } else if words[0] == "reset"@ {
        Ok(Token::SetDefault)
    } else if words[0] == "edit"@ {
        Ok(Token::Edit)
    } else if words[0] == "copy"@ {
        Ok(Token::CopyFrom)
    } else if words[0] == "paste"@ {
        Ok(Token::PasteTo)
    } else if words[0] == "getkeys"@ {
        Ok(Token::GetKeys)
    } else if words[0] == "get"@ {
        Ok(Token::Get)
    } else if words[0] == "set"@ {
        if words.len() == 1 {
            Err("Missing value"@)
        } else {
            Ok(Token::SetValue(joined(words, 1, " "@)))
        }
    } else if words[0] == "insert"@ {
        if words.len() == 1 {
            Ok(Token::Insert)
        } else if words.len() == 2 {
            match parsed_index(words[1]) {
                Some(index) => Ok(Token::InsertIndex(index)),
                None => Ok(Token::InsertKey(words[1])),
            }
        } else {
            match parsed_index(words[1]) {
                Some(index) => Ok(Token::InsertIndexKey(index, words[2])),
                None => Err("When two arguments are used, first must be a valid index."@),
            }
        }
    } else if words[0] == "remove"@ {
        if words.len() == 1 {
            Ok(Token::Remove)
        } else {
            match parsed_index(words[1]) {
                Some(index) => Ok(Token::RemoveIndex(index)),
                None => Ok(Token::RemoveKey(words[1])),
            }
        }
    } else if words[0] == "variant"@ {
        if words.len() == 1 {
            Ok(Token::SetVariant(Seq::empty()))
        } else {
            Ok(Token::SetVariant(words[1]))
        }
    } else {
        Ok(Token::Custom(words[0], words.skip(1)))
    }
}

/// `rest` with `token` before it.
pub open spec fn after(token: Token, rest: Result<Seq<Token>, Seq<char>>) -> Result<
    Seq<Token>,
    Seq<char>,
> {
    match rest {
        Ok(tokens) => Ok(seq![token] + tokens),
        Err(message) => Err(message),
    }
}

/// The tokens of the path that starts at position `i` of `chars`, first token
/// first, or the message that says what is wrong with it.
///
/// A path is a run of segments and then an action. `.name` is a property,
/// whose name ends before the next `.`, `[` or `:`; `[?]` is the context and
/// `[*]` are all elements; `["key"]` is a key, which ends before the first
/// `"]`; `[7]` is an index. The action starts at `:` and takes the rest of
/// the command. A path without an action is an error.
pub open spec fn parsed_path(chars: Seq<char>, i: int) -> Result<Seq<Token>, Seq<char>>
    decreases chars.len() - i,
    via parsed_path_decreases
{
    if i < 0 || i >= chars.len() {
        Err("Missing action"@)
    } else if chars[i] == '.' {
        let j = first_mark(chars, Mark::Delimiter, i + 1);
        if j >= chars.len() {
            Err("Missing action"@)
        } else if j == i + 1 {
            Err("Empty property"@)
        } else {
            after(Token::ChainProperty(chars.subrange(i + 1, j)), parsed_path(chars, j))
        }
    } else if i + 2 < chars.len() && chars[i] == '[' && chars[i + 1] == '?' && chars[i + 2]
        == ']' {
        if i + 3 >= chars.len() {
            Err("Missing action"@)
        } else {
            after(Token::ChainContext, parsed_path(chars, i + 3))
        }
    } else if i + 2 < chars.len() && chars[i] == '[' && chars[i + 1] == '*' && chars[i + 2]
        == ']' {
        if i + 3 >= chars.len() {
            Err("Missing action"@)
        } else {
            after(Token::ChainAll, parsed_path(chars, i + 3))
        }
    } else if i + 1 < chars.len() && chars[i] == '[' && chars[i + 1] == '"' {
        let k = first_mark(chars, Mark::KeyEnd, i + 2);
        if i + 5 >= chars.len() {
            Err("Missing action"@)
        } else if k >= chars.len() {
            Err("Missing \"]"@)
        } else if k + 2 >= chars.len() {
            Err("Missing action"@)
        } else {
            after(Token::ChainKey(chars.subrange(i + 2, k)), parsed_path(chars, k + 2))
        }
    } else if chars[i] == '[' {
        let j = first_mark(chars, Mark::Bracket, i + 1);
        if i + 1 >= chars.len() {
            Err("Missing action"@)
        } else if j >= chars.len() {
            Err("Missing ]"@)
        } else if j + 1 >= chars.len() {
            Err("Missing action"@)
        } else if j == i + 1 {
            Err("Missing index"@)
        } else {
            match parsed_index(chars.subrange(i + 1, j)) {
                Some(index) => after(Token::ChainIndex(index), parsed_path(chars, j + 1)),
                None => Err("Invalid index: "@ + chars.subrange(i + 1, j)),
            }
        }
    } else if chars[i] == ':' {
        match action_words(chars.skip(i + 1)) {
            Ok(words) => match action_token(words) {
                Ok(token) => Ok(seq![token]),
                Err(message) => Err(message),
            },
            Err(message) => Err(message),
        }
    } else {
        Err("Missing ."@)
    }
}

#[via_fn]
proof fn parsed_path_decreases(chars: Seq<char>, i: int) {
    lemma_first_mark_bounds(chars, Mark::Delimiter, i + 1);
    lemma_first_mark_bounds(chars, Mark::KeyEnd, i + 2);
    lemma_first_mark_bounds(chars, Mark::Bracket, i + 1);
}

/// The characters that are parsed for `command`: a command that starts with
/// none of `.`, `[` and `:` starts with a property name, and gets its dot.
pub open spec fn with_leading_dot(command: Seq<char>) -> Seq<char> {
    if command.len() > 0 && (command[0] == '.' || command[0] == '[' || command[0] == ':') {
        command
    } else {
        seq!['.'] + command
    }
}

/// The tokens that `command` stands for, first token first, or the message
/// that says what is wrong with it.
pub open spec fn parsed_command(command: Seq<char>) -> Result<Seq<Token>, Seq<char>> {
    if command.len() == 0 {
        Err("Empty command"@)
    } else {
        parsed_path(with_leading_dot(command), 0)
    }
}

/// Where no mark stands from `from` up to `j`, and one stands at `j` or `j` is
/// the end, `j` is the first mark from `from`.
pub proof fn lemma_first_mark(chars: Seq<char>, mark: Mark, from: int, j: int)
    requires
        0 <= from <= j <= chars.len(),
        forall|k: int| from <= k < j ==> !marked(chars, mark, k),
        j < chars.len() ==> marked(chars, mark, j),
    ensures
        first_mark(chars, mark, from) == j,
    decreases j - from,
{
    if from < j {
        lemma_first_mark(chars, mark, from + 1, j);
    }
}

/// The tokens of a command that parses are a well-formed command: steps into
/// children, then exactly one action.
pub proof fn lemma_parsed_path_well_formed(chars: Seq<char>, i: int)
    requires
        parsed_path(chars, i) is Ok,
    ensures
        well_formed(parsed_path(chars, i)->Ok_0.reverse()),
    decreases chars.len() - i,
{
    let tokens = parsed_path(chars, i)->Ok_0;
    if chars[i] == ':' {
        let words = action_words(chars.skip(i + 1))->Ok_0;
        assert(!action_token(words)->Ok_0.is_chain());
    } else {
        let next: int = if chars[i] == '.' {
            first_mark(chars, Mark::Delimiter, i + 1)
        } else if chars[i + 1] == '"' {
            first_mark(chars, Mark::KeyEnd, i + 2) + 2
        } else if i + 2 < chars.len() && (chars[i + 1] == '?' || chars[i + 1] == '*') && chars[i
            + 2] == ']' {
            i + 3
        } else {
            first_mark(chars, Mark::Bracket, i + 1) + 1
        };
        lemma_first_mark_bounds(chars, Mark::Delimiter, i + 1);
        lemma_first_mark_bounds(chars, Mark::KeyEnd, i + 2);
        lemma_first_mark_bounds(chars, Mark::Bracket, i + 1);
        lemma_parsed_path_well_formed(chars, next);
        let rest = parsed_path(chars, next)->Ok_0;
        assert(tokens == seq![tokens[0]] + rest);
        assert(tokens[0].is_chain());
        let r = tokens.reverse();
        assert(r[0] == rest.reverse()[0]);
        assert forall|k: int| 1 <= k < r.len() implies (#[trigger] r[k]).is_chain() by {
            if k < rest.len() {
                assert(r[k] == rest.reverse()[k]);
            }
        }
    }
}

/// The first mark from `from` stands at or after `from`, and not after the end.
pub proof fn lemma_first_mark_bounds(chars: Seq<char>, mark: Mark, from: int)
    ensures
        from <= chars.len() ==> from <= first_mark(chars, mark, from) <= chars.len(),
        from > chars.len() ==> first_mark(chars, mark, from) == chars.len(),
    decreases chars.len() - from,
{
    if from < chars.len() && !marked(chars, mark, from) {
        lemma_first_mark_bounds(chars, mark, from + 1);
    }
}

/// `rest` with the tokens `done` before it.
pub open spec fn prefixed(done: Seq<Token>, rest: Result<Seq<Token>, Seq<char>>) -> Result<
    Seq<Token>,
    Seq<char>,
> {
    match rest {
        Ok(tokens) => Ok(done + tokens),
        Err(message) => Err(message),
    }
}

/// Finds the first `mark` at or after `from`.
fn scan_to(chars: &Vec<char>, mark: Mark, from: usize) -> (j: usize)
    requires
        from <= chars.len(),
    ensures
        j == first_mark(chars@, mark, from as int),
        from <= j <= chars.len(),
{
    let n = chars.len();
    let mut j: usize = from;
    let mut found = false;
    while j < n && !found
        invariant
            n == chars.len(),
            from <= j <= n,
            forall|k: int| from <= k < j ==> !marked(chars@, mark, k),
            found ==> j < n && marked(chars@, mark, j as int),
        decreases n - j + if found { 0int } else { 1int },
    {
        let c = chars[j];
        let hit = match mark {
            Mark::Delimiter => c == '.' || c == '[' || c == ':',
            Mark::Bracket => c == ']',
            Mark::KeyEnd => c == '"' && n - j > 1 && chars[j + 1] == ']',
        };
        if hit {
            found = true;
        } else {
            j += 1;
        }
    }
    proof {
        lemma_first_mark(chars@, mark, from as int, j as int);
    }
    j
}

/// The text made of the characters from `from` up to `to`.
fn text_between(chars: &Vec<char>, from: usize, to: usize) -> (text: String)
    requires
        from <= to <= chars.len(),
    ensures
        text@ == chars@.subrange(from as int, to as int),
{
    let mut text = String::new();
    let mut k: usize = from;
    while k < to
        invariant
            from <= k <= to <= chars.len(),
            text@ == chars@.subrange(from as int, k as int),
        decreases to - k,
    {
        text.push(chars[k]);
        assert(chars@.subrange(from as int, k + 1) =~= chars@.subrange(from as int, k as int).push(
            chars@[k as int],
        ));
        k += 1;
    }
    text
}

/// The tokens of `tokens` in the opposite order.
fn reversed(tokens: Vec<NodeToken>) -> (result: Vec<NodeToken>)
    ensures
        tokens_view(result@) == tokens_view(tokens@).reverse(),
{
    let mut tokens = tokens;
    let mut result: Vec<NodeToken> = Vec::new();
    let ghost all = tokens_view(tokens@);
    while tokens.len() > 0
        invariant
            tokens_view(tokens@) == all.take(tokens.len() as int),
            result.len() + tokens.len() == all.len(),
            forall|k: int|
                0 <= k < result.len() ==> (#[trigger] result@[k])@ == all[all.len() - 1 - k],
        decreases tokens.len(),
    {
        let ghost before = tokens@;
        match tokens.pop() {
            Some(token) => {
                assert(token@ == tokens_view(before)[before.len() - 1]);
                result.push(token);
                assert(tokens_view(tokens@) =~= all.take(tokens.len() as int));
            },
            None => {},
        }
    }
    assert(tokens_view(result@) =~= all.reverse());
    result
}

impl NodeRunner {
    /// Whether the runner holds a well-formed command.
    pub open spec fn well_formed(&self) -> bool {
        well_formed(self@)
    }

    /// Parses `command`. On success the runner holds the tokens of the command,
    /// the first of them last; on failure the message says what is wrong.
    pub fn new(command: &str) -> (result: Result<NodeRunner, String>)
        ensures
            match result {
                Ok(runner) => parsed_command(command@) == Ok::<Seq<Token>, Seq<char>>(
                    runner@.reverse(),
                ) && runner.well_formed(),
                Err(message) => parsed_command(command@) == Err::<Seq<Token>, Seq<char>>(
                    message@,
                ),
            },
    {
        let source = chars_of(command);
        if source.len() == 0 {
            return Err(String::from_str("Empty command"));
        }
        let mut chars: Vec<char> = Vec::new();
        if !(source[0] == '.' || source[0] == '[' || source[0] == ':') {
            chars.push('.');
        }
        let ghost head = chars@;
        let mut k: usize = 0;
        while k < source.len()
            invariant
                k <= source.len(),
                chars@ == head + source@.take(k as int),
            decreases source.len() - k,
        {
            chars.push(source[k]);
            assert(source@.take(k + 1) =~= source@.take(k as int).push(source@[k as int]));
            assert(chars@ =~= head + source@.take(k + 1));
            k += 1;
        }
        assert(source@.take(k as int) =~= source@);
        assert(chars@ =~= with_leading_dot(command@));
        let n = chars.len();
        let mut tokens: Vec<NodeToken> = Vec::new();
        let mut i: usize = 0;
        assert(tokens_view(tokens@) + parsed_path(chars@, 0)->Ok_0 =~= parsed_path(
            chars@,
            0,
        )->Ok_0);
        loop
            invariant
                i < n,
                n == chars.len(),
                chars@ == with_leading_dot(command@),
                command@.len() > 0,
                parsed_path(chars@, 0) == prefixed(
                    tokens_view(tokens@),
                    parsed_path(chars@, i as int),
                ),
            decreases n - i,
        {
            let c = chars[i];
            let ghost done = tokens_view(tokens@);
            let ghost old_tokens = tokens@;
            if c == '.' {
                let j = scan_to(&chars, Mark::Delimiter, i + 1);
                if j >= n {
                    return Err(String::from_str("Missing action"));
                }
                if j == i + 1 {
                    return Err(String::from_str("Empty property"));
                }
                let name = text_between(&chars, i + 1, j);
                let token = NodeToken::ChainProperty(name);
                proof {
                    lemma_prefixed_push(done, token@, parsed_path(chars@, j as int));
                }
                tokens.push(token);
                assert(tokens_view(tokens@) =~= done.push(token@));
                i = j;
            } else if n - i > 2 && c == '[' && chars[i + 1] == '?' && chars[i + 2] == ']' {
                if n - i <= 3 {
                    return Err(String::from_str("Missing action"));
                }
                let token = NodeToken::ChainContext;
                proof {
                    lemma_prefixed_push(done, token@, parsed_path(chars@, i + 3));
                }
                tokens.push(token);
                assert(tokens_view(tokens@) =~= done.push(token@));
                i = i + 3;
            } else if n - i > 2 && c == '[' && chars[i + 1] == '*' && chars[i + 2] == ']' {
                if n - i <= 3 {
                    return Err(String::from_str("Missing action"));
                }
                let token = NodeToken::ChainAll;
                proof {
                    lemma_prefixed_push(done, token@, parsed_path(chars@, i + 3));
                }
                tokens.push(token);
                assert(tokens_view(tokens@) =~= done.push(token@));
                i = i + 3;
            } else if n - i > 1 && c == '[' && chars[i + 1] == '"' {
                if n - i <= 5 {
                    return Err(String::from_str("Missing action"));
                }
                let end = scan_to(&chars, Mark::KeyEnd, i + 2);
                if end >= n {
                    return Err(String::from_str("Missing \"]"));
                }
                if n - end <= 2 {
                    return Err(String::from_str("Missing action"));
                }
                let key = text_between(&chars, i + 2, end);
                let token = NodeToken::ChainKey(key);
                proof {
                    lemma_prefixed_push(done, token@, parsed_path(chars@, end + 2));
                }
                tokens.push(token);
                assert(tokens_view(tokens@) =~= done.push(token@));
                i = end + 2;
            } else if c == '[' {
                if n - i <= 1 {
                    return Err(String::from_str("Missing action"));
                }
                let j = scan_to(&chars, Mark::Bracket, i + 1);
                if j >= n {
                    return Err(String::from_str("Missing ]"));
                }
                if n - j <= 1 {
                    return Err(String::from_str("Missing action"));
                }
                if j == i + 1 {
                    return Err(String::from_str("Missing index"));
                }
                let index_string = text_between(&chars, i + 1, j);
                match parse_index(index_string.as_str()) {
                    Some(index) => {
                        let token = NodeToken::ChainIndex(index);
                        proof {
                            lemma_prefixed_push(done, token@, parsed_path(chars@, j + 1));
                        }
                        tokens.push(token);
                        assert(tokens_view(tokens@) =~= done.push(token@));
                    },
                    None => {
                        let mut message = String::from_str("Invalid index: ");
                        message.append(index_string.as_str());
                        return Err(message);
                    },
                }
                i = j + 1;
            } else if c == ':' {
                let rest = slice_subrange(chars.as_slice(), i + 1, n);
                assert(rest@ =~= chars@.skip(i + 1));
                let words = match NodeRunner::tokenize_action(rest) {
                    Ok(words) => words,
                    Err(message) => {
                        return Err(message);
                    },
                };
                let token = match NodeRunner::get_action(&words) {
                    Ok(token) => token,
                    Err(message) => {
                        return Err(message);
                    },
                };
                tokens.push(token);
                assert(tokens_view(tokens@) =~= done + seq![token@]);
                let ghost forward = tokens_view(tokens@);
                let stored = reversed(tokens);
                let runner = NodeRunner { tokens: stored };
                proof {
                    assert(runner@.reverse() =~= forward);
                    lemma_parsed_path_well_formed(chars@, 0);
                }
                return Ok(runner);
            } else {
                return Err(String::from_str("Missing ."));
            }
        }
    }

    /// Splits the action clause of a command into its words.
    pub fn tokenize_action(string: &[char]) -> (result: Result<Vec<String>, String>)
        ensures
            match result {
                Ok(words) => action_words(string@) == Ok::<Seq<Seq<char>>, Seq<char>>(
                    texts_view(words@),
                ),
                Err(message) => action_words(string@) == Err::<Seq<Seq<char>>, Seq<char>>(
                    message@,
                ),
            },
    {
        let mut tokens: Vec<String> = Vec::new();
        let mut current = String::new();
        let mut quoted = false;
        let mut escaped = false;
        let mut k: usize = 0;
        assert(string@.take(0) =~= Seq::<char>::empty());
        assert(texts_view(tokens@) =~= Seq::<Seq<char>>::empty());
        while k < string.len()
            invariant
                k <= string.len(),
                scan(string@.take(k as int)) == (Scan {
                    words: texts_view(tokens@),
                    current: current@,
                    quoted,
                    escaped,
                }),
            decreases string.len() - k,
        {
            let c = string[k];
            proof {
                assert(string@.take(k + 1).drop_last() =~= string@.take(k as int));
                assert(string@.take(k + 1).last() == c);
            }
            let ghost before = tokens@;
            if escaped {
                if c == '"' {
                    current.push('"');
                } else if c == 't' {
                    current.push('\t');
                } else if c == 'n' {
                    current.push('\n');
                } else if c == ' ' {
                    current.push(' ');
                } else if c == '\\' {
                    current.push('\\');
                }
                escaped = false;
            } else if c == '\\' {
                escaped = true;
            } else if !quoted && is_space(c) {
                if !current.as_str().is_empty() {
                    tokens.push(current);
                    current = String::new();
                    assert(texts_view(tokens@) =~= texts_view(before).push(tokens@.last()@));
                }
            } else if c == '"' {
                if quoted {
                    tokens.push(current);
                    current = String::new();
                    assert(texts_view(tokens@) =~= texts_view(before).push(tokens@.last()@));
                }
                quoted = !quoted;
            } else {
                current.push(c);
            }
            k += 1;
        }
        assert(string@.take(k as int) =~= string@);
        let ghost before = tokens@;
        if !current.as_str().is_empty() {
            tokens.push(current);
            assert(texts_view(tokens@) =~= texts_view(before).push(tokens@.last()@));
        }
        if quoted {
            Err(String::from_str("Unterminated string"))
        } else {
            Ok(tokens)
        }
    }

    /// Tells which action the words of an action clause stand for.
    pub fn get_action(action: &Vec<String>) -> (result: Result<NodeToken, String>)
        ensures
            match result {
                Ok(token) => action_token(texts_view(action@)) == Ok::<Token, Seq<char>>(token@),
                Err(message) => action_token(texts_view(action@)) == Err::<Token, Seq<char>>(
                    message@,
                ),
            },
    {
        let n = action.len();
        if n == 0 {
            return Err(String::from_str("Missing action"));
        }
        let name = &action[0];
        assert(texts_view(action@)[0] == name@);
        if text_is(name, "help") {
            Ok(NodeToken::Help)
        } else if text_is(name, "reset") {
            Ok(NodeToken::SetDefault)
        } else if text_is(name, "edit") {
            Ok(NodeToken::Edit)
        } else if text_is(name, "copy") {
            Ok(NodeToken::CopyFrom)
        } else if text_is(name, "paste") {
            Ok(NodeToken::PasteTo)
        } else if text_is(name, "getkeys") {
            Ok(NodeToken::GetKeys)
        } else if text_is(name, "get") {
            Ok(NodeToken::Get)
        } else if text_is(name, "set") {
            if n == 1 {
                Err(String::from_str("Missing value"))
            } else {
                Ok(NodeToken::SetValue(join_from(action, 1, " ")))
            }
        } else if text_is(name, "insert") {
            if n == 1 {
                Ok(NodeToken::Insert)
            } else if n == 2 {
                assert(texts_view(action@)[1] == action@[1]@);
                match parse_index(action[1].as_str()) {
                    Some(index) => Ok(NodeToken::InsertIndex(index)),
                    None => Ok(NodeToken::InsertKey(action[1].clone())),
                }
            } else {
                assert(texts_view(action@)[1] == action@[1]@);
                assert(texts_view(action@)[2] == action@[2]@);
                match parse_index(action[1].as_str()) {
                    Some(index) => Ok(NodeToken::InsertIndexKey(index, action[2].clone())),
                    None => Err(
                        String::from_str(
                            "When two arguments are used, first must be a valid index.",
                        ),
                    ),
                }
            }
        } else if text_is(name, "remove") {
            if n == 1 {
                Ok(NodeToken::Remove)
            } else {
                assert(texts_view(action@)[1] == action@[1]@);
                match parse_index(action[1].as_str()) {
                    Some(index) => Ok(NodeToken::RemoveIndex(index)),
                    None => Ok(NodeToken::RemoveKey(action[1].clone())),
                }
            }
        } else if text_is(name, "variant") {
            if n == 1 {
                Ok(NodeToken::SetVariant(String::new()))
            } else {
                assert(texts_view(action@)[1] == action@[1]@);
                Ok(NodeToken::SetVariant(action[1].clone()))
            }
        } else {
            let mut args: Vec<String> = Vec::new();
            let mut k: usize = 1;
            while k < n
                invariant
                    1 <= k <= n,
                    n == action.len(),
                    texts_view(args@) == texts_view(action@).subrange(1, k as int),
                decreases n - k,
            {
                let ghost before = args@;
                let word = action[k].clone();
                args.push(word);
                assert(texts_view(args@) =~= texts_view(before).push(word@));
                assert(texts_view(action@).subrange(1, k + 1) =~= texts_view(action@).subrange(
                    1,
                    k as int,
                ).push(action@[k as int]@));
                k += 1;
            }
            assert(texts_view(action@).subrange(1, n as int) =~= texts_view(action@).skip(1));
            Ok(NodeToken::Custom(name.clone(), args))
        }
    }

    /// Takes the next token of the command off the runner.
    pub fn step(&mut self) -> (token: NodeToken)
        requires
            old(self)@.len() > 0,
        ensures
            token@ == old(self)@.last(),
            final(self)@ == old(self)@.drop_last(),
    {
        let ghost before = self.tokens@;
        match self.tokens.pop() {
            Some(token) => {
                assert(tokens_view(self.tokens@) =~= tokens_view(before).drop_last());
                token
            },
            None => NodeToken::Help,
        }
    }

    /// A runner that holds the same tokens.
    pub fn duplicate(&self) -> (copy: NodeRunner)
        ensures
            copy@ == self@,
    {
        let mut tokens: Vec<NodeToken> = Vec::new();
        let mut k: usize = 0;
        while k < self.tokens.len()
            invariant
                k <= self.tokens.len(),
                tokens_view(tokens@) == tokens_view(self.tokens@).take(k as int),
            decreases self.tokens.len() - k,
        {
            let ghost before = tokens@;
            let token = self.tokens[k].duplicate();
            tokens.push(token);
            assert(tokens_view(tokens@) =~= tokens_view(before).push(token@));
            assert(tokens_view(self.tokens@).take(k + 1) =~= tokens_view(self.tokens@).take(
                k as int,
            ).push(self.tokens@[k as int]@));
            k += 1;
        }
        assert(tokens_view(self.tokens@).take(k as int) =~= tokens_view(self.tokens@));
        NodeRunner { tokens }
    }
}

/// What is left of a well-formed command after a step into a child is a
/// well-formed command.
pub proof fn lemma_rest_well_formed(tokens: Seq<Token>)
    requires
        well_formed(tokens),
        tokens.last().is_chain(),
    ensures
        well_formed(tokens.drop_last()),
{
}

/// Putting a token behind the tokens that are done is the same as putting it
/// before the tokens that are left.
pub proof fn lemma_prefixed_push(done: Seq<Token>, token: Token, rest: Result<Seq<Token>, Seq<char>>)
    ensures
        prefixed(done, after(token, rest)) == prefixed(done.push(token), rest),
{
    match rest {
        Ok(tokens) => {
            assert(done + (seq![token] + tokens) =~= done.push(token) + tokens);
        },
        Err(_) => {},
    }
}

} // verus!
