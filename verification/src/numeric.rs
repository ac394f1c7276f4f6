//! Integers as nodes: leaves that can be read, set, copied, pasted and
//! calculated with.

use vstd::prelude::*;
use vstd::string::*;
use crate::json::{json_as_i64, json_as_u64, json_from_i64, json_from_u64, json_view, JsonModel};
use crate::node::{
    cannot, cannot_text, copyable, invalid, invalid_text, Clipboard, ClipboardModel, Node,
    Outcome,
};
use crate::node_runner::NodeRunner;
use crate::node_token::{NodeToken, Token};
use crate::text::{
    decimal_text, format_integer, parse_integer, parsed_integer, text_is, texts_view,
};

verus! {

/// The integer types that are nodes.
#[derive(Clone, Copy)]
pub enum IntegerKind {
    I8,
    I16,
    I32,
    I64,
    Isize,
    U8,
    U16,
    U32,
    U64,
    Usize,
}

impl IntegerKind {
    /// The least value of the type.
    pub open spec fn min_value(self) -> int {
        match self {
            IntegerKind::I8 => i8::MIN as int,
            IntegerKind::I16 => i16::MIN as int,
            IntegerKind::I32 => i32::MIN as int,
            IntegerKind::I64 => i64::MIN as int,
            IntegerKind::Isize => isize::MIN as int,
            IntegerKind::U8 => 0,
            IntegerKind::U16 => 0,
            IntegerKind::U32 => 0,
            IntegerKind::U64 => 0,
            IntegerKind::Usize => 0,
        }
    }

    /// The greatest value of the type.
    pub open spec fn max_value(self) -> int {
        match self {
            IntegerKind::I8 => i8::MAX as int,
            IntegerKind::I16 => i16::MAX as int,
            IntegerKind::I32 => i32::MAX as int,
            IntegerKind::I64 => i64::MAX as int,
            IntegerKind::Isize => isize::MAX as int,
            IntegerKind::U8 => u8::MAX as int,
            IntegerKind::U16 => u16::MAX as int,
            IntegerKind::U32 => u32::MAX as int,
            IntegerKind::U64 => u64::MAX as int,
            IntegerKind::Usize => usize::MAX as int,
        }
    }

    /// Whether the type has negative values.
    pub open spec fn is_signed(self) -> bool {
        self.min_value() < 0
    }

    /// The name of the type.
    pub open spec fn name_text(self) -> Seq<char> {
        match self {
            IntegerKind::I8 => "i8"@,
            IntegerKind::I16 => "i16"@,
            IntegerKind::I32 => "i32"@,
            IntegerKind::I64 => "i64"@,
            IntegerKind::Isize => "isize"@,
            IntegerKind::U8 => "u8"@,
            IntegerKind::U16 => "u16"@,
            IntegerKind::U32 => "u32"@,
            IntegerKind::U64 => "u64"@,
            IntegerKind::Usize => "usize"@,
        }
    }

    /// The values of the type, as help and messages describe them.
    pub open spec fn valid_text(self) -> Seq<char> {
        match self {
            IntegerKind::I8 => "A number from -128 to 127"@,
            IntegerKind::I16 => "A number from –32,768 to –32,767"@,
            IntegerKind::I32 => "A number from –2,147,483,648 to 2,147,483,647"@,
            IntegerKind::I64 => "A number from –9,223,372,036,854,775,808 to 9,223,372,036,854,775,807"@,
            IntegerKind::Isize => "A number from –9,223,372,036,854,775,808 to 9,223,372,036,854,775,807"@,
            IntegerKind::U8 => "A number from 0 to 255"@,
            IntegerKind::U16 => "A number from 0 to 65,535"@,
            IntegerKind::U32 => "A number from 0 to 4,294,967,295"@,
            IntegerKind::U64 => "A number from 0 to 18,446,744,073,709,551,615"@,
            IntegerKind::Usize => "A number from 0 to 18,446,744,073,709,551,615"@,
        }
    }

    /// Whether `n` is a value of the type.
    pub open spec fn holds(self, n: int) -> bool {
        self.min_value() <= n <= self.max_value()
    }

    /// The least value of the type.
    pub fn min(self) -> (r: i128)
        ensures
            r == self.min_value(),
            -(u64::MAX as int) <= r <= 0,
    {
        match self {
            IntegerKind::I8 => i8::MIN as i128,
            IntegerKind::I16 => i16::MIN as i128,
            IntegerKind::I32 => i32::MIN as i128,
            IntegerKind::I64 => i64::MIN as i128,
            IntegerKind::Isize => isize::MIN as i128,
            IntegerKind::U8 => 0,
            IntegerKind::U16 => 0,
            IntegerKind::U32 => 0,
            IntegerKind::U64 => 0,
            IntegerKind::Usize => 0,
        }
    }

    /// The greatest value of the type.
    pub fn max(self) -> (r: i128)
        ensures
            r == self.max_value(),
            0 <= r <= u64::MAX,
    {
        match self {
            IntegerKind::I8 => i8::MAX as i128,
            IntegerKind::I16 => i16::MAX as i128,
            IntegerKind::I32 => i32::MAX as i128,
            IntegerKind::I64 => i64::MAX as i128,
            IntegerKind::Isize => isize::MAX as i128,
            IntegerKind::U8 => u8::MAX as i128,
            IntegerKind::U16 => u16::MAX as i128,
            IntegerKind::U32 => u32::MAX as i128,
            IntegerKind::U64 => u64::MAX as i128,
            IntegerKind::Usize => usize::MAX as i128,
        }
    }

    /// Whether the type has negative values.
    pub fn signed(self) -> (r: bool)
        ensures
            r == self.is_signed(),
    {
        self.min() < 0
    }

    /// The name of the type.
    pub fn name(self) -> (r: String)
        ensures
            r@ == self.name_text(),
    {
        match self {
            IntegerKind::I8 => String::from_str("i8"),
            IntegerKind::I16 => String::from_str("i16"),
            IntegerKind::I32 => String::from_str("i32"),
            IntegerKind::I64 => String::from_str("i64"),
            IntegerKind::Isize => String::from_str("isize"),
            IntegerKind::U8 => String::from_str("u8"),
            IntegerKind::U16 => String::from_str("u16"),
            IntegerKind::U32 => String::from_str("u32"),
            IntegerKind::U64 => String::from_str("u64"),
            IntegerKind::Usize => String::from_str("usize"),
        }
    }

    /// The values of the type, as help and messages describe them.
    pub fn valid(self) -> (r: String)
        ensures
            r@ == self.valid_text(),
    {
        match self {
            IntegerKind::I8 => String::from_str("A number from -128 to 127"),
            IntegerKind::I16 => String::from_str("A number from –32,768 to –32,767"),
            IntegerKind::I32 => String::from_str("A number from –2,147,483,648 to 2,147,483,647"),
            IntegerKind::I64 => String::from_str("A number from –9,223,372,036,854,775,808 to 9,223,372,036,854,775,807"),
            IntegerKind::Isize => String::from_str("A number from –9,223,372,036,854,775,808 to 9,223,372,036,854,775,807"),
            IntegerKind::U8 => String::from_str("A number from 0 to 255"),
            IntegerKind::U16 => String::from_str("A number from 0 to 65,535"),
            IntegerKind::U32 => String::from_str("A number from 0 to 4,294,967,295"),
            IntegerKind::U64 => String::from_str("A number from 0 to 18,446,744,073,709,551,615"),
            IntegerKind::Usize => String::from_str("A number from 0 to 18,446,744,073,709,551,615"),
        }
    }
}

/// The part of an integer's help that is the same for every type.
pub open spec fn integer_commands() -> Seq<char> {
    "\n\nCommands:\n*   help             - display this help\n*   copy             - copy this value\n*   paste            - paste the copied value here\n*   get              - display value\n*   set      $NUMBER - set to $NUMBER\n*   add      $NUMBER - adds $NUMBER to this number\n*   subtract $NUMBER - subtracts $NUMBER from this number\n*   multiply $NUMBER - multiply this number with $NUMBER\n*   divide   $NUMBER - divide this number by $NUMBER"@
}

/// The help of an integer.
pub open spec fn integer_help(kind: IntegerKind) -> Seq<char> {
    "\n"@ + kind.name_text() + " Help\n\nValid values: "@ + kind.valid_text()
        + integer_commands()
}

/// The value of the type that is nearest to `n`.
pub open spec fn clamped(kind: IntegerKind, n: int) -> int {
    if n < kind.min_value() {
        kind.min_value()
    } else if n > kind.max_value() {
        kind.max_value()
    } else {
        n
    }
}

/// The value of the type that a cast gives for `n`: the one that differs from
/// `n` by a multiple of the number of values of the type.
pub open spec fn wrapped(kind: IntegerKind, n: int) -> int {
    (n - kind.min_value() + 0x1_0000_0000_0000_0000) % (kind.max_value() - kind.min_value() + 1)
        + kind.min_value()
}

/// The value that an integer takes when the number `n` is pasted from the
/// clipboard: an integer is cast, and the whole part of a number with a
/// fraction is the nearest value of the type.
pub open spec fn pasted(kind: IntegerKind, n: int, clipboard: ClipboardModel) -> int {
    if clipboard.fraction is Some {
        clamped(kind, n)
    } else {
        wrapped(kind, n)
    }
}

/// The quotient of `a` by `b`, rounded towards zero.
pub open spec fn quotient(a: int, b: int) -> int {
    if a == 0 {
        0
    } else if a > 0 && b > 0 {
        a / b
    } else if a < 0 && b < 0 {
        (a * -1) / (b * -1)
    } else if a < 0 {
        ((a * -1) / b) * -1
    } else {
        (a / (b * -1)) * -1
    }
}

/// The number that the first argument of a calculation stands for.
pub open spec fn operand(kind: IntegerKind, args: Seq<Seq<char>>) -> Option<int> {
    if args.len() > 0 {
        parsed_integer(args[0], kind.is_signed(), kind.min_value(), kind.max_value())
    } else {
        None
    }
}

/// What an integer makes of a custom action: `add`, `subtract`, `multiply`
/// and `divide` calculate with the first argument, and the result stays at
/// the least or greatest value of the type where it would pass it. An
/// argument that is no value of the type, and a division by zero, is
/// answered with a message.
pub open spec fn integer_custom(
    kind: IntegerKind,
    node: int,
    name: Seq<char>,
    args: Seq<Seq<char>>,
    clipboard: ClipboardModel,
) -> Outcome<int> {
    let invalid = Outcome {
        text: invalid_text(kind.name_text(), kind.valid_text()),
        node,
        clipboard,
    };
    if name == "add"@ {
        match operand(kind, args) {
            Some(n) => Outcome { text: Seq::empty(), node: clamped(kind, node + n), clipboard },
            None => invalid,
        }
    } else if name == "subtract"@ {
        match operand(kind, args) {
            Some(n) => Outcome { text: Seq::empty(), node: clamped(kind, node - n), clipboard },
            None => invalid,
        }
    } else if name == "multiply"@ {
        match operand(kind, args) {
            Some(n) => Outcome { text: Seq::empty(), node: clamped(kind, node * n), clipboard },
            None => invalid,
        }
    } else if name == "divide"@ {
        match operand(kind, args) {
            Some(n) => if n != 0 {
                Outcome { text: Seq::empty(), node: clamped(kind, quotient(node, n)), clipboard }
            } else {
                Outcome {
                    text: invalid_text(kind.name_text(), kind.valid_text() + ", excluding 0"@),
                    node,
                    clipboard,
                }
            },
            None => Outcome {
                text: invalid_text(kind.name_text(), kind.valid_text() + ", excluding 0"@),
                node,
                clipboard,
            },
        }
    } else {
        Outcome {
            text: cannot_text(kind.name_text(), Token::Custom(name, args)),
            node,
            clipboard,
        }
    }
}

/// What an integer makes of a command.
pub open spec fn integer_outcome(
    kind: IntegerKind,
    node: int,
    tokens: Seq<Token>,
    clipboard: ClipboardModel,
) -> Outcome<int> {
    match tokens.last() {
        Token::Get => Outcome { text: decimal_text(node), node, clipboard },
        Token::SetValue(value) => match parsed_integer(
            value,
            kind.is_signed(),
            kind.min_value(),
            kind.max_value(),
        ) {
            Some(n) => Outcome { text: Seq::empty(), node: n, clipboard },
            None => Outcome {
                text: invalid_text(kind.name_text(), kind.valid_text()),
                node,
                clipboard,
            },
        },
        Token::Help => Outcome { text: integer_help(kind), node, clipboard },
        Token::CopyFrom => Outcome {
            text: Seq::empty(),
            node,
            clipboard: ClipboardModel { number: Some(node), fraction: None, ..clipboard },
        },
        Token::PasteTo => match clipboard.number {
            Some(n) => Outcome { text: Seq::empty(), node: pasted(kind, n, clipboard), clipboard },
            None => Outcome { text: "A number has not been copied"@, node, clipboard },
        },
        Token::Custom(name, args) => integer_custom(kind, node, name, args, clipboard),
        token => Outcome { text: cannot_text(kind.name_text(), token), node, clipboard },
    }
}

/// The integer that a JSON value stands for.
pub open spec fn integer_decoded(kind: IntegerKind, value: JsonModel) -> Result<int, Seq<char>> {
    match value {
        JsonModel::Number(n) => if kind.holds(n) {
            Ok(n)
        } else {
            Err(invalid_text(kind.name_text(), kind.valid_text()))
        },
        _ => Err(invalid_text(kind.name_text(), kind.valid_text())),
    }
}

/// The value of the type that is nearest to `n`.
fn clamp(kind: IntegerKind, n: i128) -> (r: i128)
    ensures
        r == clamped(kind, n as int),
        kind.holds(r as int),
{
    if n < kind.min() {
        kind.min()
    } else if n > kind.max() {
        kind.max()
    } else {
        n
    }
}

/// Reads the first argument of a calculation.
fn read_operand(kind: IntegerKind, args: &Vec<String>) -> (r: Option<i128>)
    ensures
        match r {
            Some(n) => operand(kind, texts_view(args@)) == Some(n as int) && kind.holds(n as int),
            None => operand(kind, texts_view(args@)) is None,
        },
{
    if args.len() > 0 {
        assert(texts_view(args@)[0] == args@[0]@);
        parse_integer(args[0].as_str(), kind.signed(), kind.min(), kind.max())
    } else {
        None
    }
}

/// The product of two numbers of at most 64 bits, at the least or greatest
/// value of the type where it would pass it.
fn clamped_product(kind: IntegerKind, a: i128, b: i128) -> (r: i128)
    requires
        kind.holds(a as int),
        kind.holds(b as int),
    ensures
        r == clamped(kind, a * b),
        kind.holds(r as int),
{
    assert(-0x1_0000_0000_0000_0000_0000_0000_0000_0000 < a * b
        < 0x1_0000_0000_0000_0000_0000_0000_0000_0000) by (nonlinear_arith)
        requires
            -0x1_0000_0000_0000_0000 < a < 0x1_0000_0000_0000_0000,
            -0x1_0000_0000_0000_0000 < b < 0x1_0000_0000_0000_0000,
    ;
    match a.checked_mul(b) {
        Some(product) => clamp(kind, product),
        None => {
            if (a > 0) == (b > 0) {
                assert(a * b >= 0) by (nonlinear_arith)
                    requires
                        (a > 0) == (b > 0),
                ;
                kind.max()
            } else {
                assert(a * b <= 0) by (nonlinear_arith)
                    requires
                        (a > 0) != (b > 0),
                ;
                kind.min()
            }
        },
    }
}

/// Performs a custom action on an integer.
fn integer_calculate(kind: IntegerKind, node: i128, name: String, args: Vec<String>) -> (result: (
    String,
    i128,
))
    requires
        kind.holds(node as int),
    ensures
        result.0@ == integer_custom(
            kind,
            node as int,
            name@,
            texts_view(args@),
            ClipboardModel::empty(),
        ).text,
        result.1 == integer_custom(
            kind,
            node as int,
            name@,
            texts_view(args@),
            ClipboardModel::empty(),
        ).node,
        kind.holds(result.1 as int),
{
    if text_is(&name, "add") {
        match read_operand(kind, &args) {
            Some(n) => (String::new(), clamp(kind, node + n)),
            None => (invalid(kind.name().as_str(), kind.valid().as_str()), node),
        }
    } else if text_is(&name, "subtract") {
        match read_operand(kind, &args) {
            Some(n) => (String::new(), clamp(kind, node - n)),
            None => (invalid(kind.name().as_str(), kind.valid().as_str()), node),
        }
    } else if text_is(&name, "multiply") {
        match read_operand(kind, &args) {
            Some(n) => (String::new(), clamped_product(kind, node, n)),
            None => (invalid(kind.name().as_str(), kind.valid().as_str()), node),
        }
    } else if text_is(&name, "divide") {
        let mut valid = kind.valid();
        valid.append(", excluding 0");
        match read_operand(kind, &args) {
            Some(n) => {
                match node.checked_div(n) {
                    Some(q) => (String::new(), clamp(kind, q)),
                    None => (invalid(kind.name().as_str(), valid.as_str()), node),
                }
            },
            None => (invalid(kind.name().as_str(), valid.as_str()), node),
        }
    } else {
        let token = NodeToken::Custom(name, args);
        (cannot(kind.name().as_str(), &token), node)
    }
}

/// Performs a command on an integer of the type `kind`.
pub fn integer_step(
    kind: IntegerKind,
    node: i128,
    runner: NodeRunner,
    clipboard: &mut Clipboard,
) -> (result: (String, i128))
    requires
        runner.well_formed(),
        kind.holds(node as int),
    ensures
        result.0@ == integer_outcome(kind, node as int, runner@, old(clipboard)@).text,
        result.1 == integer_outcome(kind, node as int, runner@, old(clipboard)@).node,
        final(clipboard)@ == integer_outcome(kind, node as int, runner@, old(clipboard)@).clipboard,
        kind.holds(result.1 as int),
{
    let mut runner = runner;
    match runner.step() {
        NodeToken::Get => (format_integer(node), node),
        NodeToken::SetValue(value) => {
            match parse_integer(value.as_str(), kind.signed(), kind.min(), kind.max()) {
                Some(n) => (String::new(), n),
                None => (invalid(kind.name().as_str(), kind.valid().as_str()), node),
            }
        },
        NodeToken::Help => {
            let mut text = String::from_str("\n");
            text.append(kind.name().as_str());
            text.append(" Help\n\nValid values: ");
            text.append(kind.valid().as_str());
            text.append(
                "\n\nCommands:\n*   help             - display this help\n*   copy             - copy this value\n*   paste            - paste the copied value here\n*   get              - display value\n*   set      $NUMBER - set to $NUMBER\n*   add      $NUMBER - adds $NUMBER to this number\n*   subtract $NUMBER - subtracts $NUMBER from this number\n*   multiply $NUMBER - multiply this number with $NUMBER\n*   divide   $NUMBER - divide this number by $NUMBER",
            );
            (text, node)
        },
        NodeToken::CopyFrom => {
            clipboard.copy_number(node);
            (String::new(), node)
        },
        NodeToken::PasteTo => {
            match clipboard.copied_number() {
                Some(n) => {
                    if clipboard.copied_fraction().is_some() {
                        (String::new(), clamp(kind, n))
                    } else {
                        let width: i128 = kind.max() - kind.min() + 1;
                        let offset: i128 = n - kind.min() + 0x1_0000_0000_0000_0000;
                        (String::new(), offset % width + kind.min())
                    }
                },
                None => (String::from_str("A number has not been copied"), node),
            }
        },
        NodeToken::Custom(name, args) => integer_calculate(kind, node, name, args),
        action => (cannot(kind.name().as_str(), &action), node),
    }
}

/// The JSON number that stands for `node`.
pub fn integer_to_json(node: i128) -> (value: serde_json::Value)
    requires
        copyable(node as int),
    ensures
        json_view(value) == JsonModel::Number(node as int),
{
    if node < 0 {
        json_from_i64(node as i64)
    } else {
        json_from_u64(node as u64)
    }
}

/// The integer of the type `kind` that `value` stands for.
pub fn integer_from_json(kind: IntegerKind, value: &serde_json::Value) -> (result: Result<
    i128,
    String,
>)
    ensures
        match result {
            Ok(n) => integer_decoded(kind, json_view(*value)) == Ok::<int, Seq<char>>(n as int)
                && kind.holds(n as int),
            Err(message) => integer_decoded(kind, json_view(*value)) == Err::<int, Seq<char>>(
                message@,
            ),
        },
{
    let found: Option<i128> = match json_as_i64(value) {
        Some(n) => Some(n as i128),
        None => match json_as_u64(value) {
            Some(n) => Some(n as i128),
            None => None,
        },
    };
    match found {
        Some(n) => {
            if kind.min() <= n && n <= kind.max() {
                Ok(n)
            } else {
                Err(invalid(kind.name().as_str(), kind.valid().as_str()))
            }
        },
        None => Err(invalid(kind.name().as_str(), kind.valid().as_str())),
    }
}

impl Node for i8 {
    type Model = int;

    open spec fn model(&self) -> int {
        *self as int
    }

    open spec fn outcome(node: int, tokens: Seq<Token>, clipboard: ClipboardModel) -> Outcome<int> {
        integer_outcome(IntegerKind::I8, node, tokens, clipboard)
    }

    open spec fn json(node: int) -> JsonModel {
        JsonModel::Number(node)
    }

    open spec fn decoded(value: JsonModel) -> Result<int, Seq<char>> {
        integer_decoded(IntegerKind::I8, value)
    }

    open spec fn default_model() -> int {
        0
    }

    fn node_step_with(&mut self, runner: NodeRunner, clipboard: &mut Clipboard) -> (text: String) {
        let (text, value) = integer_step(IntegerKind::I8, *self as i128, runner, clipboard);
        *self = value as i8;
        text
    }

    fn to_json(&self) -> (value: serde_json::Value) {
        integer_to_json(*self as i128)
    }

    fn from_json(value: &serde_json::Value) -> (result: Result<i8, String>) {
        match integer_from_json(IntegerKind::I8, value) {
            Ok(n) => Ok(n as i8),
            Err(message) => Err(message),
        }
    }

    fn default_node() -> (node: i8) {
        0
    }
}

impl Node for i16 {
    type Model = int;

    open spec fn model(&self) -> int {
        *self as int
    }

    open spec fn outcome(node: int, tokens: Seq<Token>, clipboard: ClipboardModel) -> Outcome<int> {
        integer_outcome(IntegerKind::I16, node, tokens, clipboard)
    }

    open spec fn json(node: int) -> JsonModel {
        JsonModel::Number(node)
    }

    open spec fn decoded(value: JsonModel) -> Result<int, Seq<char>> {
        integer_decoded(IntegerKind::I16, value)
    }

    open spec fn default_model() -> int {
        0
    }

    fn node_step_with(&mut self, runner: NodeRunner, clipboard: &mut Clipboard) -> (text: String) {
        let (text, value) = integer_step(IntegerKind::I16, *self as i128, runner, clipboard);
        *self = value as i16;
        text
    }

    fn to_json(&self) -> (value: serde_json::Value) {
        integer_to_json(*self as i128)
    }

    fn from_json(value: &serde_json::Value) -> (result: Result<i16, String>) {
        match integer_from_json(IntegerKind::I16, value) {
            Ok(n) => Ok(n as i16),
            Err(message) => Err(message),
        }
    }

    fn default_node() -> (node: i16) {
        0
    }
}

impl Node for i32 {
    type Model = int;

    open spec fn model(&self) -> int {
        *self as int
    }

    open spec fn outcome(node: int, tokens: Seq<Token>, clipboard: ClipboardModel) -> Outcome<int> {
        integer_outcome(IntegerKind::I32, node, tokens, clipboard)
    }

    open spec fn json(node: int) -> JsonModel {
        JsonModel::Number(node)
    }

    open spec fn decoded(value: JsonModel) -> Result<int, Seq<char>> {
        integer_decoded(IntegerKind::I32, value)
    }

    open spec fn default_model() -> int {
        0
    }

    fn node_step_with(&mut self, runner: NodeRunner, clipboard: &mut Clipboard) -> (text: String) {
        let (text, value) = integer_step(IntegerKind::I32, *self as i128, runner, clipboard);
        *self = value as i32;
        text
    }

    fn to_json(&self) -> (value: serde_json::Value) {
        integer_to_json(*self as i128)
    }

    fn from_json(value: &serde_json::Value) -> (result: Result<i32, String>) {
        match integer_from_json(IntegerKind::I32, value) {
            Ok(n) => Ok(n as i32),
            Err(message) => Err(message),
        }
    }

    fn default_node() -> (node: i32) {
        0
    }
}

impl Node for i64 {
    type Model = int;

    open spec fn model(&self) -> int {
        *self as int
    }

    open spec fn outcome(node: int, tokens: Seq<Token>, clipboard: ClipboardModel) -> Outcome<int> {
        integer_outcome(IntegerKind::I64, node, tokens, clipboard)
    }

    open spec fn json(node: int) -> JsonModel {
        JsonModel::Number(node)
    }

    open spec fn decoded(value: JsonModel) -> Result<int, Seq<char>> {
        integer_decoded(IntegerKind::I64, value)
    }

    open spec fn default_model() -> int {
        0
    }

    fn node_step_with(&mut self, runner: NodeRunner, clipboard: &mut Clipboard) -> (text: String) {
        let (text, value) = integer_step(IntegerKind::I64, *self as i128, runner, clipboard);
        *self = value as i64;
        text
    }

    fn to_json(&self) -> (value: serde_json::Value) {
        integer_to_json(*self as i128)
    }

    fn from_json(value: &serde_json::Value) -> (result: Result<i64, String>) {
        match integer_from_json(IntegerKind::I64, value) {
            Ok(n) => Ok(n as i64),
            Err(message) => Err(message),
        }
    }

    fn default_node() -> (node: i64) {
        0
    }
}

impl Node for isize {
    type Model = int;

    open spec fn model(&self) -> int {
        *self as int
    }

    open spec fn outcome(node: int, tokens: Seq<Token>, clipboard: ClipboardModel) -> Outcome<int> {
        integer_outcome(IntegerKind::Isize, node, tokens, clipboard)
    }

    open spec fn json(node: int) -> JsonModel {
        JsonModel::Number(node)
    }

    open spec fn decoded(value: JsonModel) -> Result<int, Seq<char>> {
        integer_decoded(IntegerKind::Isize, value)
    }

    open spec fn default_model() -> int {
        0
    }

    fn node_step_with(&mut self, runner: NodeRunner, clipboard: &mut Clipboard) -> (text: String) {
        let (text, value) = integer_step(IntegerKind::Isize, *self as i128, runner, clipboard);
        *self = value as isize;
        text
    }

    fn to_json(&self) -> (value: serde_json::Value) {
        integer_to_json(*self as i128)
    }

    fn from_json(value: &serde_json::Value) -> (result: Result<isize, String>) {
        match integer_from_json(IntegerKind::Isize, value) {
            Ok(n) => Ok(n as isize),
            Err(message) => Err(message),
        }
    }

    fn default_node() -> (node: isize) {
        0
    }
}

impl Node for u8 {
    type Model = int;

    open spec fn model(&self) -> int {
        *self as int
    }

    open spec fn outcome(node: int, tokens: Seq<Token>, clipboard: ClipboardModel) -> Outcome<int> {
        integer_outcome(IntegerKind::U8, node, tokens, clipboard)
    }

    open spec fn json(node: int) -> JsonModel {
        JsonModel::Number(node)
    }

    open spec fn decoded(value: JsonModel) -> Result<int, Seq<char>> {
        integer_decoded(IntegerKind::U8, value)
    }

    open spec fn default_model() -> int {
        0
    }

    fn node_step_with(&mut self, runner: NodeRunner, clipboard: &mut Clipboard) -> (text: String) {
        let (text, value) = integer_step(IntegerKind::U8, *self as i128, runner, clipboard);
        *self = value as u8;
        text
    }

    fn to_json(&self) -> (value: serde_json::Value) {
        integer_to_json(*self as i128)
    }

    fn from_json(value: &serde_json::Value) -> (result: Result<u8, String>) {
        match integer_from_json(IntegerKind::U8, value) {
            Ok(n) => Ok(n as u8),
            Err(message) => Err(message),
        }
    }

    fn default_node() -> (node: u8) {
        0
    }
}

impl Node for u16 {
    type Model = int;

    open spec fn model(&self) -> int {
        *self as int
    }

    open spec fn outcome(node: int, tokens: Seq<Token>, clipboard: ClipboardModel) -> Outcome<int> {
        integer_outcome(IntegerKind::U16, node, tokens, clipboard)
    }

    open spec fn json(node: int) -> JsonModel {
        JsonModel::Number(node)
    }

    open spec fn decoded(value: JsonModel) -> Result<int, Seq<char>> {
        integer_decoded(IntegerKind::U16, value)
    }

    open spec fn default_model() -> int {
        0
    }

    fn node_step_with(&mut self, runner: NodeRunner, clipboard: &mut Clipboard) -> (text: String) {
        let (text, value) = integer_step(IntegerKind::U16, *self as i128, runner, clipboard);
        *self = value as u16;
        text
    }

    fn to_json(&self) -> (value: serde_json::Value) {
        integer_to_json(*self as i128)
    }

    fn from_json(value: &serde_json::Value) -> (result: Result<u16, String>) {
        match integer_from_json(IntegerKind::U16, value) {
            Ok(n) => Ok(n as u16),
            Err(message) => Err(message),
        }
    }

    fn default_node() -> (node: u16) {
        0
    }
}

impl Node for u32 {
    type Model = int;

    open spec fn model(&self) -> int {
        *self as int
    }

    open spec fn outcome(node: int, tokens: Seq<Token>, clipboard: ClipboardModel) -> Outcome<int> {
        integer_outcome(IntegerKind::U32, node, tokens, clipboard)
    }

    open spec fn json(node: int) -> JsonModel {
        JsonModel::Number(node)
    }

    open spec fn decoded(value: JsonModel) -> Result<int, Seq<char>> {
        integer_decoded(IntegerKind::U32, value)
    }

    open spec fn default_model() -> int {
        0
    }

    fn node_step_with(&mut self, runner: NodeRunner, clipboard: &mut Clipboard) -> (text: String) {
        let (text, value) = integer_step(IntegerKind::U32, *self as i128, runner, clipboard);
        *self = value as u32;
        text
    }

    fn to_json(&self) -> (value: serde_json::Value) {
        integer_to_json(*self as i128)
    }

    fn from_json(value: &serde_json::Value) -> (result: Result<u32, String>) {
        match integer_from_json(IntegerKind::U32, value) {
            Ok(n) => Ok(n as u32),
            Err(message) => Err(message),
        }
    }

    fn default_node() -> (node: u32) {
        0
    }
}

impl Node for u64 {
    type Model = int;

    open spec fn model(&self) -> int {
        *self as int
    }

    open spec fn outcome(node: int, tokens: Seq<Token>, clipboard: ClipboardModel) -> Outcome<int> {
        integer_outcome(IntegerKind::U64, node, tokens, clipboard)
    }

    open spec fn json(node: int) -> JsonModel {
        JsonModel::Number(node)
    }

    open spec fn decoded(value: JsonModel) -> Result<int, Seq<char>> {
        integer_decoded(IntegerKind::U64, value)
    }

    open spec fn default_model() -> int {
        0
    }

    fn node_step_with(&mut self, runner: NodeRunner, clipboard: &mut Clipboard) -> (text: String) {
        let (text, value) = integer_step(IntegerKind::U64, *self as i128, runner, clipboard);
        *self = value as u64;
        text
    }

    fn to_json(&self) -> (value: serde_json::Value) {
        integer_to_json(*self as i128)
    }

    fn from_json(value: &serde_json::Value) -> (result: Result<u64, String>) {
        match integer_from_json(IntegerKind::U64, value) {
            Ok(n) => Ok(n as u64),
            Err(message) => Err(message),
        }
    }

    fn default_node() -> (node: u64) {
        0
    }
}

impl Node for usize {
    type Model = int;

    open spec fn model(&self) -> int {
        *self as int
    }

    open spec fn outcome(node: int, tokens: Seq<Token>, clipboard: ClipboardModel) -> Outcome<int> {
        integer_outcome(IntegerKind::Usize, node, tokens, clipboard)
    }

    open spec fn json(node: int) -> JsonModel {
        JsonModel::Number(node)
    }

    open spec fn decoded(value: JsonModel) -> Result<int, Seq<char>> {
        integer_decoded(IntegerKind::Usize, value)
    }

    open spec fn default_model() -> int {
        0
    }

    fn node_step_with(&mut self, runner: NodeRunner, clipboard: &mut Clipboard) -> (text: String) {
        let (text, value) = integer_step(IntegerKind::Usize, *self as i128, runner, clipboard);
        *self = value as usize;
        text
    }

    fn to_json(&self) -> (value: serde_json::Value) {
        integer_to_json(*self as i128)
    }

    fn from_json(value: &serde_json::Value) -> (result: Result<usize, String>) {
        match integer_from_json(IntegerKind::Usize, value) {
            Ok(n) => Ok(n as usize),
            Err(message) => Err(message),
        }
    }

    fn default_node() -> (node: usize) {
        0
    }
}

} // verus!
