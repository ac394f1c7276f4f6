// What the library does on concrete values: whole commands, the edges of the
// grammar, and what holds of every command.

use treeflection::container::step_picks;
use treeflection::node::run_command;
use treeflection::text::{format_integer, parse_index, parse_integer};
use treeflection::{
    Clipboard, ContextVec, KeyedContextVec, Node, NodeRunner, NodeToken, StringMap,
};

fn run<N: Node>(node: &mut N, command: &str) -> String {
    let mut clipboard = Clipboard::new();
    run_command(node, command, &mut clipboard)
}

fn tokens(command: &str) -> Vec<NodeToken> {
    let mut tokens = NodeRunner::new(command).unwrap().tokens;
    tokens.reverse();
    tokens
}

fn keyed(pairs: &[(&str, i32)]) -> KeyedContextVec<i32> {
    KeyedContextVec::from_vec(pairs.iter().map(|pair| (String::from(pair.0), pair.1)).collect())
}

/*
 * The grammar
 */

#[test]
fn action_words_are_split_at_any_white_space() {
    assert_eq!(tokens(":set  a\tb \n c"), vec!(NodeToken::SetValue(String::from("a b c"))));
    assert_eq!(tokens(":\u{a0}get\u{2003}"), vec!(NodeToken::Get));
}

#[test]
fn quotes_keep_white_space_and_escapes_are_read() {
    assert_eq!(tokens(r#":set "a  b""#), vec!(NodeToken::SetValue(String::from("a  b"))));
    assert_eq!(
        tokens(r#":set a\tb\nc\ d\\e\"f\xg"#),
        vec!(NodeToken::SetValue(String::from("a\tb\nc d\\e\"fg")))
    );
    assert_eq!(tokens(r#":set "" """#), vec!(NodeToken::SetValue(String::from(" "))));
    assert_eq!(tokens(r#":set ab"cd"ef"#), vec!(NodeToken::SetValue(String::from("abcd ef"))));
}

#[test]
fn set_needs_a_value_which_may_be_empty() {
    assert_eq!(NodeRunner::new(":set").err().unwrap(), "Missing value");
    assert_eq!(NodeRunner::new(":set   ").err().unwrap(), "Missing value");
    assert_eq!(tokens(r#":set """#), vec!(NodeToken::SetValue(String::new())));
}

#[test]
fn an_open_quote_is_an_error() {
    assert_eq!(NodeRunner::new(r#"foo:set "abc"#).err().unwrap(), "Unterminated string");
    assert_eq!(NodeRunner::new(r#":set abc\""#).map(|r| r.tokens).unwrap(), vec!(NodeToken::SetValue(String::from("abc\""))));
}

#[test]
fn insert_and_remove_read_their_arguments() {
    assert_eq!(
        NodeRunner::new(":insert a b").err().unwrap(),
        "When two arguments are used, first must be a valid index."
    );
    assert_eq!(tokens(":insert 3 b trash"), vec!(NodeToken::InsertIndexKey(3, String::from("b"))));
    assert_eq!(tokens(":insert +3"), vec!(NodeToken::InsertIndex(3)));
    assert_eq!(tokens(":insert -3"), vec!(NodeToken::InsertKey(String::from("-3"))));
    assert_eq!(tokens(":remove 007"), vec!(NodeToken::RemoveIndex(7)));
    assert_eq!(tokens(":remove 7 8"), vec!(NodeToken::RemoveIndex(7)));
    assert_eq!(tokens(":remove 7a"), vec!(NodeToken::RemoveKey(String::from("7a"))));
    assert_eq!(tokens(":getkeys"), vec!(NodeToken::GetKeys));
}

#[test]
fn other_words_are_custom_actions() {
    assert_eq!(
        tokens(r#"a:launch now "at once""#),
        vec!(
            NodeToken::ChainProperty(String::from("a")),
            NodeToken::Custom(String::from("launch"), vec!(String::from("now"), String::from("at once"))),
        )
    );
    assert_eq!(tokens(":Get"), vec!(NodeToken::Custom(String::from("Get"), vec!())));
}

#[test]
fn an_index_is_a_decimal_number_that_fits() {
    assert_eq!(tokens("[+5]:get"), vec!(NodeToken::ChainIndex(5), NodeToken::Get));
    assert_eq!(NodeRunner::new("[-5]:get").err().unwrap(), "Invalid index: -5");
    assert_eq!(NodeRunner::new("[5 ]:get").err().unwrap(), "Invalid index: 5 ");
    assert_eq!(
        NodeRunner::new("[99999999999999999999999]:get").err().unwrap(),
        "Invalid index: 99999999999999999999999"
    );
    assert_eq!(parse_index("18446744073709551615"), Some(usize::MAX));
    assert_eq!(parse_index("18446744073709551616"), None);
    assert_eq!(parse_index("+"), None);
    assert_eq!(parse_index(""), None);
}

#[test]
fn a_key_may_hold_brackets_and_quotes() {
    assert_eq!(
        tokens(r#"["a"b]c"]:get"#),
        vec!(NodeToken::ChainKey(String::from(r#"a"b]c"#)), NodeToken::Get)
    );
    assert_eq!(tokens(r#"[?][*]:help"#), vec!(NodeToken::ChainContext, NodeToken::ChainAll, NodeToken::Help));
}

#[test]
fn a_runner_hands_out_the_tokens_in_order() {
    let mut runner = NodeRunner::new("a[1]:get").unwrap();
    let copy = runner.duplicate();
    assert_eq!(runner.step(), NodeToken::ChainProperty(String::from("a")));
    assert_eq!(runner.step(), NodeToken::ChainIndex(1));
    assert_eq!(runner.step(), NodeToken::Get);
    assert_eq!(runner.tokens.len(), 0);
    assert_eq!(copy.tokens.len(), 3);
    assert!(NodeToken::ChainAll.is_chain());
    assert!(!NodeToken::GetKeys.is_chain());
}

/*
 * Numbers as text
 */

#[test]
fn integers_are_written_in_decimal() {
    assert_eq!(format_integer(0), "0");
    assert_eq!(format_integer(7), "7");
    assert_eq!(format_integer(-10), "-10");
    assert_eq!(format_integer(1234567890), "1234567890");
    assert_eq!(format_integer(i128::MAX), "170141183460469231731687303715884105727");
    assert_eq!(format_integer(i128::MIN), "-170141183460469231731687303715884105728");
}

#[test]
fn integers_are_read_within_their_bounds() {
    assert_eq!(parse_integer("-128", true, -128, 127), Some(-128));
    assert_eq!(parse_integer("-129", true, -128, 127), None);
    assert_eq!(parse_integer("127", true, -128, 127), Some(127));
    assert_eq!(parse_integer("128", true, -128, 127), None);
    assert_eq!(parse_integer("-0", true, -128, 127), Some(0));
    assert_eq!(parse_integer("-0", false, 0, 255), None);
    assert_eq!(parse_integer("+0", false, 0, 255), Some(0));
    assert_eq!(parse_integer("-", true, -128, 127), None);
    assert_eq!(parse_integer("1_000", true, -128, 127000), None);
    assert_eq!(parse_integer("٣", false, 0, 255), None);
}

/*
 * Whole commands
 */

#[test]
fn a_command_reaches_a_nested_element() {
    let mut tree: Vec<Vec<i32>> = vec!(vec!(1, 2), vec!(3));
    assert_eq!(run(&mut tree, "[1][0]:get"), "3");
    assert_eq!(run(&mut tree, "[0][1]:set -9"), "");
    assert_eq!(tree, vec!(vec!(1, -9), vec!(3)));
    assert_eq!(run(&mut tree, "[*][*]:get"), "||1|-9|||3||");
    assert_eq!(run(&mut tree, "[*].length:get"), "|2|1|");
    assert_eq!(run(&mut tree, ".length:get"), "2");
    assert_eq!(run(&mut tree, "[0]:insert 0"), "");
    assert_eq!(tree, vec!(vec!(0, 1, -9), vec!(3)));
    assert_eq!(run(&mut tree, "[2][0]:get"), "Used index 2 on a vector of size 2 (try a value between 0-1)");
    assert_eq!(run(&mut tree, ":get"), "[\n  [\n    0,\n    1,\n    -9\n  ],\n  [\n    3\n  ]\n]");
}

#[test]
fn a_command_that_does_not_parse_changes_nothing() {
    let mut tree: Vec<i32> = vec!(1, 2);
    assert_eq!(run(&mut tree, "[0]"), "Missing action");
    assert_eq!(run(&mut tree, ""), "Empty command");
    assert_eq!(run(&mut tree, "[0]x:set 4"), "Missing .");
    assert_eq!(tree, vec!(1, 2));
}

#[test]
fn a_node_names_the_token_it_cannot_perform() {
    let mut tree: Vec<i32> = vec!(1, 2);
    assert_eq!(run(&mut tree, r#"["a\"b"]:get"#), r#"vector cannot 'ChainKey("a\\\"b")'"#);
    assert_eq!(run(&mut tree, "[?]:get"), "vector cannot 'ChainContext'");
    assert_eq!(run(&mut tree, ".size:get"), r#"vector cannot 'ChainProperty("size")'"#);
    assert_eq!(run(&mut tree, ":insert 1 a"), r#"vector cannot 'InsertIndexKey(1, "a")'"#);
    assert_eq!(run(&mut tree, ":launch now"), "vector cannot 'launch'");
    assert_eq!(run(&mut tree, "[0][1]:get"), "i32 cannot 'ChainIndex(1)'");
    assert_eq!(run(&mut tree, "[0]:variant a\tb"), "i32 cannot 'SetVariant(\"a\")'");
    assert_eq!(run(&mut tree, "[0]:set \"a\tb\""), "Invalid value for i32 (needs to be: A number from –2,147,483,648 to 2,147,483,647)");
    let mut flag = true;
    assert_eq!(run(&mut flag, ":copy"), "bool cannot 'CopyFrom'");
    let mut text = String::from("a");
    assert_eq!(run(&mut text, ":set a\\tb"), "");
    assert_eq!(run(&mut text, ":edit"), "String cannot 'Edit'");
    assert_eq!(run(&mut text, ".x:set 1"), "String cannot 'ChainProperty(\"x\")'");
    assert_eq!(text, "a\tb");
}

#[test]
fn removing_from_an_empty_container_is_answered() {
    let mut tree: Vec<i32> = vec!();
    assert_eq!(run(&mut tree, ":remove 0"), "Tried to remove from an empty vector.");
    let mut tree: ContextVec<i32> = ContextVec::new();
    assert_eq!(run(&mut tree, ":remove 0"), "Tried to remove from an empty vector.");
    assert_eq!(run(&mut tree, ":remove"), "Tried to remove from an empty vector.");
    let mut tree: KeyedContextVec<i32> = KeyedContextVec::new();
    assert_eq!(run(&mut tree, ":remove 0"), "Tried to remove from an empty keyed context vector.");
    assert_eq!(
        run(&mut tree, ":remove a"),
        "Tried to remove the value with key 'a' on a keyed context vector that doesnt contain it. Current keys: "
    );
}

/*
 * Integers
 */

#[test]
fn calculations_stay_within_the_type() {
    let mut a: i8 = -100;
    assert_eq!(run(&mut a, ":multiply 2"), "");
    assert_eq!(a, -128);
    assert_eq!(run(&mut a, ":multiply -1"), "");
    assert_eq!(a, 127);
    assert_eq!(run(&mut a, ":add 127"), "");
    assert_eq!(a, 127);
    assert_eq!(run(&mut a, ":subtract -1"), "");
    assert_eq!(a, 127);
    assert_eq!(run(&mut a, ":subtract 127"), "");
    assert_eq!(run(&mut a, ":subtract 127"), "");
    assert_eq!(run(&mut a, ":subtract 127"), "");
    assert_eq!(a, -128);
    assert_eq!(run(&mut a, ":divide -1"), "");
    assert_eq!(a, 127);

    let mut b: i64 = i64::MIN;
    assert_eq!(run(&mut b, ":divide -1"), "");
    assert_eq!(b, i64::MAX);
    assert_eq!(run(&mut b, ":multiply 9223372036854775807"), "");
    assert_eq!(b, i64::MAX);
    assert_eq!(run(&mut b, ":multiply -9223372036854775808"), "");
    assert_eq!(b, i64::MIN);

    let mut c: u64 = u64::MAX;
    assert_eq!(run(&mut c, ":multiply 18446744073709551615"), "");
    assert_eq!(c, u64::MAX);
    assert_eq!(run(&mut c, ":subtract 18446744073709551615"), "");
    assert_eq!(c, 0);
    assert_eq!(run(&mut c, ":subtract 1"), "");
    assert_eq!(c, 0);
    assert_eq!(run(&mut c, ":add -1"), "Invalid value for u64 (needs to be: A number from 0 to 18,446,744,073,709,551,615)");
}

#[test]
fn division_rounds_towards_zero() {
    let mut a: i32 = -7;
    assert_eq!(run(&mut a, ":divide 2"), "");
    assert_eq!(a, -3);
    let mut a: i32 = 7;
    assert_eq!(run(&mut a, ":divide -2"), "");
    assert_eq!(a, -3);
    let mut a: i32 = -7;
    assert_eq!(run(&mut a, ":divide -2"), "");
    assert_eq!(a, 3);
    assert_eq!(run(&mut a, ":divide"), "Invalid value for i32 (needs to be: A number from –2,147,483,648 to 2,147,483,647, excluding 0)");
    assert_eq!(run(&mut a, ":add"), "Invalid value for i32 (needs to be: A number from –2,147,483,648 to 2,147,483,647)");
    assert_eq!(a, 3);
}

#[test]
fn the_widest_types_are_read_and_written() {
    let mut a: u64 = 0;
    assert_eq!(run(&mut a, ":set 18446744073709551615"), "");
    assert_eq!(run(&mut a, ":get"), "18446744073709551615");
    let mut b: i64 = 0;
    assert_eq!(run(&mut b, ":set -9223372036854775808"), "");
    assert_eq!(run(&mut b, ":get"), "-9223372036854775808");
    let mut list: Vec<u64> = vec!(u64::MAX, 0);
    assert_eq!(run(&mut list, ":get"), "[\n  18446744073709551615,\n  0\n]");
    assert_eq!(run(&mut list, ":set [18446744073709551615, 7]"), "");
    assert_eq!(list, vec!(u64::MAX, 7));
    let mut list: Vec<i64> = vec!(i64::MIN);
    assert_eq!(run(&mut list, ":set [-9223372036854775808, 9223372036854775807]"), "");
    assert_eq!(list, vec!(i64::MIN, i64::MAX));
    assert_eq!(
        run(&mut list, ":set [9223372036854775808]"),
        "vector set error: Invalid value for i64 (needs to be: A number from –9,223,372,036,854,775,808 to 9,223,372,036,854,775,807)"
    );
    assert_eq!(run(&mut list, ":set [1.5]"), "vector set error: Invalid value for i64 (needs to be: A number from –9,223,372,036,854,775,808 to 9,223,372,036,854,775,807)");
    assert_eq!(list, vec!(i64::MIN, i64::MAX));
}

#[test]
fn the_clipboard_keeps_a_number_with_a_fraction() {
    let mut clipboard = Clipboard::new();
    assert_eq!(clipboard.copied_fraction(), None);
    clipboard.copy_fraction(99, 4636737284491444326);
    assert_eq!(clipboard.copied_number(), Some(99));
    assert_eq!(clipboard.copied_fraction(), Some(4636737284491444326));
    let mut a: i32 = 0;
    assert_eq!(a.node_step_with(NodeRunner { tokens: vec!(NodeToken::PasteTo) }, &mut clipboard), "");
    assert_eq!(a, 99);
    clipboard.copy_fraction(-300, 13844628204002770944);
    let mut b: i8 = 0;
    assert_eq!(b.node_step_with(NodeRunner { tokens: vec!(NodeToken::PasteTo) }, &mut clipboard), "");
    assert_eq!(b, -128);
    let mut c: u16 = 1;
    assert_eq!(c.node_step_with(NodeRunner { tokens: vec!(NodeToken::PasteTo) }, &mut clipboard), "");
    assert_eq!(c, 0);
    clipboard.copy_fraction(99, 4636737284491444326);
    assert_eq!(a.node_step_with(NodeRunner { tokens: vec!(NodeToken::CopyFrom) }, &mut clipboard), "");
    assert_eq!(clipboard.copied_fraction(), None);
    clipboard.copy_text(String::from("t"));
    assert_eq!(clipboard.copied_text(), Some(String::from("t")));
    assert_eq!(clipboard.copied_number(), Some(99));
}

#[test]
fn copying_through_a_selection_reaches_the_clipboard() {
    let mut clipboard = Clipboard::new();
    let mut tree = ContextVec::from_vec(vec!(5u8, 6, 7));
    tree.set_context_vec(vec!(2, 0));
    assert_eq!(run_command(&mut tree, "[?]:copy", &mut clipboard), "|||");
    assert_eq!(clipboard.copied_number(), Some(5));
    assert_eq!(run_command(&mut tree, "[*]:paste", &mut clipboard), "||||");
    assert_eq!(tree.into_vector(), vec!(5, 5, 5));
}

/*
 * What is written as JSON is read back
 */

#[test]
fn containers_are_read_back_from_what_they_write() {
    let mut list = ContextVec::from_vec(vec!(String::from("a\"b"), String::from("c\nd")));
    list.set_context(1);
    let written = run(&mut list, ":get");
    assert_eq!(written, "[\n  \"a\\\"b\",\n  \"c\\nd\"\n]");
    let mut other: ContextVec<String> = ContextVec::from_vec(vec!(String::from("x")));
    other.set_context(0);
    assert_eq!(other.node_step(NodeRunner { tokens: vec!(NodeToken::SetValue(written.clone())) }), "");
    assert_eq!(other.get_context().len(), 0);
    assert_eq!(run(&mut other, ":get"), written);
    assert_eq!(other.into_vector(), vec!(String::from("a\"b"), String::from("c\nd")));

    let mut flags: Vec<Option<bool>> = vec!(Some(true), None, Some(false));
    let written = run(&mut flags, ":get");
    assert_eq!(written, "[\n  true,\n  null,\n  false\n]");
    let mut other: Vec<Option<bool>> = vec!();
    assert_eq!(other.node_step(NodeRunner { tokens: vec!(NodeToken::SetValue(written)) }), "");
    assert_eq!(other, flags);

    let mut map: StringMap<Vec<i8>> = StringMap::new();
    map.insert(String::from("b"), vec!(-1));
    map.insert(String::from("a"), vec!());
    let written = run(&mut map, ":get");
    assert_eq!(written, "{\n  \"a\": [],\n  \"b\": [\n    -1\n  ]\n}");
    let mut other: StringMap<Vec<i8>> = StringMap::new();
    assert_eq!(other.node_step(NodeRunner { tokens: vec!(NodeToken::SetValue(written.clone())) }), "");
    assert_eq!(other.keys(), vec!(String::from("a"), String::from("b")));
    assert_eq!(run(&mut other, ":get"), written);
}

#[test]
fn a_keyed_container_is_written_with_its_keys_inside_another() {
    let mut tree: Vec<KeyedContextVec<i32>> = vec!(keyed(&[("z", 1), ("a", 2)]), keyed(&[]));
    tree[0].set_context(1);
    let written = run(&mut tree, ":get");
    assert_eq!(
        written,
        "[\n  {\n    \"vector\": [\n      1,\n      2\n    ],\n    \"keys\": [\n      \"z\",\n      \"a\"\n    ]\n  },\n  {\n    \"vector\": [],\n    \"keys\": []\n  }\n]"
    );
    let mut other: Vec<KeyedContextVec<i32>> = vec!();
    assert_eq!(other.node_step(NodeRunner { tokens: vec!(NodeToken::SetValue(written.clone())) }), "");
    assert_eq!(other.len(), 2);
    assert_eq!(other[0].keys(), vec!(String::from("z"), String::from("a")));
    assert_eq!(*other[0].key_to_value("a").unwrap(), 2);
    assert_eq!(other[0].get_context().len(), 0);
    assert_eq!(run(&mut other, ":get"), written);

    let refused = "vector set error: Invalid value for keyed context vector (needs to be: an object of distinct keys and as many values)";
    assert_eq!(run(&mut other, r#":set "[{\"keys\": [\"a\", \"a\"], \"vector\": [1, 2]}]""#), refused);
    assert_eq!(run(&mut other, r#":set "[{\"keys\": [\"a\"], \"vector\": [1, 2]}]""#), refused);
    assert_eq!(run(&mut other, r#":set "[{\"keys\": [1], \"vector\": [1]}]""#), refused);
    assert_eq!(run(&mut other, r#":set "[{\"keys\": [\"a\"]}]""#), refused);
    assert_eq!(run(&mut other, r#":set "[{\"vector\": [1]}]""#), refused);
    assert_eq!(run(&mut other, r#":set "[{\"vector\": [1], \"keys\": \"a\"}]""#), refused);
    assert_eq!(run(&mut other, r#":set "[[1]]""#), refused);
    assert_eq!(
        run(&mut other, r#":set "[{\"vector\": [true], \"keys\": [\"a\"]}]""#),
        "vector set error: Invalid value for i32 (needs to be: A number from –2,147,483,648 to 2,147,483,647)"
    );
    assert_eq!(other.len(), 2);

    // the members are read by their names, in any order and among others
    assert_eq!(run(&mut other, r#":set "[{\"keys\": [\"b\", \"a\"], \"context\": [0], \"vector\": [1, 2]}]""#), "");
    assert_eq!(other.len(), 1);
    assert_eq!(other[0].keys(), vec!(String::from("b"), String::from("a")));
    assert_eq!(*other[0].key_to_value("a").unwrap(), 2);
    assert_eq!(other[0].get_context().len(), 0);
    assert_eq!(run(&mut other, ":get"), "[\n  {\n    \"vector\": [\n      1,\n      2\n    ],\n    \"keys\": [\n      \"b\",\n      \"a\"\n    ]\n  }\n]");
}

#[test]
fn a_map_is_set_from_members_in_any_order() {
    let mut map: StringMap<i32> = StringMap::new();
    assert_eq!(run(&mut map, r#":set "{\"b\": 2, \"c\": 3, \"a\": 1, \"b\": 4}""#), "");
    assert_eq!(map.keys(), vec!(String::from("a"), String::from("b"), String::from("c")));
    assert_eq!(run(&mut map, "[*]:get"), "|1|4|3|");
    assert_eq!(run(&mut map, ":getkeys"), "'a', 'b', 'c'");
    assert_eq!(run(&mut map, ":set [1]"), "map set error: Invalid value for map (needs to be: an object)");
    assert_eq!(run(&mut map, r#":set "{\"a\": true}""#), "map set error: Invalid value for i32 (needs to be: A number from –2,147,483,648 to 2,147,483,647)");
    assert_eq!(map.len(), 3);
}

/*
 * The map
 */

#[test]
fn a_map_keeps_its_keys_in_order() {
    let mut map: StringMap<i32> = StringMap::new();
    assert!(map.is_empty());
    assert_eq!(map.insert(String::from("b"), 1), None);
    assert_eq!(map.insert(String::from("ab"), 2), None);
    assert_eq!(map.insert(String::from("a"), 3), None);
    assert_eq!(map.insert(String::from("B"), 4), None);
    assert_eq!(map.insert(String::from(""), 5), None);
    assert_eq!(map.insert(String::from("é"), 6), None);
    assert_eq!(map.insert(String::from("ab"), 7), Some(2));
    assert_eq!(
        map.keys(),
        vec!(String::from(""), String::from("B"), String::from("a"), String::from("ab"), String::from("b"), String::from("é"))
    );
    assert_eq!(map.len(), 6);
    assert_eq!(*map.get("ab").unwrap(), 7);
    assert!(map.get("c").is_none());
    assert!(map.contains_key(""));
    *map.get_mut("a").unwrap() = 30;
    assert_eq!(map.remove("a"), Some(30));
    assert_eq!(map.remove("a"), None);
    assert_eq!(run(&mut map, "[*]:get"), "|5|4|7|1|6|");
    assert_eq!(run(&mut map, r#"["é"]:get"#), "6");
    assert_eq!(run(&mut map, ":insert aa"), "");
    assert_eq!(run(&mut map, ":getkeys"), "'', 'B', 'aa', 'ab', 'b', 'é'");
    map.clear();
    assert_eq!(map.len(), 0);
    assert_eq!(run(&mut map, ":getkeys"), "");
}

/*
 * The selection
 */

#[test]
fn the_selection_follows_the_elements() {
    let mut list = ContextVec::from_vec(vec!(10, 11, 12, 13));
    list.set_context_vec(vec!(3, 0, 1, 1));
    list.insert(1, 99);
    assert_eq!(list.get_context(), [4, 0, 2, 2]);
    assert_eq!(list.selection(), vec!(&13, &10, &11, &11));
    list.insert(5, 98);
    assert_eq!(list.get_context(), [4, 0, 2, 2]);
    list.insert(0, 97);
    assert_eq!(list.get_context(), [5, 1, 3, 3]);
    assert_eq!(list.remove(3), 11);
    assert_eq!(list.get_context(), [4, 1]);
    assert_eq!(list.selection(), vec!(&13, &10));
    assert_eq!(list.len(), 6);
    assert_eq!(list.pop(), Some(98));
    assert_eq!(list.get_context(), [4, 1]);
    assert_eq!(list.pop(), Some(13));
    assert_eq!(list.get_context(), [1]);
    assert_eq!(list.into_tuple(), (vec!(1), vec!(97, 10, 99, 12)));
}

#[test]
fn the_selection_follows_the_elements_of_commands() {
    let mut list = keyed(&[("a", 1), ("b", 2), ("c", 3)]);
    list.set_context_vec(vec!(2, 2, 0));
    assert_eq!(run(&mut list, ":insert 0 z"), "");
    assert_eq!(list.get_context(), [3, 3, 1]);
    assert_eq!(run(&mut list, "[?]:get"), "|3|3|1|");
    assert_eq!(run(&mut list, "[?]:add 10"), "||||");
    assert_eq!(run(&mut list, "[*]:get"), "|0|11|2|23|");
    assert_eq!(run(&mut list, ":remove c"), "");
    assert_eq!(list.get_context(), [1]);
    assert_eq!(list.keys(), vec!(String::from("z"), String::from("a"), String::from("b")));
    assert_eq!(run(&mut list, r#"["b"]:get"#), "2");
    assert_eq!(run(&mut list, ":remove 1"), "");
    assert_eq!(list.get_context().len(), 0);
    assert_eq!(list.index_to_key(1), Some(String::from("b")));
    assert_eq!(list.key_to_index("b"), Some(1));
    assert_eq!(list.key_iter(), vec!(&String::from("z"), &String::from("b")));
    assert!(list.contains_key(&String::from("z")));
    list.set_context(1);
    assert_eq!(run(&mut list, ":set [7, 8]"), "");
    assert_eq!(list.get_context().len(), 0);
    assert_eq!(run(&mut list, r#"["b"]:get"#), "8");
    assert_eq!(
        run(&mut list, ":set [7, 8, 9]"),
        "keyed context vector set error: the number of values differs from the number of keys"
    );
    assert_eq!(run(&mut list, "[*]:get"), "|7|8|");
    assert_eq!(run(&mut list, ":reset"), "");
    assert_eq!(list.keys().len(), 0);
    assert_eq!(list.into_tuple(), (vec!(), vec!(), vec!()));
}

#[test]
fn setting_and_resetting_clear_the_selection() {
    let mut list = ContextVec::from_vec(vec!(1, 2, 3));
    list.set_context_vec(vec!(2, 1));
    assert_eq!(run(&mut list, ":set [5]"), "");
    assert_eq!(list.get_context().len(), 0);
    assert_eq!(list.len(), 1);
    list.set_context(0);
    assert_eq!(run(&mut list, ":reset"), "");
    assert_eq!(list.into_tuple(), (vec!(), vec!()));
}

/*
 * What holds of every command
 */

#[test]
fn reading_twice_answers_the_same() {
    let mut list = keyed(&[("a", 1), ("b", 2)]);
    list.set_context_vec(vec!(1, 0));
    for command in [":get", ":help", "[?]:get", "[*]:help", r#"["b"]:get"#, ".length:get", "[7]:get"] {
        let first = run(&mut list, command);
        let second = run(&mut list, command);
        assert_eq!(first, second);
        assert_eq!(list.get_context(), [1, 0]);
        assert_eq!(list.keys(), vec!(String::from("a"), String::from("b")));
        assert_eq!(list.len(), 2);
        assert_eq!(*list.key_to_value("a").unwrap(), 1);
    }
}

#[test]
fn a_set_that_fails_changes_nothing() {
    let mut number: u16 = 7;
    assert_ne!(run(&mut number, ":set 65536"), "");
    assert_eq!(number, 7);

    let mut list = ContextVec::from_vec(vec!(1u8, 2));
    list.set_context(1);
    assert_ne!(run(&mut list, ":set [1, 2, 256]"), "");
    assert_ne!(run(&mut list, ":set [1, 2"), "");
    assert_ne!(run(&mut list, ":set {}"), "");
    assert_eq!(list.get_context(), [1]);
    assert_eq!(list.into_vector(), vec!(1, 2));

    let mut option: Option<Vec<bool>> = Some(vec!(true));
    assert_eq!(run(&mut option, ":set [1]"), "Option set error: Invalid value for bool (needs to be: true or false)");
    assert_eq!(run(&mut option, ":set 1"), "Option set error: Invalid value for vector (needs to be: a list)");
    assert_eq!(option, Some(vec!(true)));

    let mut pair: (i32, bool) = (42, true);
    assert_eq!(run(&mut pair, ":set [1, 2]"), "( T0 , T1 , ) set error: Invalid value for bool (needs to be: true or false)");
    assert_eq!(run(&mut pair, ":set [1]"), "( T0 , T1 , ) set error: Invalid value for ( T0 , T1 , ) (needs to be: a list of 2 values)");
    assert_eq!(pair, (42, true));
    assert_eq!(run(&mut pair, "[*]:get"), "|42|true|");

    let mut texts: Vec<String> = vec!(String::from("a"));
    assert_eq!(run(&mut texts, ":set [1]"), "vector set error: Invalid value for String (needs to be: Anything)");
    assert_eq!(texts, vec!(String::from("a")));
}

#[test]
fn an_array_keeps_its_length() {
    let mut array: [u8; 3] = [1, 2, 3];
    assert_eq!(run(&mut array, ":set [4, 5]"), "array set error: Invalid value for array (needs to be: a list of 3 values)");
    assert_eq!(run(&mut array, ":set [4, 5, 256]"), "array set error: Invalid value for u8 (needs to be: A number from 0 to 255)");
    assert_eq!(run(&mut array, ":set 4"), "array set error: Invalid value for array (needs to be: a list of 3 values)");
    assert_eq!(array, [1, 2, 3]);
    assert_eq!(run(&mut array, ":set [4, 5, 6]"), "");
    assert_eq!(array, [4, 5, 6]);
    assert_eq!(run(&mut array, "[3]:get"), "Used index 3 on an array of length 3");
    assert_eq!(run(&mut array, ":insert 0"), "array cannot 'InsertIndex(0)'");
    assert_eq!(run(&mut array, "[*]:add 250"), "||||");
    assert_eq!(array, [254, 255, 255]);
    let mut nested: Vec<[bool; 2]> = vec!();
    assert_eq!(run(&mut nested, ":insert 0"), "");
    assert_eq!(nested, vec!([false, false]));
    assert_eq!(run(&mut nested, ":set [[true, false], [false, true]]"), "");
    assert_eq!(nested, vec!([true, false], [false, true]));
    let mut empty: [i32; 0] = [];
    assert_eq!(run(&mut empty, ":get"), "[]");
    assert_eq!(run(&mut empty, ":set []"), "");
    assert_eq!(run(&mut empty, "[*]:get"), "|");
}

#[test]
fn a_pick_that_points_nowhere_is_answered() {
    let mut items: Vec<u8> = vec!(1, 2);
    let mut clipboard = Clipboard::new();
    let runner = NodeRunner { tokens: vec!(NodeToken::Get) };
    assert_eq!(
        step_picks(items.as_mut_slice(), &vec!(1, 2, 0), &runner, &mut clipboard),
        "|2|Context out of range. This should never happen.|1|"
    );
}

#[test]
fn every_token_has_its_name() {
    let text = || String::from("a");
    let all = vec!(
        (NodeToken::ChainProperty(text()), "ChainProperty(\"a\")"),
        (NodeToken::ChainIndex(7), "ChainIndex(7)"),
        (NodeToken::ChainKey(text()), "ChainKey(\"a\")"),
        (NodeToken::ChainContext, "ChainContext"),
        (NodeToken::ChainAll, "ChainAll"),
        (NodeToken::Help, "Help"),
        (NodeToken::Edit, "Edit"),
        (NodeToken::Get, "Get"),
        (NodeToken::SetValue(String::from("a\\b\u{7f}")), "Set(\"a\\\\b\\u{7f}\")"),
        (NodeToken::SetDefault, "SetDefault"),
        (NodeToken::SetVariant(text()), "SetVariant(\"a\")"),
        (NodeToken::CopyFrom, "CopyFrom"),
        (NodeToken::PasteTo, "PasteTo"),
        (NodeToken::Insert, "Insert"),
        (NodeToken::InsertIndex(0), "InsertIndex(0)"),
        (NodeToken::InsertKey(text()), "InsertKey(\"a\")"),
        (NodeToken::InsertIndexKey(18446744073709551615, text()), "InsertIndexKey(18446744073709551615, \"a\")"),
        (NodeToken::Remove, "Remove"),
        (NodeToken::RemoveIndex(10), "RemoveIndex(10)"),
        (NodeToken::RemoveKey(text()), "RemoveKey(\"a\")"),
        (NodeToken::GetKeys, "GetKeys"),
        (NodeToken::Custom(text(), vec!(text())), "a"),
    );
    for (token, name) in all {
        assert_eq!(token.describe(), name);
        assert_eq!(token.duplicate(), token);
    }
}

#[test]
fn the_containers_have_the_traits_of_vectors() {
    let mut list: ContextVec<i32> = ContextVec::default();
    assert_eq!(list.len(), 0);
    list.set_vec(vec!(1, 2, 3));
    list.set_context_vec(vec!(2, 0));
    list[1] = 20;
    list.iter_mut().for_each(|x| *x += 1);
    list[..2].reverse();
    let copy = list.clone();
    list.clear();
    assert_eq!(copy.get_context(), [2, 0]);
    assert_eq!(copy.into_vector(), vec!(21, 2, 4));

    let mut keyed_list: KeyedContextVec<i32> = KeyedContextVec::default();
    assert_eq!(keyed_list.len(), 0);
    assert_eq!(keyed_list.keys().len(), 0);
    keyed_list.set_vec(vec!((String::from("a"), 1), (String::from("b"), 2), (String::from("c"), 3)));
    keyed_list.set_context(1);
    keyed_list.iter_mut().for_each(|x| *x *= 10);
    let copy = keyed_list.clone();
    keyed_list.clear();
    assert_eq!(copy["b"], 20);
    assert_eq!(copy[2], 30);
    assert_eq!(copy[1..], [20, 30]);
    assert_eq!(copy[..1], [10]);
    assert_eq!(copy[1..2], [20]);
    assert_eq!(copy[..], [10, 20, 30]);
    assert_eq!(copy.into_tuple(), (vec!(1), vec!(String::from("a"), String::from("b"), String::from("c")), vec!(10, 20, 30)));
}
