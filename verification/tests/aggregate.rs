// Aggregates: the structs and enums of an application, whose fields are nodes.

use treeflection::aggregate::{
    cannot_index, copy_node, enum_help, field_from_json, fields_to_json, get_node,
    indexed_accessor, missing_property, missing_variant, named_accessor, paste_node, set_node,
    struct_help, variant_heading, variant_index,
};
use treeflection::node::cannot;
use treeflection::{Clipboard, Node, NodeRunner, NodeToken};

struct Parent {
    pub foo: String,
    pub bar: u32,
    pub baz: bool,
    pub child: Child,
    private: i64,
}

struct Child {
    pub qux: i32,
}

fn pairs(list: &[(&str, &str)]) -> Vec<(String, String)> {
    list.iter().map(|pair| (String::from(pair.0), String::from(pair.1))).collect()
}

fn names(list: &[&str]) -> Vec<String> {
    list.iter().map(|name| String::from(*name)).collect()
}

fn field<T: Node>(value: &serde_json::Value, name: &str) -> Result<T, String> {
    match field_from_json(value, name) {
        Some(field) => T::from_json(&field),
        None => Err(format!("missing field `{}`", name)),
    }
}

impl Child {
    fn new() -> Child {
        Child {
            qux: 413,
        }
    }

    fn function_name(&mut self, value: String) {
        self.qux += value.parse::<i32>().unwrap();
    }

    fn same_name(&self) -> String {
        String::from("basic action")
    }
}

impl Node for Child {
    type Model = Child;

    fn node_step_with(&mut self, mut runner: NodeRunner, clipboard: &mut Clipboard) -> String {
        match runner.step() {
            NodeToken::ChainProperty(property) => match property.as_str() {
                "qux" => self.qux.node_step_with(runner, clipboard),
                other => missing_property("Child", other),
            },
            NodeToken::Get => get_node(self),
            NodeToken::SetValue(value) => set_node(self, "Child", value.as_str()),
            NodeToken::CopyFrom => copy_node(self, "Child", clipboard),
            NodeToken::PasteTo => paste_node(self, "Child", clipboard),
            NodeToken::SetDefault => {
                *self = Child::default_node();
                String::new()
            }
            NodeToken::Help => struct_help(
                "Child",
                &pairs(&[("action_name", "add the first argument to qux"), ("same_name", "")]),
                &pairs(&[("qux", "i32")]),
            ),
            NodeToken::Custom(action, args) => match action.as_str() {
                "action_name" => {
                    self.function_name(args[0].clone());
                    String::new()
                }
                "same_name" => self.same_name(),
                _ => cannot("Child", &NodeToken::Custom(action, args)),
            },
            action => cannot("Child", &action),
        }
    }

    fn to_json(&self) -> serde_json::Value {
        fields_to_json(names(&["qux"]), vec!(self.qux.to_json())).unwrap()
    }

    fn from_json(value: &serde_json::Value) -> Result<Child, String> {
        Ok(Child { qux: field(value, "qux")? })
    }

    fn default_node() -> Child {
        Child { qux: 0 }
    }
}

impl Parent {
    fn new() -> Parent {
        Parent {
            foo: String::from("hiya"),
            bar: 42,
            baz: true,
            child: Child {
                qux: -13,
            },
            private: 1337,
        }
    }

    fn empty() -> Parent {
        Parent {
            foo: String::new(),
            bar: 0,
            baz: false,
            child: Child {
                qux: 0,
            },
            private: 0,
        }
    }
}

impl Node for Parent {
    type Model = Parent;

    fn node_step_with(&mut self, mut runner: NodeRunner, clipboard: &mut Clipboard) -> String {
        match runner.step() {
            NodeToken::ChainProperty(property) => match property.as_str() {
                "foo" => self.foo.node_step_with(runner, clipboard),
                "bar" => self.bar.node_step_with(runner, clipboard),
                "baz" => self.baz.node_step_with(runner, clipboard),
                "child" => self.child.node_step_with(runner, clipboard),
                other => missing_property("Parent", other),
            },
            NodeToken::Get => get_node(self),
            NodeToken::SetValue(value) => set_node(self, "Parent", value.as_str()),
            NodeToken::CopyFrom => copy_node(self, "Parent", clipboard),
            NodeToken::PasteTo => paste_node(self, "Parent", clipboard),
            NodeToken::SetDefault => {
                *self = Parent::default_node();
                String::new()
            }
            NodeToken::Help => struct_help(
                "Parent",
                &pairs(&[]),
                &pairs(&[("foo", "String"), ("bar", "u32"), ("baz", "bool"), ("child", "Child")]),
            ),
            action => cannot("Parent", &action),
        }
    }

    fn to_json(&self) -> serde_json::Value {
        fields_to_json(
            names(&["foo", "bar", "baz", "child", "private"]),
            vec!(
                self.foo.to_json(),
                self.bar.to_json(),
                self.baz.to_json(),
                self.child.to_json(),
                self.private.to_json(),
            ),
        ).unwrap()
    }

    fn from_json(value: &serde_json::Value) -> Result<Parent, String> {
        Ok(Parent {
            foo: field(value, "foo")?,
            bar: field(value, "bar")?,
            baz: field(value, "baz")?,
            child: field(value, "child")?,
            private: field(value, "private")?,
        })
    }

    fn default_node() -> Parent {
        Parent::empty()
    }
}

#[test]
fn custom_function_name() {
    let mut child = Child::new();
    let runner = NodeRunner { tokens: vec!(
        NodeToken::Custom(String::from("action_name"), vec!(String::from("7")))
    )};
    assert_eq!(child.node_step(runner), String::from(""));
    assert_eq!(child.qux, 420);
}

#[test]
fn custom_same_name() {
    let mut child = Child::new();
    let runner = NodeRunner { tokens: vec!(
        NodeToken::Custom(String::from("same_name"), vec!())
    )};
    assert_eq!(child.node_step(runner), String::from("basic action"));
    assert_eq!(child.qux, 413);
}

#[test]
fn test_get_struct() {
    let output =
r#"{
  "foo": "hiya",
  "bar": 42,
  "baz": true,
  "child": {
    "qux": -13
  },
  "private": 1337
}"#;
    assert_eq!(
        Parent::new().node_step(NodeRunner { tokens: vec!(NodeToken::Get) }),
        String::from(output)
    );
}

#[test]
fn test_set_struct() {
    let mut parent = Parent::new();
    let runner = NodeRunner { tokens: vec!( NodeToken::SetValue(
        String::from(r#"{"foo":"Memes","bar":42,"baz":true,"child":{"qux":1337},"private":-1}"#)
    ) )};
    assert_eq!(parent.node_step(runner), String::from(""));
    assert_eq!(parent.foo, String::from("Memes"));
    assert_eq!(parent.bar, 42);
    assert_eq!(parent.baz, true);
    assert_eq!(parent.child.qux, 1337);
    assert_eq!(parent.private, -1);
}

#[test]
fn test_no_property() {
    let runner = NodeRunner { tokens: vec!(
        NodeToken::Get,
        NodeToken::ChainProperty(String::from("notfoo")),
    )};
    assert_eq!(Parent::new().node_step(runner), String::from("Parent does not have a property 'notfoo'"));
}

#[test]
fn test_private_property() {
    let runner = NodeRunner { tokens: vec!(
        NodeToken::Get,
        NodeToken::ChainProperty(String::from("private")),
    )};
    assert_eq!(Parent::new().node_step(runner), String::from("Parent does not have a property 'private'"));
}

#[test]
fn test_string_property() {
    let runner = NodeRunner { tokens: vec!(
        NodeToken::Get,
        NodeToken::ChainProperty(String::from("foo")),
    )};
    assert_eq!(Parent::new().node_step(runner), String::from("hiya"));
}

#[test]
fn test_uint_property() {
    let runner = NodeRunner { tokens: vec!(
        NodeToken::Get,
        NodeToken::ChainProperty(String::from("bar")),
    )};
    assert_eq!(Parent::new().node_step(runner), String::from("42"));
}

#[test]
fn test_bool_property() {
    let runner = NodeRunner { tokens: vec!(
        NodeToken::Get,
        NodeToken::ChainProperty(String::from("baz")),
    )};
    assert_eq!(Parent::new().node_step(runner), String::from("true"));
}

#[test]
fn test_int_child_property() {
    let runner = NodeRunner { tokens: vec!(
        NodeToken::Get,
        NodeToken::ChainProperty(String::from("qux")),
        NodeToken::ChainProperty(String::from("child")),
    )};
    assert_eq!(Parent::new().node_step(runner), "-13");
}

#[test]
fn default_struct() {
    let runner = NodeRunner { tokens: vec!(NodeToken::SetDefault) };
    let mut parent = Parent::new();
    assert_eq!(parent.node_step(runner), String::from(""));
    assert_eq!(parent.foo, String::new());
    assert_eq!(parent.bar, 0);
    assert_eq!(parent.baz, false);
    assert_eq!(parent.child.qux, 0);
    assert_eq!(parent.private, 0);
}

#[test]
fn variant_struct() {
    let runner = NodeRunner { tokens: vec!(NodeToken::SetVariant(String::from("something"))) };
    let mut parent = Parent::new();
    assert_eq!(parent.node_step(runner), String::from("Parent cannot \'SetVariant(\"something\")\'"));
}

#[test]
fn help_struct_parent() {
    let output = r#"
Parent Help

Actions:
*   help  - display this help
*   get   - display JSON
*   set   - set to JSON
*   copy  - copy the values from this struct
*   paste - paste the copied values to this struct
*   reset - reset to default values

Accessors:
*   foo - String
*   bar - u32
*   baz - bool
*   child - Child"#;
    let mut parent = Parent::new();
    let runner = NodeRunner { tokens: vec!(NodeToken::Help) };
    assert_eq!(parent.node_step(runner), String::from(output));
}

#[test]
fn help_struct_child() {
    let output = r#"
Child Help

Actions:
*   help  - display this help
*   get   - display JSON
*   set   - set to JSON
*   copy  - copy the values from this struct
*   paste - paste the copied values to this struct
*   reset - reset to default values
*   action_name - add the first argument to qux
*   same_name

Accessors:
*   qux - i32"#;
    let mut parent = Child::new();
    let runner = NodeRunner { tokens: vec!(NodeToken::Help) };
    assert_eq!(parent.node_step(runner), String::from(output));
}

#[test]
fn copy_paste_struct() {
    let copy_token  = NodeRunner { tokens: vec!(NodeToken::CopyFrom) };
    let paste_token = NodeRunner { tokens: vec!(NodeToken::PasteTo) };
    let mut clipboard = Clipboard::new();

    let mut a = Parent::new();
    let mut b = Parent::empty();

    assert_eq!(b.node_step_with(paste_token.clone(), &mut clipboard), "Parent has not been copied");
    assert_eq!(a.node_step_with(copy_token, &mut clipboard), "");
    assert_eq!(a.bar, 42);
    assert_eq!(a.child.qux, -13);

    assert_eq!(b.bar, 0);
    assert_eq!(b.child.qux, 0);
    assert_eq!(b.node_step_with(paste_token.clone(), &mut clipboard), "");
    assert_eq!(b.bar, 42);
    assert_eq!(b.child.qux, -13);
    assert_eq!(a.child.qux, -13);

    // each kind of aggregate has a copy of its own
    let mut c = Child::new();
    assert_eq!(c.node_step_with(paste_token.clone(), &mut clipboard), "Child has not been copied");
    assert_eq!(c.qux, 413);
}

#[test]
fn set_struct_fail() {
    let mut parent = Parent::new();
    let runner = NodeRunner { tokens: vec!( NodeToken::SetValue(String::from(r#"{"foo":"Memes","bar":-42}"#)) )};
    assert_eq!(parent.node_step(runner), "Parent set Error: Invalid value for u32 (needs to be: A number from 0 to 4,294,967,295)");
    assert_eq!(parent.foo, String::from("hiya"));
    assert_eq!(parent.bar, 42);

    let runner = NodeRunner { tokens: vec!( NodeToken::SetValue(String::from(r#"{"foo":"Memes""#)) )};
    assert_eq!(parent.node_step(runner), "Parent set Error: EOF while parsing an object at line 1 column 14");
    assert_eq!(parent.foo, String::from("hiya"));
}

/*
 * An enum
 */


enum SomeEnum {
    Foo,
    Bar,
    Qux (u8),
    Quux (i64, String, bool),
    GenericInStruct {generic: Vec<usize>},
}

impl Node for SomeEnum {
    type Model = SomeEnum;

    fn node_step_with(&mut self, mut runner: NodeRunner, clipboard: &mut Clipboard) -> String {
        match runner.step() {
            NodeToken::ChainProperty(property) => match self {
                SomeEnum::GenericInStruct { generic } => match property.as_str() {
                    "generic" => generic.node_step_with(runner, clipboard),
                    other => missing_property("GenericInStruct", other),
                },
                SomeEnum::Foo => missing_property("Foo", property.as_str()),
                SomeEnum::Bar => missing_property("Bar", property.as_str()),
                SomeEnum::Qux(_) => missing_property("Qux", property.as_str()),
                SomeEnum::Quux(_, _, _) => missing_property("Quux", property.as_str()),
            },
            NodeToken::ChainIndex(index) => match self {
                SomeEnum::Qux(x0) => match index {
                    0 => x0.node_step_with(runner, clipboard),
                    _ => variant_index(index, "Qux", 0),
                },
                SomeEnum::Quux(x0, x1, x2) => match index {
                    0 => x0.node_step_with(runner, clipboard),
                    1 => x1.node_step_with(runner, clipboard),
                    2 => x2.node_step_with(runner, clipboard),
                    _ => variant_index(index, "Quux", 2),
                },
                SomeEnum::Foo => cannot_index("Foo"),
                SomeEnum::Bar => cannot_index("Bar"),
                SomeEnum::GenericInStruct { .. } => cannot_index("GenericInStruct"),
            },
            NodeToken::SetVariant(variant) => {
                *self = match variant.as_str() {
                    "Foo" => SomeEnum::Foo,
                    "Bar" => SomeEnum::Bar,
                    "Qux" => SomeEnum::Qux(u8::default_node()),
                    "Quux" => SomeEnum::Quux(i64::default_node(), String::default_node(), bool::default_node()),
                    "GenericInStruct" => SomeEnum::GenericInStruct { generic: Vec::default_node() },
                    other => return missing_variant("SomeEnum", other),
                };
                String::new()
            }
            NodeToken::Get => get_node(self),
            NodeToken::SetValue(value) => set_node(self, "SomeEnum", value.as_str()),
            NodeToken::CopyFrom => copy_node(self, "SomeEnum", clipboard),
            NodeToken::PasteTo => paste_node(self, "SomeEnum", clipboard),
            NodeToken::SetDefault => {
                *self = SomeEnum::default_node();
                String::new()
            }
            NodeToken::Help => enum_help(
                "SomeEnum",
                &pairs(&[]),
                &names(&["Foo", "Bar", "Qux", "Quux", "GenericInStruct"]),
                &vec!(
                    variant_heading("Qux"),
                    indexed_accessor(0, "u8"),
                    variant_heading("Quux"),
                    indexed_accessor(0, "i64"),
                    indexed_accessor(1, "String"),
                    indexed_accessor(2, "bool"),
                    variant_heading("GenericInStruct"),
                    named_accessor("generic", "Vec"),
                ),
            ),
            action => cannot("SomeEnum", &action),
        }
    }

    fn to_json(&self) -> serde_json::Value {
        match self {
            SomeEnum::Foo => String::from("Foo").to_json(),
            SomeEnum::Bar => String::from("Bar").to_json(),
            SomeEnum::Qux(x0) => fields_to_json(names(&["Qux"]), vec!(x0.to_json())).unwrap(),
            SomeEnum::Quux(x0, x1, x2) => fields_to_json(
                names(&["Quux"]),
                vec!((*x0, x1.clone(), *x2).to_json()),
            ).unwrap(),
            SomeEnum::GenericInStruct { generic } => fields_to_json(
                names(&["GenericInStruct"]),
                vec!(fields_to_json(names(&["generic"]), vec!(generic.to_json())).unwrap()),
            ).unwrap(),
        }
    }

    fn from_json(value: &serde_json::Value) -> Result<SomeEnum, String> {
        if let Ok(name) = String::from_json(value) {
            return match name.as_str() {
                "Foo" => Ok(SomeEnum::Foo),
                "Bar" => Ok(SomeEnum::Bar),
                other => Err(format!("unknown variant `{}`", other)),
            };
        }
        if let Some(inner) = field_from_json(value, "Qux") {
            return Ok(SomeEnum::Qux(u8::from_json(&inner)?));
        }
        if let Some(inner) = field_from_json(value, "Quux") {
            let fields: (i64, String, bool) = Node::from_json(&inner)?;
            return Ok(SomeEnum::Quux(fields.0, fields.1, fields.2));
        }
        if let Some(inner) = field_from_json(value, "GenericInStruct") {
            return Ok(SomeEnum::GenericInStruct { generic: field(&inner, "generic")? });
        }
        Err(String::from("unknown variant"))
    }

    fn default_node() -> SomeEnum {
        SomeEnum::Foo
    }
}

#[test]
fn help_of_an_enum() {
    let output = r#"
SomeEnum Help

Actions:
*   help    - display this help
*   get     - display JSON
*   set     - set to JSON
*   copy    - copy the values from this enum
*   paste   - paste the copied values to this enum
*   reset   - reset to default variant
*   variant - set to the specified variant

Valid variants:
*   Foo
*   Bar
*   Qux
*   Quux
*   GenericInStruct

Accessors:
Changes depending on which variant the enum is currently set to:

As Qux:
*   [0] - u8
As Quux:
*   [0] - i64
*   [1] - String
*   [2] - bool
As GenericInStruct:
*   .generic - Vec
"#;
    let mut some_enum = SomeEnum::Foo;
    let runner = NodeRunner { tokens: vec!(NodeToken::Help) };
    assert_eq!(some_enum.node_step(runner), String::from(output));

    let plain = enum_help("Plain", &pairs(&[("launch", "launches"), ("land", "")]), &names(&["A"]), &vec!());
    assert_eq!(plain, "\nPlain Help\n\nActions:\n*   help    - display this help\n*   get     - display JSON\n*   set     - set to JSON\n*   copy    - copy the values from this enum\n*   paste   - paste the copied values to this enum\n*   reset   - reset to default variant\n*   variant - set to the specified variant\n*   launch - launches\n*   land\n\nValid variants:\n*   A\n\n\n");
}

#[test]
fn the_variant_of_an_enum_decides_what_can_be_reached() {
    let mut some_enum = SomeEnum::Quux(-1, String::from("text"), true);
    let get = |token: NodeToken| NodeRunner { tokens: vec!(NodeToken::Get, token) };
    assert_eq!(some_enum.node_step(get(NodeToken::ChainIndex(1))), "text");
    assert_eq!(some_enum.node_step(get(NodeToken::ChainIndex(3))), "Used index 3 on a Quux (try a value between 0-2");
    assert_eq!(some_enum.node_step(get(NodeToken::ChainProperty(String::from("x")))), "Quux does not have a property 'x'");
    assert_eq!(some_enum.node_step(NodeRunner { tokens: vec!(NodeToken::Get) }), "{\n  \"Quux\": [\n    -1,\n    \"text\",\n    true\n  ]\n}");

    let variant = |name: &str| NodeRunner { tokens: vec!(NodeToken::SetVariant(String::from(name))) };
    assert_eq!(some_enum.node_step(variant("Nope")), "SomeEnum does not have a variant 'Nope'");
    assert!(matches!(some_enum, SomeEnum::Quux(-1, _, true)));
    assert_eq!(some_enum.node_step(variant("GenericInStruct")), "");
    assert_eq!(some_enum.node_step(get(NodeToken::ChainIndex(0))), "Cannot index GenericInStruct");
    assert_eq!(some_enum.node_step(get(NodeToken::ChainProperty(String::from("generic")))), "[]");
    assert_eq!(some_enum.node_step(variant("Bar")), "");
    assert_eq!(some_enum.node_step(NodeRunner { tokens: vec!(NodeToken::Get) }), "\"Bar\"");
    assert_eq!(some_enum.node_step(get(NodeToken::ChainIndex(0))), "Cannot index Bar");

    let set = |text: &str| NodeRunner { tokens: vec!(NodeToken::SetValue(String::from(text))) };
    assert_eq!(some_enum.node_step(set(r#"{"Qux": 7}"#)), "");
    assert!(matches!(some_enum, SomeEnum::Qux(7)));
    assert_eq!(some_enum.node_step(set(r#""Aether""#)), "SomeEnum set Error: unknown variant `Aether`");
    assert_eq!(some_enum.node_step(set(r#"{"Qux": 256}"#)), "SomeEnum set Error: Invalid value for u8 (needs to be: A number from 0 to 255)");
    assert!(matches!(some_enum, SomeEnum::Qux(7)));
    assert_eq!(some_enum.node_step(NodeRunner { tokens: vec!(NodeToken::SetDefault) }), "");
    assert!(matches!(some_enum, SomeEnum::Foo));
}

#[test]
fn the_fields_of_an_aggregate_keep_their_order() {
    assert!(fields_to_json(names(&["a", "a"]), vec!(1u8.to_json(), 2u8.to_json())).is_none());
    assert!(fields_to_json(names(&["a"]), vec!()).is_none());
    let object = fields_to_json(names(&["z", "a", "m"]), vec!(1u8.to_json(), true.to_json(), String::from("t").to_json())).unwrap();
    assert_eq!(serde_json::to_string(&object).unwrap(), r#"{"z":1,"a":true,"m":"t"}"#);
    assert_eq!(field_from_json(&object, "a"), Some(serde_json::Value::Bool(true)));
    assert_eq!(field_from_json(&object, "b"), None);
    assert_eq!(field_from_json(&serde_json::Value::Null, "a"), None);
    assert_eq!(struct_help("Empty", &pairs(&[]), &pairs(&[])), "\nEmpty Help\n\nActions:\n*   help  - display this help\n*   get   - display JSON\n*   set   - set to JSON\n*   copy  - copy the values from this struct\n*   paste - paste the copied values to this struct\n*   reset - reset to default values\n\nAccessors:");
}
