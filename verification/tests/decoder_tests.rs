use gg::{parse_json, DecodeStringOrStruct, Json};

#[derive(Debug)]
struct Foo1 {
    foo: String,
    bar: String,
}

fn field<'a>(fields: &'a [(String, Json)], name: &str) -> Option<&'a Json> {
    fields.iter().find(|(k, _)| k == name).map(|(_, v)| v)
}

impl DecodeStringOrStruct for Foo1 {
    fn from_string(s: &String) -> Option<Foo1> {
        Some(Foo1 { foo: s.clone(), bar: "".to_string() })
    }

    fn from_object(fields: &Vec<(String, Json)>) -> Option<Foo1> {
        let foo = match field(fields, "foo") {
            Some(Json::Str(s)) => s.clone(),
            _ => return None,
        };
        let bar = match field(fields, "bar") {
            Some(Json::Str(s)) => s.clone(),
            _ => return None,
        };
        Some(Foo1 { foo, bar })
    }
}

fn root_value(text: &str) -> Json {
    let json = parse_json(text).unwrap();
    match json {
        Json::Obj(fields) => {
            let (k, v) = fields.into_iter().next().unwrap();
            assert_eq!(k, "root");
            v
        }
        _ => panic!("expected an object"),
    }
}

fn entry<'a>(entries: &'a [(String, Foo1)], name: &str) -> &'a Foo1 {
    &entries.iter().find(|(k, _)| k == name).unwrap().1
}

#[test]
fn de_string_or_struct() {
    let s = r#"{"root":"hello"}"#;
    let root: Foo1 = gg::de_string_or_struct(&root_value(s)).unwrap();
    assert_eq!(root.foo, "hello");
    assert_eq!(root.bar, "");

    let j = r#"{"root":{"foo": "hello", "bar": "world"}}"#;
    let root: Foo1 = gg::de_string_or_struct(&root_value(j)).unwrap();
    assert_eq!(root.foo, "hello");
    assert_eq!(root.bar, "world");
}

#[test]
fn de_string_or_struct_hashmap() {
    let s = r#"{"root":{"a": "hello"}}"#;
    let root: Vec<(String, Foo1)> = gg::de_string_or_struct_hashmap(&root_value(s)).unwrap();
    assert_eq!(root.len(), 1);
    let a = entry(&root, "a");
    assert_eq!(a.foo, "hello");
    assert_eq!(a.bar, "");

    let s = r#"{"root":{"a":{"foo": "hello", "bar": "world"}}}"#;
    let root: Vec<(String, Foo1)> = gg::de_string_or_struct_hashmap(&root_value(s)).unwrap();
    assert_eq!(root.len(), 1);
    let a = entry(&root, "a");
    assert_eq!(a.foo, "hello");
    assert_eq!(a.bar, "world");

    let s = r#"{"root":{"a":{"foo": "hello", "bar": "world"},"b":"bar"}}"#;
    let root: Vec<(String, Foo1)> = gg::de_string_or_struct_hashmap(&root_value(s)).unwrap();
    assert_eq!(root.len(), 2);
    let a = entry(&root, "a");
    assert_eq!(a.foo, "hello");
    assert_eq!(a.bar, "world");
    let b = entry(&root, "b");
    assert_eq!(b.foo, "bar");
    assert_eq!(b.bar, "");
}

#[test]
fn de_string_or_struct_rejects_other_shapes() {
    assert!(gg::de_string_or_struct::<Foo1>(&Json::Null).is_err());
    assert!(gg::de_string_or_struct::<Foo1>(&Json::Bool(true)).is_err());
    assert!(gg::de_string_or_struct_hashmap::<Foo1>(&Json::Str("x".to_string())).is_err());
}
