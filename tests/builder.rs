use ledmatrix::blocks::Block;
use ledmatrix::builder::build_config;
use ledmatrix::color::Color;
use ledmatrix::document::{ConfigError, Json};
use ledmatrix::number::Number;
use ledmatrix::store::RenderState;
use ledmatrix::vars::{data_from_obj, parse_vars, Position, RealColor};

fn num(n: u64) -> Json {
    Json::Number(Number::from_parts(true, n, 0))
}

fn obj(members: Vec<(&str, Json)>) -> Json {
    Json::Object(members.into_iter().map(|(k, v)| (k.to_string(), v)).collect())
}

fn arr(items: Vec<Json>) -> Json {
    Json::Array(items)
}

fn vars_doc() -> Json {
    obj(vec![
        ("float", arr(vec![num(0), num(0), num(0), Json::Number(Number::from_parts(false, 15, -1))])),
        ("position", arr(vec![obj(vec![("x", num(1)), ("y", num(2))])])),
        ("color", arr(vec![obj(vec![("r", num(1)), ("g", num(2)), ("b", num(3))])])),
        ("rcolor", arr(vec![obj(vec![("r", num(1)), ("g", num(0)), ("b", num(0))])])),
        ("data", arr(vec![Json::Str("AQID".to_string())])),
    ])
}

fn add_block() -> Json {
    obj(vec![
        ("type", Json::Str("scalar_add".to_string())),
        ("inputs", obj(vec![("a", num(1)), ("b", num(2))])),
        ("outputs", obj(vec![("o", num(3))])),
    ])
}

#[test]
fn vars_are_read_container_by_container() {
    let v = parse_vars(&vars_doc()).unwrap();
    assert_eq!(v.scalars.len(), 4);
    assert_eq!(v.scalars[3], Number::from_parts(false, 15, -1));
    assert_eq!(v.positions, vec![Position { x: Number::from_parts(true, 1, 0), y: Number::from_parts(true, 2, 0) }]);
    assert_eq!(v.colors, vec![Color::new(1, 2, 3)]);
    assert_eq!(v.rcolors[0].r, Number::from_parts(true, 1, 0));
    assert_eq!(v.data, vec![vec![1u8, 2, 3]]);
}

#[test]
fn data_is_base64_decoded() {
    assert_eq!(data_from_obj(&Json::Str("aGVsbG8=".to_string())).unwrap(), b"hello".to_vec());
    assert_eq!(data_from_obj(&Json::Str(String::new())).unwrap(), Vec::<u8>::new());
}

#[test]
fn bad_base64_is_refused() {
    assert_eq!(data_from_obj(&Json::Str("not base64!".to_string())), Err(ConfigError::BadData));
    assert_eq!(data_from_obj(&num(3)), Err(ConfigError::WrongType));
}

#[test]
fn color_channel_out_of_range_is_refused() {
    let c = obj(vec![("r", num(256)), ("g", num(2)), ("b", num(3))]);
    assert_eq!(Color::from_obj(&c), Err(ConfigError::WrongType));
    let c = obj(vec![("r", num(1)), ("b", num(3))]);
    assert_eq!(Color::from_obj(&c), Err(ConfigError::Missing));
}

#[test]
fn real_color_reads_numbers() {
    let c = obj(vec![("r", num(1)), ("g", num(0)), ("b", Json::Null)]);
    assert_eq!(RealColor::from_obj(&c), Err(ConfigError::WrongType));
}

#[test]
fn missing_container_is_refused() {
    let d = obj(vec![("float", arr(vec![]))]);
    assert_eq!(parse_vars(&d).err(), Some(ConfigError::Missing));
}

#[test]
fn whole_document_builds() {
    let doc = obj(vec![("vars", vars_doc()), ("primitives", arr(vec![add_block(), add_block()]))]);
    let c = build_config(&doc).unwrap();
    assert_eq!(c.blocks.len(), 2);
    assert!(matches!(c.blocks[0], Block::ScalarAdd(_)));
    assert_eq!(c.vars.colors, vec![Color::new(1, 2, 3)]);
}

#[test]
fn one_bad_block_refuses_the_document() {
    let bad = obj(vec![("type", Json::Str("wave".to_string()))]);
    let doc = obj(vec![("vars", vars_doc()), ("primitives", arr(vec![add_block(), bad]))]);
    assert_eq!(build_config(&doc).err(), Some(ConfigError::UnknownBlock));
}

#[test]
fn document_needs_both_stanzas() {
    let doc = obj(vec![("primitives", arr(vec![]))]);
    assert_eq!(build_config(&doc).err(), Some(ConfigError::Missing));
    let doc = obj(vec![("vars", vars_doc())]);
    assert_eq!(build_config(&doc).err(), Some(ConfigError::Missing));
    let doc = obj(vec![("vars", vars_doc()), ("primitives", num(1))]);
    assert_eq!(build_config(&doc).err(), Some(ConfigError::WrongType));
}

#[test]
fn store_from_obj_is_all_or_nothing() {
    let mut s: RenderState<Number, Position, RealColor> = RenderState::new();
    s.from_obj(&vars_doc()).unwrap();
    assert_eq!(s.scalar_count(), 4);
    assert_eq!(s.get_data(0), Some(&vec![1u8, 2, 3]));
    let bad = obj(vec![("float", arr(vec![num(1)])), ("position", num(2))]);
    assert_eq!(s.from_obj(&bad), Err(ConfigError::WrongType));
    assert_eq!(s.scalar_count(), 4);
    assert_eq!(s.get_color(0), Some(Color::new(1, 2, 3)));
}
