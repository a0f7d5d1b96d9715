use vararg::config::{AttrToken, ContainerKind};
use vararg::signature::Param;
use vararg::template::ExpansionTemplate;
use vararg::vararg;

fn param(name: &str) -> Param {
    Param {
        name: name.to_string(),
        is_receiver: false,
    }
}

fn settings(text: &[&str]) -> Vec<AttrToken> {
    text.iter()
        .map(|t| match *t {
            "=" => AttrToken::Punct('='),
            "," => AttrToken::Punct(','),
            _ => AttrToken::Ident(t.to_string()),
        })
        .collect()
}

fn declare(attrs: &[&str], fn_name: &str, params: &[&str]) -> ExpansionTemplate {
    let params = params.iter().map(|p| param(p)).collect();
    vararg(&settings(attrs), &fn_name.to_string(), params).unwrap()
}

fn call(t: &ExpansionTemplate, args: &[&str]) -> Option<String> {
    let args: Vec<String> = args.iter().map(|a| a.to_string()).collect();
    t.expand(&args)
}

fn vararg_func_1() -> ExpansionTemplate {
    let t = declare(&["name", "=", "name_1", ",", "type", "=", "vec"], "vararg_func_1", &["a", "arr"]);
    assert_eq!(t.macro_name, "name_1");
    assert_eq!(t.kind, ContainerKind::Vector);
    t
}

#[test]
fn attrs_all_basic_0_last() {
    assert_eq!(
        Some("vararg_func_1(\"a\", vec![])".to_string()),
        call(&vararg_func_1(), &["\"a\""])
    );
}

#[test]
fn attrs_all_basic_1_last() {
    assert_eq!(
        Some("vararg_func_1(\"a\", vec![\"1\"])".to_string()),
        call(&vararg_func_1(), &["\"a\"", "\"1\""])
    );
}

#[test]
fn attrs_all_basic_2_last() {
    assert_eq!(
        Some("vararg_func_1(\"a\", vec![\"1\", \"2\"])".to_string()),
        call(&vararg_func_1(), &["\"a\"", "\"1\"", "\"2\""])
    );
}

#[test]
fn attrs_all_basic_many_last() {
    assert_eq!(
        Some("vararg_func_1(\"a\", vec![\"1\", \"2\", \"3\", \"4\", \"5\"])".to_string()),
        call(&vararg_func_1(), &["\"a\"", "\"1\"", "\"2\"", "\"3\"", "\"4\"", "\"5\""])
    );
}

fn vararg_func_2() -> ExpansionTemplate {
    let t = declare(&["type", "=", "slice", ",", "name", "=", "name_2"], "vararg_func_2", &["a", "arr"]);
    assert_eq!(t.macro_name, "name_2");
    assert_eq!(t.kind, ContainerKind::SliceRef);
    t
}

#[test]
fn attrs_all_reverse_0_last() {
    assert_eq!(
        Some("vararg_func_2(\"a\", &[])".to_string()),
        call(&vararg_func_2(), &["\"a\""])
    );
}

#[test]
fn attrs_all_reverse_1_last() {
    assert_eq!(
        Some("vararg_func_2(\"a\", &[\"1\"])".to_string()),
        call(&vararg_func_2(), &["\"a\"", "\"1\""])
    );
}

#[test]
fn attrs_all_reverse_2_last() {
    assert_eq!(
        Some("vararg_func_2(\"a\", &[\"1\", \"2\"])".to_string()),
        call(&vararg_func_2(), &["\"a\"", "\"1\"", "\"2\""])
    );
}

#[test]
fn attrs_all_reverse_many_last() {
    assert_eq!(
        Some("vararg_func_2(\"a\", &[\"1\", \"2\", \"3\", \"4\", \"5\"])".to_string()),
        call(&vararg_func_2(), &["\"a\"", "\"1\"", "\"2\"", "\"3\"", "\"4\"", "\"5\""])
    );
}

fn vararg_func_3() -> ExpansionTemplate {
    let t = declare(&["name", "=", "name_3", ",", "type", "=", "array", ","], "vararg_func_3", &["a", "arr"]);
    assert_eq!(t.macro_name, "name_3");
    assert_eq!(t.kind, ContainerKind::Array);
    t
}

#[test]
fn attrs_all_trailingcomma_0_last() {
    assert_eq!(
        Some("vararg_func_3(\"a\", [])".to_string()),
        call(&vararg_func_3(), &["\"a\""])
    );
}

#[test]
fn attrs_all_trailingcomma_1_last() {
    assert_eq!(
        Some("vararg_func_3(\"a\", [\"1\"])".to_string()),
        call(&vararg_func_3(), &["\"a\"", "\"1\""])
    );
}

#[test]
fn attrs_all_trailingcomma_2_last() {
    assert_eq!(
        Some("vararg_func_3(\"a\", [\"1\", \"2\"])".to_string()),
        call(&vararg_func_3(), &["\"a\"", "\"1\"", "\"2\""])
    );
}

#[test]
fn attrs_all_trailingcomma_many_last() {
    assert_eq!(
        Some("vararg_func_3(\"a\", [\"1\", \"2\", \"3\", \"4\", \"5\"])".to_string()),
        call(&vararg_func_3(), &["\"a\"", "\"1\"", "\"2\"", "\"3\"", "\"4\"", "\"5\""])
    );
}

fn vararg_func_4() -> ExpansionTemplate {
    let t = declare(&["type", "=", "array"], "vararg_func_4", &["a", "arr"]);
    assert_eq!(t.macro_name, "vararg_func_4");
    assert_eq!(t.kind, ContainerKind::Array);
    t
}

#[test]
fn attrs_array_0_last() {
    assert_eq!(
        Some("vararg_func_4(\"a\", [])".to_string()),
        call(&vararg_func_4(), &["\"a\""])
    );
}

#[test]
fn attrs_array_1_last() {
    assert_eq!(
        Some("vararg_func_4(\"a\", [\"1\"])".to_string()),
        call(&vararg_func_4(), &["\"a\"", "\"1\""])
    );
}

#[test]
fn attrs_array_2_last() {
    assert_eq!(
        Some("vararg_func_4(\"a\", [\"1\", \"2\"])".to_string()),
        call(&vararg_func_4(), &["\"a\"", "\"1\"", "\"2\""])
    );
}

#[test]
fn attrs_array_many_last() {
    assert_eq!(
        Some("vararg_func_4(\"a\", [\"1\", \"2\", \"3\", \"4\", \"5\"])".to_string()),
        call(&vararg_func_4(), &["\"a\"", "\"1\"", "\"2\"", "\"3\"", "\"4\"", "\"5\""])
    );
}

fn vararg_func_5() -> ExpansionTemplate {
    let t = declare(&["type", "=", "slice"], "vararg_func_5", &["a", "arr"]);
    assert_eq!(t.macro_name, "vararg_func_5");
    assert_eq!(t.kind, ContainerKind::SliceRef);
    t
}

#[test]
fn attrs_slice_0_last() {
    assert_eq!(
        Some("vararg_func_5(\"a\", &[])".to_string()),
        call(&vararg_func_5(), &["\"a\""])
    );
}

#[test]
fn attrs_slice_1_last() {
    assert_eq!(
        Some("vararg_func_5(\"a\", &[\"1\"])".to_string()),
        call(&vararg_func_5(), &["\"a\"", "\"1\""])
    );
}

#[test]
fn attrs_slice_2_last() {
    assert_eq!(
        Some("vararg_func_5(\"a\", &[\"1\", \"2\"])".to_string()),
        call(&vararg_func_5(), &["\"a\"", "\"1\"", "\"2\""])
    );
}

#[test]
fn attrs_slice_many_last() {
    assert_eq!(
        Some("vararg_func_5(\"a\", &[\"1\", \"2\", \"3\", \"4\", \"5\"])".to_string()),
        call(&vararg_func_5(), &["\"a\"", "\"1\"", "\"2\"", "\"3\"", "\"4\"", "\"5\""])
    );
}

fn vararg_func_6() -> ExpansionTemplate {
    let t = declare(&["type", "=", "vec"], "vararg_func_6", &["a", "arr"]);
    assert_eq!(t.macro_name, "vararg_func_6");
    assert_eq!(t.kind, ContainerKind::Vector);
    t
}

#[test]
fn attrs_vec_0_last() {
    assert_eq!(
        Some("vararg_func_6(\"a\", vec![])".to_string()),
        call(&vararg_func_6(), &["\"a\""])
    );
}

#[test]
fn attrs_vec_1_last() {
    assert_eq!(
        Some("vararg_func_6(\"a\", vec![\"1\"])".to_string()),
        call(&vararg_func_6(), &["\"a\"", "\"1\""])
    );
}

#[test]
fn attrs_vec_2_last() {
    assert_eq!(
        Some("vararg_func_6(\"a\", vec![\"1\", \"2\"])".to_string()),
        call(&vararg_func_6(), &["\"a\"", "\"1\"", "\"2\""])
    );
}

#[test]
fn attrs_vec_many_last() {
    assert_eq!(
        Some("vararg_func_6(\"a\", vec![\"1\", \"2\", \"3\", \"4\", \"5\"])".to_string()),
        call(&vararg_func_6(), &["\"a\"", "\"1\"", "\"2\"", "\"3\"", "\"4\"", "\"5\""])
    );
}

fn vararg_func_7() -> ExpansionTemplate {
    let t = declare(&["name", "=", "other_name"], "vararg_func_7", &["a", "arr"]);
    assert_eq!(t.macro_name, "other_name");
    assert_eq!(t.kind, ContainerKind::Array);
    t
}

#[test]
fn attrs_name_0_last() {
    assert_eq!(
        Some("vararg_func_7(\"a\", [])".to_string()),
        call(&vararg_func_7(), &["\"a\""])
    );
}

#[test]
fn attrs_name_1_last() {
    assert_eq!(
        Some("vararg_func_7(\"a\", [\"1\"])".to_string()),
        call(&vararg_func_7(), &["\"a\"", "\"1\""])
    );
}

#[test]
fn attrs_name_2_last() {
    assert_eq!(
        Some("vararg_func_7(\"a\", [\"1\", \"2\"])".to_string()),
        call(&vararg_func_7(), &["\"a\"", "\"1\"", "\"2\""])
    );
}

#[test]
fn attrs_name_many_last() {
    assert_eq!(
        Some("vararg_func_7(\"a\", [\"1\", \"2\", \"3\", \"4\", \"5\"])".to_string()),
        call(&vararg_func_7(), &["\"a\"", "\"1\"", "\"2\"", "\"3\"", "\"4\"", "\"5\""])
    );
}
