use colmena::expression::{nix_quote, NixExpression, SerializedNixExpression};

#[test]
fn test_nix_quote() {
    let cases = [
        (r#"["a", "b"]"#, r#""[\"a\", \"b\"]""#),
        (
            r#"["\"a\"", "\"b\""]"#,
            r#""[\"\\\"a\\\"\", \"\\\"b\\\"\"]""#,
        ),
        (r#"${dontExpandMe}"#, r#""\${dontExpandMe}""#),
        (r#"\${dontExpandMe}"#, r#""\\\${dontExpandMe}""#),
    ];

    for (orig, quoted) in cases {
        assert_eq!(quoted, nix_quote(orig));
    }
}

#[test]
fn dollar_signs_without_brace_stay() {
    assert_eq!(nix_quote("$5 {x} $$ $\\{"), r#""$5 {x} $$ $\\{""#);
    assert_eq!(nix_quote(""), r#""""#);
    assert_eq!(nix_quote("$${a}"), r#""$\${a}""#);
}

#[test]
fn string_is_its_own_expression() {
    let expression = "{ }".to_string();
    assert_eq!(expression.expression(), "{ }");
    assert_eq!(expression.installable(), None);
    assert!(!expression.requires_flakes());
}

#[test]
fn json_values_become_from_json_calls() {
    let list = serde_json::Value::Array(vec![
        serde_json::Value::String("a".to_string()),
        serde_json::Value::String("${b}\r".to_string()),
        serde_json::Value::Bool(true),
        serde_json::Value::Null,
    ]);
    let expression = SerializedNixExpression::new(&list);
    assert_eq!(
        expression.expression(),
        r#"(builtins.fromJSON "[\"a\",\"\${b}\\r\",true,null]")"#
    );
    assert_eq!(expression.installable(), None);

    let expression = SerializedNixExpression::from_json("1");
    assert_eq!(expression.expression(), r#"(builtins.fromJSON "1")"#);
}
