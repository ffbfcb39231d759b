use gpui_component::json::JsonValue;
use gpui_component::schema::{
    box_shadows_schemar, nullable, option_box_shadows_schemar, option_hsla_schemar,
};

/// Writes a value as compact JSON, members in their order.
fn render(v: &JsonValue) -> String {
    match v {
        JsonValue::Null => "null".to_string(),
        JsonValue::Bool(b) => b.to_string(),
        JsonValue::Number(n) => n.clone(),
        JsonValue::String(s) => format!("\"{}\"", s),
        JsonValue::Array(items) => {
            let parts: Vec<String> = items.iter().map(render).collect();
            format!("[{}]", parts.join(","))
        }
        JsonValue::Object(members) => {
            let parts: Vec<String> =
                members.iter().map(|(k, v)| format!("\"{}\":{}", k, render(v))).collect();
            format!("{{{}}}", parts.join(","))
        }
    }
}

/// A colour schema of the shape that the toolkit gives: an object with
/// numeric components.
fn color_schema() -> JsonValue {
    JsonValue::Object(vec![
        ("type".to_string(), JsonValue::String("object".to_string())),
        (
            "properties".to_string(),
            JsonValue::Object(vec![(
                "h".to_string(),
                JsonValue::Object(vec![
                    ("type".to_string(), JsonValue::String("number".to_string())),
                    ("maximum".to_string(), JsonValue::Number("1.0".to_string())),
                ]),
            )]),
        ),
    ])
}

const COLOR: &str = r#"{"type":"object","properties":{"h":{"type":"number","maximum":1.0}}}"#;

fn shadows(color: &str) -> String {
    let px = r#"{"type":"number","format":"float"}"#;
    format!(
        r#"{{"type":"array","items":{{"type":"object","properties":{{"color":{c},"offset":{{"type":"object","properties":{{"x":{px},"y":{px}}}}},"blur_radius":{px},"spread_radius":{px},"inset":{{"type":"boolean"}}}}}}}}"#,
        c = color,
        px = px
    )
}

#[test]
fn nullable_wraps_in_any_of_with_null() {
    let r = nullable(JsonValue::Object(vec![(
        "type".to_string(),
        JsonValue::String("string".to_string()),
    )]));
    assert_eq!(render(&r), r#"{"anyOf":[{"type":"string"},{"type":"null"}]}"#);
}

#[test]
fn nullable_of_boolean_schema() {
    let r = nullable(JsonValue::Bool(true));
    assert_eq!(render(&r), r#"{"anyOf":[true,{"type":"null"}]}"#);
}

#[test]
fn option_hsla_is_nullable_color() {
    let r = option_hsla_schemar(color_schema());
    assert_eq!(render(&r), format!(r#"{{"anyOf":[{},{{"type":"null"}}]}}"#, COLOR));
}

#[test]
fn box_shadows_schema_shape() {
    let r = box_shadows_schemar(color_schema());
    assert_eq!(render(&r), shadows(COLOR));
}

#[test]
fn option_box_shadows_is_nullable_box_shadows() {
    let r = option_box_shadows_schemar(color_schema());
    assert_eq!(render(&r), format!(r#"{{"anyOf":[{},{{"type":"null"}}]}}"#, shadows(COLOR)));
}

#[test]
fn box_shadows_carries_color_numbers_unchanged() {
    let r = box_shadows_schemar(color_schema());
    assert!(render(&r).contains(r#""maximum":1.0"#));
}
