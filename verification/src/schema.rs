//! JSON schemas for the colour and shadow values that carry no schema of
//! their own.
//!
//! A colour's schema comes from elsewhere (the UI toolkit describes its own
//! colour type); these builders put it into the shapes that the components
//! store: an optional colour, a list of box shadows and an optional list of
//! box shadows.
use vstd::prelude::*;
use crate::json::{
    Json, JsonValue, items_model, json_array, json_object, json_string, lemma_items_model,
    members_model, push_member,
};

verus! {

/// `{ "type": ty }`
pub open spec fn type_schema(ty: Seq<char>) -> Json {
    Json::Object(seq![("type"@, Json::Str(ty))])
}

/// `{ "anyOf": [inner, { "type": "null" }] }`: what `inner` admits, and
/// `null` as well.
pub open spec fn nullable_schema(inner: Json) -> Json {
    Json::Object(seq![("anyOf"@, Json::Array(seq![inner, type_schema("null"@)]))])
}

/// `{ "type": "number", "format": "float" }`: a length in pixels.
pub open spec fn pixels_schema() -> Json {
    Json::Object(seq![("type"@, Json::Str("number"@)), ("format"@, Json::Str("float"@))])
}

/// `{ "type": "object", "properties": properties }`
pub open spec fn object_schema(properties: Seq<(Seq<char>, Json)>) -> Json {
    Json::Object(seq![("type"@, Json::Str("object"@)), ("properties"@, Json::Object(properties))])
}

/// The schema of one box shadow, given the schema of a colour.
pub open spec fn box_shadow_schema(color: Json) -> Json {
    object_schema(
        seq![
            ("color"@, color),
            ("offset"@, object_schema(seq![("x"@, pixels_schema()), ("y"@, pixels_schema())])),
            ("blur_radius"@, pixels_schema()),
            ("spread_radius"@, pixels_schema()),
            ("inset"@, type_schema("boolean"@)),
        ],
    )
}

/// `{ "type": "array", "items": box_shadow_schema(color) }`
pub open spec fn box_shadows_schema(color: Json) -> Json {
    Json::Object(seq![("type"@, Json::Str("array"@)), ("items"@, box_shadow_schema(color))])
}

fn type_schema_value(ty: &str) -> (r: JsonValue)
    ensures
        r@ == type_schema(ty@),
{
    let mut members: Vec<(String, JsonValue)> = Vec::new();
    push_member(&mut members, "type", json_string(ty));
    let r = json_object(members);
    proof {
        assert(members_model(members@) =~= seq![("type"@, Json::Str(ty@))]);
    }
    r
}

fn pixels_schema_value() -> (r: JsonValue)
    ensures
        r@ == pixels_schema(),
{
    let mut members: Vec<(String, JsonValue)> = Vec::new();
    push_member(&mut members, "type", json_string("number"));
    push_member(&mut members, "format", json_string("float"));
    let r = json_object(members);
    proof {
        assert(members_model(members@) =~= seq![
            ("type"@, Json::Str("number"@)),
            ("format"@, Json::Str("float"@)),
        ]);
    }
    r
}

fn object_schema_value(properties: Vec<(String, JsonValue)>) -> (r: JsonValue)
    ensures
        r@ == object_schema(members_model(properties@)),
{
    let mut members: Vec<(String, JsonValue)> = Vec::new();
    push_member(&mut members, "type", json_string("object"));
    push_member(&mut members, "properties", json_object(properties));
    let r = json_object(members);
    proof {
        assert(members_model(members@) =~= seq![
            ("type"@, Json::Str("object"@)),
            ("properties"@, Json::Object(members_model(properties@))),
        ]);
    }
    r
}

/// Wraps a schema so that `null` validates against it as well.
///
/// A schema given for a field replaces the whole schema that would have
/// been derived for it, nullability included, so optional fields need it
/// put back.
pub fn nullable(inner: JsonValue) -> (r: JsonValue)
    ensures
        r@ == nullable_schema(inner@),
        r@ == Json::Object(seq![("anyOf"@, Json::Array(seq![inner@, Json::Object(seq![("type"@, Json::Str("null"@))])]))]),
{
    let ghost inner_model = inner@;
    let mut alternatives: Vec<JsonValue> = Vec::new();
    alternatives.push(inner);
    alternatives.push(type_schema_value("null"));
    proof {
        lemma_items_model(alternatives@);
        assert(items_model(alternatives@) =~= seq![inner_model, type_schema("null"@)]);
    }
    let mut members: Vec<(String, JsonValue)> = Vec::new();
    push_member(&mut members, "anyOf", json_array(alternatives));
    let r = json_object(members);
    proof {
        assert(members_model(members@) =~= seq![
            ("anyOf"@, Json::Array(seq![inner_model, type_schema("null"@)])),
        ]);
    }
    r
}

/// Schema for an optional colour, given the schema of a colour.
pub fn option_hsla_schemar(color: JsonValue) -> (r: JsonValue)
    ensures
        r@ == nullable_schema(color@),
        r@ == Json::Object(seq![("anyOf"@, Json::Array(seq![color@, Json::Object(seq![("type"@, Json::Str("null"@))])]))]),
{
    nullable(color)
}

/// Schema for a list of box shadows, given the schema of a colour.
pub fn box_shadows_schemar(color: JsonValue) -> (r: JsonValue)
    ensures
        r@ == box_shadows_schema(color@),
        r@ == Json::Object(
            seq![
                ("type"@, Json::Str("array"@)),
                (
                    "items"@,
                    Json::Object(
                        seq![
                            ("type"@, Json::Str("object"@)),
                            (
                                "properties"@,
                                Json::Object(
                                    seq![
                                        ("color"@, color@),
                                        (
                                            "offset"@,
                                            Json::Object(
                                                seq![
                                                    ("type"@, Json::Str("object"@)),
                                                    (
                                                        "properties"@,
                                                        Json::Object(
                                                            seq![("x"@, Json::Object(seq![("type"@, Json::Str("number"@)), ("format"@, Json::Str("float"@))])), ("y"@, Json::Object(seq![("type"@, Json::Str("number"@)), ("format"@, Json::Str("float"@))]))],
                                                        ),
                                                    ),
                                                ],
                                            ),
                                        ),
                                        ("blur_radius"@, Json::Object(seq![("type"@, Json::Str("number"@)), ("format"@, Json::Str("float"@))])),
                                        ("spread_radius"@, Json::Object(seq![("type"@, Json::Str("number"@)), ("format"@, Json::Str("float"@))])),
                                        (
                                            "inset"@,
                                            Json::Object(seq![("type"@, Json::Str("boolean"@))]),
                                        ),
                                    ],
                                ),
                            ),
                        ],
                    ),
                ),
            ],
        ),
{
    let ghost color_model = color@;
    let mut offset: Vec<(String, JsonValue)> = Vec::new();
    push_member(&mut offset, "x", pixels_schema_value());
    push_member(&mut offset, "y", pixels_schema_value());
    proof {
        assert(members_model(offset@) =~= seq![("x"@, pixels_schema()), ("y"@, pixels_schema())]);
    }
    let mut properties: Vec<(String, JsonValue)> = Vec::new();
    push_member(&mut properties, "color", color);
    push_member(&mut properties, "offset", object_schema_value(offset));
    push_member(&mut properties, "blur_radius", pixels_schema_value());
    push_member(&mut properties, "spread_radius", pixels_schema_value());
    push_member(&mut properties, "inset", type_schema_value("boolean"));
    proof {
        assert(members_model(properties@) =~= seq![
            ("color"@, color_model),
            ("offset"@, object_schema(seq![("x"@, pixels_schema()), ("y"@, pixels_schema())])),
            ("blur_radius"@, pixels_schema()),
            ("spread_radius"@, pixels_schema()),
            ("inset"@, type_schema("boolean"@)),
        ]);
    }
    let shadow = object_schema_value(properties);
    let mut members: Vec<(String, JsonValue)> = Vec::new();
    push_member(&mut members, "type", json_string("array"));
    push_member(&mut members, "items", shadow);
    let r = json_object(members);
    proof {
        assert(members_model(members@) =~= seq![
            ("type"@, Json::Str("array"@)),
            ("items"@, box_shadow_schema(color_model)),
        ]);
    }
    r
}

/// Schema for an optional list of box shadows, given the schema of a colour.
pub fn option_box_shadows_schemar(color: JsonValue) -> (r: JsonValue)
    ensures
        r@ == nullable_schema(box_shadows_schema(color@)),
        r@ == Json::Object(seq![("anyOf"@, Json::Array(seq![Json::Object(
            seq![
                ("type"@, Json::Str("array"@)),
                (
                    "items"@,
                    Json::Object(
                        seq![
                            ("type"@, Json::Str("object"@)),
                            (
                                "properties"@,
                                Json::Object(
                                    seq![
                                        ("color"@, color@),
                                        (
                                            "offset"@,
                                            Json::Object(
                                                seq![
                                                    ("type"@, Json::Str("object"@)),
                                                    (
                                                        "properties"@,
                                                        Json::Object(
                                                            seq![("x"@, Json::Object(seq![("type"@, Json::Str("number"@)), ("format"@, Json::Str("float"@))])), ("y"@, Json::Object(seq![("type"@, Json::Str("number"@)), ("format"@, Json::Str("float"@))]))],
                                                        ),
                                                    ),
                                                ],
                                            ),
                                        ),
                                        ("blur_radius"@, Json::Object(seq![("type"@, Json::Str("number"@)), ("format"@, Json::Str("float"@))])),
                                        ("spread_radius"@, Json::Object(seq![("type"@, Json::Str("number"@)), ("format"@, Json::Str("float"@))])),
                                        (
                                            "inset"@,
                                            Json::Object(seq![("type"@, Json::Str("boolean"@))]),
                                        ),
                                    ],
                                ),
                            ),
                        ],
                    ),
                ),
            ],
        ), Json::Object(seq![("type"@, Json::Str("null"@))])]))]),
{
    nullable(box_shadows_schemar(color))
}

/// For every schema `s`, the nullable form of `s` is the object whose only
/// member is `"anyOf"`, holding exactly the two alternatives `s` and
/// `{"type": "null"}`, so that `null` always validates.
pub proof fn law_nullable_adds_null_alternative(s: Json)
    ensures
        nullable_schema(s) == Json::Object(seq![("anyOf"@, Json::Array(seq![s, Json::Object(seq![("type"@, Json::Str("null"@))])]))]),
        nullable_schema(s) is Object,
        nullable_schema(s)->Object_0.len() == 1,
        nullable_schema(s)->Object_0[0].0 == "anyOf"@,
        nullable_schema(s)->Object_0[0].1 == Json::Array(seq![s, Json::Object(seq![("type"@, Json::Str("null"@))])]),
{
}

/// For every colour schema `c`, the box-shadow list schema is an array whose
/// items are objects with properties `color` (exactly `c`, unchanged),
/// `offset` (an object of `x` and `y` pixel lengths), `blur_radius`,
/// `spread_radius` (pixel lengths: float numbers) and `inset` (a boolean).
pub proof fn law_box_shadows_shape(c: Json)
    ensures
        box_shadows_schema(c) == Json::Object(
            seq![
                ("type"@, Json::Str("array"@)),
                (
                    "items"@,
                    Json::Object(
                        seq![
                            ("type"@, Json::Str("object"@)),
                            (
                                "properties"@,
                                Json::Object(
                                    seq![
                                        ("color"@, c),
                                        (
                                            "offset"@,
                                            Json::Object(
                                                seq![
                                                    ("type"@, Json::Str("object"@)),
                                                    (
                                                        "properties"@,
                                                        Json::Object(
                                                            seq![("x"@, Json::Object(seq![("type"@, Json::Str("number"@)), ("format"@, Json::Str("float"@))])), ("y"@, Json::Object(seq![("type"@, Json::Str("number"@)), ("format"@, Json::Str("float"@))]))],
                                                        ),
                                                    ),
                                                ],
                                            ),
                                        ),
                                        ("blur_radius"@, Json::Object(seq![("type"@, Json::Str("number"@)), ("format"@, Json::Str("float"@))])),
                                        ("spread_radius"@, Json::Object(seq![("type"@, Json::Str("number"@)), ("format"@, Json::Str("float"@))])),
                                        (
                                            "inset"@,
                                            Json::Object(seq![("type"@, Json::Str("boolean"@))]),
                                        ),
                                    ],
                                ),
                            ),
                        ],
                    ),
                ),
            ],
        ),
        box_shadows_schema(c)->Object_0[1].0 == "items"@,
        box_shadows_schema(c)->Object_0[1].1->Object_0[1].0 == "properties"@,
        box_shadows_schema(c)->Object_0[1].1->Object_0[1].1->Object_0.len() == 5,
        box_shadows_schema(c)->Object_0[1].1->Object_0[1].1->Object_0[0] == ("color"@, c),
{
}

/// The optional forms are the nullable forms of the plain ones, for every
/// colour schema.
pub proof fn law_optional_schemas_are_nullable(c: Json)
    ensures
        nullable_schema(c) == Json::Object(seq![("anyOf"@, Json::Array(seq![c, Json::Object(seq![("type"@, Json::Str("null"@))])]))]),
        nullable_schema(box_shadows_schema(c)) == Json::Object(
            seq![("anyOf"@, Json::Array(seq![Json::Object(
            seq![
                ("type"@, Json::Str("array"@)),
                (
                    "items"@,
                    Json::Object(
                        seq![
                            ("type"@, Json::Str("object"@)),
                            (
                                "properties"@,
                                Json::Object(
                                    seq![
                                        ("color"@, c),
                                        (
                                            "offset"@,
                                            Json::Object(
                                                seq![
                                                    ("type"@, Json::Str("object"@)),
                                                    (
                                                        "properties"@,
                                                        Json::Object(
                                                            seq![("x"@, Json::Object(seq![("type"@, Json::Str("number"@)), ("format"@, Json::Str("float"@))])), ("y"@, Json::Object(seq![("type"@, Json::Str("number"@)), ("format"@, Json::Str("float"@))]))],
                                                        ),
                                                    ),
                                                ],
                                            ),
                                        ),
                                        ("blur_radius"@, Json::Object(seq![("type"@, Json::Str("number"@)), ("format"@, Json::Str("float"@))])),
                                        ("spread_radius"@, Json::Object(seq![("type"@, Json::Str("number"@)), ("format"@, Json::Str("float"@))])),
                                        (
                                            "inset"@,
                                            Json::Object(seq![("type"@, Json::Str("boolean"@))]),
                                        ),
                                    ],
                                ),
                            ),
                        ],
                    ),
                ),
            ],
        ), Json::Object(seq![("type"@, Json::Str("null"@))])]))],
        ),
{
}

} // verus!
