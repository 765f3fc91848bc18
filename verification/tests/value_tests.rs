use runner::value::{GuestEntry, GuestValue, ValueKind};

fn text(s: &str) -> GuestValue {
    GuestValue::Text(s.to_string())
}

fn every_kind() -> Vec<(GuestValue, ValueKind, &'static str, &'static str)> {
    vec![
        (GuestValue::Nil, ValueKind::Nil, "nil", "nil"),
        (GuestValue::Boolean(true), ValueKind::Boolean, "boolean", "true"),
        (GuestValue::Boolean(false), ValueKind::Boolean, "boolean", "false"),
        (GuestValue::Integer(-7), ValueKind::Integer, "integer", "-7"),
        (GuestValue::Float(1.5f64.to_string()), ValueKind::Float, "number", "1.5"),
        (GuestValue::Float(3.0f64.to_string()), ValueKind::Float, "number", "3"),
        (text("héllo"), ValueKind::Str, "string", "héllo"),
        (GuestValue::Bytes(vec![0xff, 0xfe]), ValueKind::Str, "string", "<invalid utf8>"),
        (GuestValue::Sequence(vec![GuestValue::Integer(1)]), ValueKind::Table, "table", "table"),
        (
            GuestValue::Record(vec![GuestEntry { key: text("k"), item: GuestValue::Nil }]),
            ValueKind::Table,
            "table",
            "table",
        ),
        (GuestValue::Function, ValueKind::Function, "function", "function"),
        (GuestValue::Thread, ValueKind::Thread, "thread", "thread"),
        (GuestValue::UserData, ValueKind::UserData, "userdata", "userdata"),
        (GuestValue::Error("boom".to_string()), ValueKind::Error, "error", "boom"),
    ]
}

#[test]
fn each_value_has_its_kind_and_name() {
    for (value, kind, name, _) in every_kind() {
        assert_eq!(value.kind(), kind);
        assert_eq!(value.kind().name_text(), name);
    }
}

#[test]
fn each_value_renders_as_its_text_or_placeholder() {
    for (value, _, _, rendered) in every_kind() {
        assert_eq!(value.render(), rendered);
    }
}

#[test]
fn a_float_that_is_integral_has_no_fraction_in_its_text() {
    assert_eq!(GuestValue::Float(42.0f64.to_string()).render(), "42");
    assert_eq!(GuestValue::Float(0.1f64.to_string()).render(), "0.1");
    assert_eq!(GuestValue::Float((0.1f64 + 0.2f64).to_string()).render(), "0.30000000000000004");
}

#[test]
fn the_primitive_kinds_are_the_scalars_and_strings() {
    for (value, kind, _, _) in every_kind() {
        let expected = matches!(
            value,
            GuestValue::Nil
                | GuestValue::Boolean(_)
                | GuestValue::Integer(_)
                | GuestValue::Float(_)
                | GuestValue::Text(_)
                | GuestValue::Bytes(_)
        );
        assert_eq!(kind.primitive(), expected);
    }
}

#[test]
fn a_clone_is_a_deep_copy() {
    let nested = GuestValue::Record(vec![
        GuestEntry {
            key: text("list"),
            item: GuestValue::Sequence(vec![
                GuestValue::Integer(1),
                text("two"),
                GuestValue::Sequence(vec![]),
            ]),
        },
        GuestEntry { key: GuestValue::Integer(3), item: GuestValue::Bytes(vec![1, 2, 3]) },
    ]);
    assert_eq!(nested.clone(), nested);
    for (value, _, _, _) in every_kind() {
        assert_eq!(value.clone(), value);
    }
}
