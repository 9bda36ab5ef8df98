//! The wire-format scenarios, driven through serde_json values built and
//! inspected by plain calls: the verified library validates every scalar,
//! while the JSON grammar itself stays with serde_json.

use serde_json::Value;
use usize_singleton::singleton::Usize;

fn field_u64(value: &Value, key: &str) -> u64 {
    value.get(key).and_then(Value::as_u64).unwrap()
}

#[test]
fn check_serde_struct() {
    let json = r#"{"thirty_three":33,"four":4}"#;

    // Decoding: each field's wire value is a bare numeric literal that must
    // resolve, through the widening chain, to the field's constant.
    let parsed: Value = serde_json::from_str(json).unwrap();
    let thirty_three: Usize<33> =
        Usize::<33>::decode_u64(field_u64(&parsed, "thirty_three")).unwrap();
    let four: Usize<4> = Usize::<4>::decode_u64(field_u64(&parsed, "four")).unwrap();

    // Encoding: each constant under its field key, no wrapper object.
    let cjson = format!(
        "{{\"thirty_three\":{},\"four\":{}}}",
        thirty_three.encode(),
        four.encode()
    );
    assert_eq!(json, cjson);

    // A mismatching field fails with a violation naming the expectation.
    let bad: Value = serde_json::from_str(r#"{"thirty_three":34,"four":4}"#).unwrap();
    let violation = Usize::<33>::decode_u64(field_u64(&bad, "thirty_three")).unwrap_err();
    assert_eq!(violation.message(), "number must be 33");
    assert_eq!(violation.received, 34);
}

/// The representational variants of the untagged union scenario, in their
/// declaration order. A record carrying the optional field also satisfies the
/// minimal shape, so `Additional` must be declared, and tried, before
/// `Minimal`: the first declared variant wins the overlap.
#[derive(Debug, PartialEq, Eq)]
enum Shape {
    Turple(Usize<1>, Usize<2>, Usize<3>),
    Additional { must: Usize<0>, optional: Usize<1> },
    Minimal { must: Usize<0> },
    Absent,
}

/// Selects the first variant, in declaration order, whose shape and
/// constants the wire value satisfies.
fn match_shape(value: &Value) -> Option<Shape> {
    if let Some(items) = value.as_array() {
        if items.len() == 3 {
            let first = Usize::<1>::decode_u64(items[0].as_u64()?).ok()?;
            let second = Usize::<2>::decode_u64(items[1].as_u64()?).ok()?;
            let third = Usize::<3>::decode_u64(items[2].as_u64()?).ok()?;
            return Some(Shape::Turple(first, second, third));
        }
        return None;
    }
    if let Some(fields) = value.as_object() {
        let must = Usize::<0>::decode_u64(fields.get("must")?.as_u64()?).ok()?;
        if let Some(extra) = fields.get("optional") {
            if let Ok(optional) = Usize::<1>::decode_u64(extra.as_u64()?) {
                return Some(Shape::Additional { must, optional });
            }
        }
        return Some(Shape::Minimal { must });
    }
    if value.is_null() {
        return Some(Shape::Absent);
    }
    None
}

fn encode_shape(shape: &Shape) -> String {
    match shape {
        Shape::Turple(first, second, third) => {
            format!("[{},{},{}]", first.encode(), second.encode(), third.encode())
        }
        Shape::Additional { must, optional } => {
            format!(
                "{{\"must\":{},\"optional\":{}}}",
                must.encode(),
                optional.encode()
            )
        }
        Shape::Minimal { must } => format!("{{\"must\":{}}}", must.encode()),
        Shape::Absent => String::from("null"),
    }
}

#[test]
fn check_serde_enum() {
    let tjson = "[1,2,3]";
    let mjson = r#"{"must":0}"#;
    let ajson = r#"{"must":0,"optional":1}"#;
    let njson = "null";

    let tdata = Shape::Turple(Usize::<1>::new(), Usize::<2>::new(), Usize::<3>::new());
    let mdata = Shape::Minimal { must: Usize::<0>::new() };
    let adata = Shape::Additional { must: Usize::<0>::new(), optional: Usize::<1>::new() };
    let ndata = Shape::Absent;

    let pairs = [(tjson, tdata), (mjson, mdata), (ajson, adata), (njson, ndata)];

    for (json, shape) in pairs.iter() {
        assert_eq!(*json, encode_shape(shape));
        let parsed: Value = serde_json::from_str(json).unwrap();
        assert_eq!(match_shape(&parsed).unwrap(), *shape);
    }

    // The documented ambiguity: a record with the optional field present
    // resolves to the first declared of the two overlapping variants.
    let overlap: Value = serde_json::from_str(ajson).unwrap();
    assert_eq!(
        match_shape(&overlap).unwrap(),
        Shape::Additional { must: Usize::<0>::new(), optional: Usize::<1>::new() }
    );
}
