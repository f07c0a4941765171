use qmk_xap::aggregation::XAPConstants as Grouped;
use qmk_xap::constants::{parse_keycode_key, KeyCode, XAPConstants};

fn keycode(code: u16, key: &str, group: Option<&str>, label: Option<&str>) -> KeyCode {
    KeyCode {
        code,
        key: key.to_string(),
        group: group.map(|g| g.to_string()),
        label: label.map(|l| l.to_string()),
        aliases: vec![],
    }
}

#[test]
fn custom_keycode() {
    let k = KeyCode::new_custom(1234);
    assert_eq!(k.code, 1234);
    assert_eq!(k.key, "USER-CUSTOM-1234");
    assert_eq!(k.group.as_deref(), Some("USER-CUSTOM"));
    assert_eq!(k.label.as_deref(), Some("1234"));
    assert!(k.aliases.is_empty());
    assert_eq!(KeyCode::new_custom(0).key, "USER-CUSTOM-0");
    assert_eq!(KeyCode::new_custom(65535).label.as_deref(), Some("65535"));
}

#[test]
fn keycode_labels() {
    let mut a = keycode(4, "KC_A", Some("basic"), Some("A"));
    a.aliases = vec!["A".to_string(), "a".to_string()];
    let constants = XAPConstants::new(vec![
        keycode(0, "KC_NO", Some("internal"), None),
        keycode(1, "KC_TRANSPARENT", Some("internal"), None),
        a,
        keycode(0x5221, "MO", None, Some("?")),
    ]);
    let no = constants.get_keycode(0);
    assert_eq!((no.key.as_str(), no.label.as_deref()), ("KC_NO", Some("KC_NO")));
    assert_eq!(constants.get_keycode(1).label.as_deref(), Some(""));
    let a = constants.get_keycode(4);
    assert_eq!((a.key.as_str(), a.label.as_deref()), ("KC_A", Some("A")));
    assert_eq!(a.aliases, vec!["A".to_string(), "a".to_string()]);
    assert_eq!(constants.get_keycode(0x5221).label.as_deref(), Some("MO(1)"));
    assert_eq!(constants.get_keycode(0x523F).label.as_deref(), Some("MO(31)"));
    let td = constants.get_keycode(0x5710);
    assert_eq!((td.key.as_str(), td.label.as_deref()), ("USER-CUSTOM-22288", Some("TD(16)")));
    let other = constants.get_keycode(0x7000);
    assert_eq!(other.label.as_deref(), Some("28672"));
}

#[test]
fn later_keycodes_win() {
    let constants = XAPConstants::new(vec![
        keycode(5, "KC_B", Some("basic"), Some("B")),
        keycode(5, "KC_BB", Some("basic"), Some("BB")),
        keycode(6, "KC_C", Some("basic"), Some("C")),
    ]);
    assert_eq!(constants.keycodes.len(), 2);
    assert_eq!(constants.get_keycode(5).key, "KC_BB");
    assert_eq!(constants.get_keycode(6).key, "KC_C");
}

fn keycodes_from_hjson(input: &str) -> Vec<KeyCode> {
    let doc: serde_json::Value = deser_hjson::from_str(input).expect("deserialization failed");
    let table = doc["keycodes"].as_object().expect("keycodes table");
    table
        .iter()
        .map(|(raw_code, entry)| {
            let text = |name: &str| entry.get(name).and_then(|v| v.as_str()).map(|s| s.to_string());
            let aliases = entry
                .get("aliases")
                .and_then(|v| v.as_array())
                .map(|a| a.iter().filter_map(|s| s.as_str().map(|s| s.to_string())).collect())
                .unwrap_or_default();
            KeyCode::from_table_entry(
                raw_code,
                text("key").expect("key"),
                text("group"),
                text("label"),
                aliases,
            )
            .expect("keycode")
        })
        .collect()
}

fn assert_keycode(k: &KeyCode, code: u16, group: &str, key: &str, label: Option<&str>, aliases: &[&str]) {
    assert_eq!(k.code, code);
    assert_eq!(k.group.as_deref(), Some(group));
    assert_eq!(k.key, key);
    assert_eq!(k.label.as_deref(), label);
    assert_eq!(k.aliases, aliases.iter().map(|a| a.to_string()).collect::<Vec<_>>());
}

#[test]
pub fn deserialize() {
    let input = r#"{
        "keycodes": {
            "0x0000": {
                "group": "internal",
                "key": "KC_NO",
                "label": "",
                "aliases": [
                    "XXXXXXX"
                ]
            },
            "0x0001": {
                "group": "internal",
                "key": "KC_TRANSPARENT",
                "label": "",
                "aliases": [
                    "_______",
                    "KC_TRNS"
                ]
            },
            "0x0004": {
                "group": "basic",
                "key": "KC_A",
                "label": "A"
            },
            "0x0005": {
                "group": "basic",
                "key": "KC_B",
                "label": "B"
            }
        }
    }"#;

    let codes = XAPConstants::new(keycodes_from_hjson(input));

    assert_eq!(codes.keycodes.len(), 4);
    assert_keycode(&codes.keycodes[&0], 0, "internal", "KC_NO", None, &["XXXXXXX"]);
    assert_keycode(&codes.keycodes[&1], 1, "internal", "KC_TRANSPARENT", None, &["_______", "KC_TRNS"]);
    assert_keycode(&codes.keycodes[&4], 4, "basic", "KC_A", Some("A"), &[]);
    assert_keycode(&codes.keycodes[&5], 5, "basic", "KC_B", Some("B"), &[]);
}

#[test]
fn keycode_keys() {
    assert_eq!(parse_keycode_key("0x0000"), Some(0));
    assert_eq!(parse_keycode_key("0x5220"), Some(0x5220));
    assert_eq!(parse_keycode_key("0xffFF"), Some(0xFFFF));
    assert_eq!(parse_keycode_key("0x0x12"), Some(0x12));
    assert_eq!(parse_keycode_key("1A"), Some(0x1A));
    assert_eq!(parse_keycode_key("0x"), None);
    assert_eq!(parse_keycode_key(""), None);
    assert_eq!(parse_keycode_key("0x10000"), None);
    assert_eq!(parse_keycode_key("0x00000001"), Some(1));
    assert_eq!(parse_keycode_key("0xG1"), None);
    assert_eq!(parse_keycode_key("+1A"), Some(0x1A));
    assert_eq!(parse_keycode_key("0x+ff"), Some(0xFF));
    assert_eq!(parse_keycode_key("+"), None);
    assert_eq!(parse_keycode_key("-1"), None);
    assert_eq!(parse_keycode_key("++1"), None);
    assert!(KeyCode::from_table_entry("zz", "K".to_string(), None, None, vec![]).is_none());
}

#[test]
fn keycodes_grouped_by_category() {
    let grouped = Grouped::from_keycodes(vec![
        keycode(4, "KC_A", Some("basic"), Some("A")),
        keycode(0x7000, "X", None, None),
        keycode(5, "KC_B", Some("basic"), Some("B")),
        keycode(0, "KC_NO", Some("internal"), None),
    ]);
    let names: Vec<&str> = grouped.keycodes.iter().map(|c| c.name.as_str()).collect();
    assert_eq!(names, vec!["basic", "other", "internal"]);
    let basic: Vec<u16> = grouped.keycodes[0].codes.iter().map(|k| k.code).collect();
    assert_eq!(basic, vec![4, 5]);
    assert_eq!(grouped.keycodes[1].codes[0].code, 0x7000);
    assert!(Grouped::from_keycodes(vec![]).keycodes.is_empty());
}
