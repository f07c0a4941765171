use vstd::prelude::*;

use std::collections::HashMap;

verus! {

broadcast use vstd::std_specs::hash::group_hash_axioms;

/// The decimal digits of a number.
pub open spec fn decimal(n: nat) -> Seq<char>
    decreases n,
{
    if n < 10 {
        seq![(48 + n) as char]
    } else {
        decimal(n / 10).push((48 + n % 10) as char)
    }
}

/// The one-character text of a decimal digit.
fn digit_text(d: u16) -> (r: &'static str)
    requires
        d < 10,
    ensures
        r@ == seq![(48 + d) as char],
{
    match d {
        0 => {
            proof {
                reveal_strlit("0");
            }
            "0"
        },
        1 => {
            proof {
                reveal_strlit("1");
            }
            "1"
        },
        2 => {
            proof {
                reveal_strlit("2");
            }
            "2"
        },
        3 => {
            proof {
                reveal_strlit("3");
            }
            "3"
        },
        4 => {
            proof {
                reveal_strlit("4");
            }
            "4"
        },
        5 => {
            proof {
                reveal_strlit("5");
            }
            "5"
        },
        6 => {
            proof {
                reveal_strlit("6");
            }
            "6"
        },
        7 => {
            proof {
                reveal_strlit("7");
            }
            "7"
        },
        8 => {
            proof {
                reveal_strlit("8");
            }
            "8"
        },
        _ => {
            proof {
                reveal_strlit("9");
            }
            "9"
        },
    }
}

/// The decimal digits of a number.
fn decimal_text(n: u16) -> (r: String)
    ensures
        r@ == decimal(n as nat),
    decreases n,
{
    if n < 10 {
        String::from_str(digit_text(n))
    } else {
        let mut r = decimal_text(n / 10);
        r.append(digit_text(n % 10));
        r
    }
}

/// One keycode of the keycode table.
#[derive(Debug)]
pub struct KeyCode {
    pub code: u16,
    pub key: String,
    pub group: Option<String>,
    pub label: Option<String>,
    pub aliases: Vec<String>,
}

/// The mathematical value of a [`KeyCode`].
pub struct KeyCodeView {
    pub code: u16,
    pub key: Seq<char>,
    pub group: Option<Seq<char>>,
    pub label: Option<Seq<char>>,
    pub aliases: Seq<Seq<char>>,
}

/// The characters of an optional text.
pub open spec fn text_view(o: Option<String>) -> Option<Seq<char>> {
    match o {
        Some(s) => Some(s@),
        None => None,
    }
}

/// The characters of each text of a list.
pub open spec fn texts_view(v: Seq<String>) -> Seq<Seq<char>> {
    v.map_values(|s: String| s@)
}

impl View for KeyCode {
    type V = KeyCodeView;

    open spec fn view(&self) -> KeyCodeView {
        KeyCodeView {
            code: self.code,
            key: self.key@,
            group: text_view(self.group),
            label: text_view(self.label),
            aliases: texts_view(self.aliases@),
        }
    }
}

/// The keycode that stands for a code missing from the table.
pub open spec fn custom_keycode(code: u16) -> KeyCodeView {
    KeyCodeView {
        code,
        key: "USER-CUSTOM-"@ + decimal(code as nat),
        group: Some("USER-CUSTOM"@),
        label: Some(decimal(code as nat)),
        aliases: Seq::empty(),
    }
}

/// The label shown for a code: fixed for the two lowest codes, computed for
/// the momentary-layer and tap-dance ranges, the table's label otherwise.
pub open spec fn display_label(code: u16, label: Option<Seq<char>>) -> Option<Seq<char>> {
    if code == 0 {
        Some("KC_NO"@)
    } else if code == 1 {
        Some(""@)
    } else if 0x5220 <= code <= 0x523F {
        Some("MO("@ + decimal((code - 0x5220) as nat) + ")"@)
    } else if 0x5700 <= code <= 0x57FF {
        Some("TD("@ + decimal((code - 0x5700) as nat) + ")"@)
    } else {
        label
    }
}

fn copy_text(o: &Option<String>) -> (r: Option<String>)
    ensures
        text_view(r) == text_view(*o),
{
    match o {
        Some(s) => Some(s.clone()),
        None => None,
    }
}

impl KeyCode {
    /// The keycode of a code that the table does not know.
    pub fn new_custom(code: u16) -> (r: KeyCode)
        ensures
            r@ == custom_keycode(code),
    {
        let r = KeyCode {
            code,
            key: String::from_str("USER-CUSTOM-").concat(decimal_text(code).as_str()),
            group: Some(String::from_str("USER-CUSTOM")),
            label: Some(decimal_text(code)),
            aliases: Vec::new(),
        };
        assert(texts_view(r.aliases@) =~= Seq::<Seq<char>>::empty());
        r
    }

    /// A copy of this keycode.
    pub fn duplicate(&self) -> (r: KeyCode)
        ensures
            r@ == self@,
    {
        let mut aliases: Vec<String> = Vec::new();
        let mut i: usize = 0;
        while i < self.aliases.len()
            invariant
                i <= self.aliases@.len(),
                aliases@.len() == i,
                texts_view(aliases@) == texts_view(self.aliases@.subrange(0, i as int)),
            decreases self.aliases@.len() - i,
        {
            let ghost before = aliases@;
            let c = self.aliases[i].clone();
            aliases.push(c);
            proof {
                let sub = self.aliases@.subrange(0, i + 1);
                assert(aliases@.len() == i + 1);
                assert(aliases@[i as int] == self.aliases@[i as int]);
                assert(texts_view(aliases@)[i as int] == aliases@[i as int]@);
                assert forall|k: int| 0 <= k < i + 1 implies texts_view(aliases@)[k] == texts_view(
                    sub,
                )[k] by {
                    if k < i {
                        assert(texts_view(before)[k] == texts_view(
                            self.aliases@.subrange(0, i as int),
                        )[k]);
                    }
                }
                assert(texts_view(aliases@) =~= texts_view(sub));
            }
            i = i + 1;
        }
        assert(self.aliases@.subrange(0, self.aliases@.len() as int) =~= self.aliases@);
        KeyCode {
            code: self.code,
            key: self.key.clone(),
            group: copy_text(&self.group),
            label: copy_text(&self.label),
            aliases,
        }
    }
}

/// A named group of keycodes.
#[derive(Debug)]
pub struct XapKeyCodeCategory {
    pub name: String,
    pub codes: Vec<KeyCode>,
}

/// The keycode table, keyed by code.
#[derive(Debug)]
pub struct XAPConstants {
    pub keycodes: HashMap<u16, KeyCode>,
}

impl XAPConstants {
    /// Builds the table from keycodes as they were read; where two share a
    /// code, the later one stands.
    pub fn new(keycodes: Vec<KeyCode>) -> (r: XAPConstants)
        ensures
            forall|c: u16|
                r.keycodes@.contains_key(c) <==> exists|i: int|
                    0 <= i < keycodes@.len() && keycodes@[i].code == c,
            forall|i: int|
                0 <= i < keycodes@.len() && (forall|j: int|
                    i < j < keycodes@.len() ==> keycodes@[j].code != keycodes@[i].code)
                    ==> r.keycodes@[keycodes@[i].code] == keycodes@[i],
    {
        let ghost orig = keycodes@;
        let mut rest = keycodes;
        let mut map: HashMap<u16, KeyCode> = HashMap::new();
        let ghost mut i: int = 0;
        while rest.len() > 0
            invariant
                0 <= i <= orig.len(),
                rest@ == orig.subrange(i, orig.len() as int),
                forall|c: u16|
                    map@.contains_key(c) <==> exists|j: int| 0 <= j < i && orig[j].code == c,
                forall|j: int|
                    0 <= j < i && (forall|j2: int| j < j2 < i ==> orig[j2].code != orig[j].code)
                        ==> map@[orig[j].code] == orig[j],
            decreases rest@.len(),
        {
            let k = rest.remove(0);
            assert(k == orig[i]);
            let ghost before = map@;
            map.insert(k.code, k);
            proof {
                assert forall|c: u16| map@.contains_key(c) implies exists|j: int|
                    0 <= j < i + 1 && orig[j].code == c by {
                    if c != orig[i].code {
                        assert(before.contains_key(c));
                    }
                }
                i = i + 1;
            }
        }
        assert(orig.subrange(0, orig.len() as int) =~= orig);
        XAPConstants { keycodes: map }
    }

    /// The keycode shown for a code: the table's entry, or a custom one for a
    /// code it lacks, with the label that [`display_label`] gives.
    pub fn get_keycode(&self, code: u16) -> (r: KeyCode)
        ensures
            ({
                let base = if self.keycodes@.contains_key(code) {
                    self.keycodes@[code]@
                } else {
                    custom_keycode(code)
                };
                r@ == KeyCodeView { label: display_label(code, base.label), ..base }
            }),
    {
        let mut keycode = match self.keycodes.get(&code) {
            Some(k) => k.duplicate(),
            None => KeyCode::new_custom(code),
        };
        if code == 0 {
            keycode.label = Some(String::from_str("KC_NO"));
        } else if code == 1 {
            keycode.label = Some(String::from_str(""));
        } else if 0x5220 <= code && code <= 0x523F {
            let digits = decimal_text(code - 0x5220);
            keycode.label = Some(
                String::from_str("MO(").concat(digits.as_str()).concat(")"),
            );
        } else if 0x5700 <= code && code <= 0x57FF {
            let digits = decimal_text(code - 0x5700);
            keycode.label = Some(
                String::from_str("TD(").concat(digits.as_str()).concat(")"),
            );
        }
        keycode
    }
}

/// The value of a hexadecimal digit.
pub open spec fn hex_digit(c: char) -> Option<nat> {
    if '0' <= c <= '9' {
        Some((c as nat - '0' as nat) as nat)
    } else if 'a' <= c <= 'f' {
        Some((c as nat - 'a' as nat + 10) as nat)
    } else if 'A' <= c <= 'F' {
        Some((c as nat - 'A' as nat + 10) as nat)
    } else {
        None
    }
}

/// Whether every character is a hexadecimal digit.
pub open spec fn all_hex(s: Seq<char>) -> bool {
    forall|i: int| 0 <= i < s.len() ==> hex_digit(s[i]) is Some
}

/// The number that a string of hexadecimal digits writes.
pub open spec fn hex_value(s: Seq<char>) -> nat
    decreases s.len(),
{
    if s.len() == 0 {
        0
    } else {
        hex_value(s.drop_last()) * 16 + hex_digit(s.last()).unwrap_or(0)
    }
}

/// The text after every leading `0x` is taken off.
pub open spec fn strip_hex_prefix(s: Seq<char>) -> Seq<char>
    decreases s.len(),
{
    if s.len() >= 2 && s[0] == '0' && s[1] == 'x' {
        strip_hex_prefix(s.subrange(2, s.len() as int))
    } else {
        s
    }
}

/// The text after one leading `+`, if there is one.
pub open spec fn unsigned_digits(s: Seq<char>) -> Seq<char> {
    if s.len() > 0 && s[0] == '+' {
        s.subrange(1, s.len() as int)
    } else {
        s
    }
}

/// The code that a key of the keycode table names: hexadecimal digits,
/// after any `0x` prefixes and an optional `+`, for a value that fits in 16
/// bits.
pub open spec fn keycode_of_key(s: Seq<char>) -> Option<u16> {
    let t = unsigned_digits(strip_hex_prefix(s));
    if t.len() > 0 && all_hex(t) && hex_value(t) < 0x10000 {
        Some(hex_value(t) as u16)
    } else {
        None
    }
}

proof fn lemma_hex_prefix_bounded(t: Seq<char>, k: int)
    requires
        0 <= k <= t.len(),
    ensures
        hex_value(t.subrange(0, k)) <= hex_value(t),
    decreases t.len(),
{
    if k < t.len() {
        lemma_hex_prefix_bounded(t.drop_last(), k);
        assert(t.drop_last().subrange(0, k) =~= t.subrange(0, k));
    } else {
        assert(t.subrange(0, k) =~= t);
    }
}

/// Reads the code that a key of the keycode table names.
pub fn parse_keycode_key(s: &str) -> (r: Option<u16>)
    ensures
        r == keycode_of_key(s@),
{
    let n = s.unicode_len();
    let mut i: usize = 0;
    assert(s@.subrange(0, n as int) =~= s@);
    while n - i >= 2 && s.get_char(i) == '0' && s.get_char(i + 1) == 'x'
        invariant
            i <= n == s@.len(),
            strip_hex_prefix(s@) == strip_hex_prefix(s@.subrange(i as int, n as int)),
        decreases n - i,
    {
        assert(s@.subrange(i + 2, n as int) =~= s@.subrange(i as int, n as int).subrange(
            2,
            (n - i) as int,
        ));
        i = i + 2;
    }
    let ghost stripped = s@.subrange(i as int, n as int);
    assert(strip_hex_prefix(stripped) == stripped);
    if i < n && s.get_char(i) == '+' {
        assert(s@.subrange(i + 1, n as int) =~= stripped.subrange(1, stripped.len() as int));
        i = i + 1;
    }
    let ghost t = s@.subrange(i as int, n as int);
    assert(unsigned_digits(strip_hex_prefix(s@)) == t);
    if i == n {
        return None;
    }
    let start = i;
    let mut acc: u32 = 0;
    while i < n
        invariant
            start <= i <= n == s@.len(),
            t == s@.subrange(start as int, n as int),
            unsigned_digits(strip_hex_prefix(s@)) == t,
            t.len() > 0,
            all_hex(s@.subrange(start as int, i as int)),
            acc as nat == hex_value(s@.subrange(start as int, i as int)),
            acc <= 0xFFFF,
        decreases n - i,
    {
        let c = s.get_char(i);
        let d: u32 = if '0' <= c && c <= '9' {
            c as u32 - '0' as u32
        } else if 'a' <= c && c <= 'f' {
            c as u32 - 'a' as u32 + 10
        } else if 'A' <= c && c <= 'F' {
            c as u32 - 'A' as u32 + 10
        } else {
            assert(!all_hex(t)) by {
                assert(t[i - start] == c);
            }
            return None;
        };
        let ghost prefix = s@.subrange(start as int, i + 1);
        assert(prefix.drop_last() =~= s@.subrange(start as int, i as int));
        assert(prefix.last() == c);
        if acc * 16 + d > 0xFFFF {
            proof {
                assert(hex_value(prefix) >= 0x10000);
                assert(prefix =~= t.subrange(0, i + 1 - start));
                if all_hex(t) {
                    lemma_hex_prefix_bounded(t, i + 1 - start);
                }
            }
            return None;
        }
        acc = acc * 16 + d;
        i = i + 1;
    }
    assert(s@.subrange(start as int, n as int) =~= t);
    Some(acc as u16)
}

impl KeyCode {
    /// A keycode as the table file writes it: keyed by its code in
    /// hexadecimal, with an empty label standing for none.
    pub fn from_table_entry(
        raw_code: &str,
        key: String,
        group: Option<String>,
        label: Option<String>,
        aliases: Vec<String>,
    ) -> (r: Option<KeyCode>)
        ensures
            r is Some <==> keycode_of_key(raw_code@) is Some,
            r matches Some(k) ==> {
                &&& k.code == keycode_of_key(raw_code@)->0
                &&& k.key == key
                &&& k.group == group
                &&& k.label == (if label matches Some(l) && l@.len() == 0 {
                    None
                } else {
                    label
                })
                &&& k.aliases == aliases
            },
    {
        let code = match parse_keycode_key(raw_code) {
            Some(c) => c,
            None => return None,
        };
        let label = match label {
            Some(l) => if l.as_str().unicode_len() == 0 {
                None
            } else {
                Some(l)
            },
            None => None,
        };
        Some(KeyCode { code, key, group, label, aliases })
    }
}

} // verus!
