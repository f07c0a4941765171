use vstd::prelude::*;

use crate::client::lemma_filter_keeps_none;
use crate::constants::KeyCode;
use crate::xap::QMKBoardIdentifiers;

verus! {

/// What the bring-up queries learned about a device.
#[derive(Debug, Clone)]
pub struct XAPDeviceInfo {
    pub xap: XAPInfo,
    pub qmk: QMKInfo,
    pub features: FeaturesInfo,
    pub keymap: Option<KeymapInfo>,
    pub remap: Option<RemapInfo>,
    pub lighting: Option<LightingInfo>,
    pub split: Option<SplitInfo>,
}

/// Firmware features, as far as the device reports them.
#[derive(Debug, Clone)]
pub struct FeaturesInfo {
    pub audio: Option<bool>,
    pub backlight: Option<bool>,
    pub bootmagic: Option<bool>,
    pub console: Option<bool>,
    pub encoder: Option<bool>,
    pub extrakey: Option<bool>,
    pub mousekey: Option<bool>,
    pub nkro: Option<bool>,
    pub quantum_painter: Option<bool>,
    pub rgb_matrix: Option<bool>,
    pub tap_dance: Option<bool>,
    pub unicode: Option<bool>,
    pub usbpd: Option<bool>,
    pub wpm: Option<bool>,
    pub xap: Option<bool>,
}

#[derive(Debug, Clone)]
pub struct XAPInfo {
    pub version: String,
}

#[derive(Debug, Clone)]
pub struct QMKInfo {
    pub version: String,
    pub board_ids: QMKBoardIdentifiers,
    pub manufacturer: String,
    pub product_name: String,
    pub config: String,
    pub hardware_id: String,
    pub jump_to_bootloader_enabled: bool,
    pub eeprom_reset_enabled: bool,
}

#[derive(Debug, Clone)]
pub struct SplitInfo {
    pub enabled: bool,
    pub main: String,
}

#[derive(Debug, Clone, Copy, PartialEq, Eq, Structural)]
pub struct Matrix {
    pub cols: u8,
    pub rows: u8,
}

#[derive(Debug, Clone, Copy, PartialEq, Eq)]
pub struct KeymapInfo {
    pub matrix: Matrix,
    pub layer_count: Option<u8>,
    pub get_keycode_enabled: bool,
    pub get_encoder_keycode_enabled: bool,
}

#[derive(Debug, Clone, Copy, PartialEq, Eq)]
pub struct RemapInfo {
    pub layer_count: Option<u8>,
    pub set_keycode_enabled: bool,
    pub set_encoder_keycode_enabled: bool,
}

#[derive(Debug, Clone)]
pub struct LightingInfo {
    pub backlight: Option<BacklightInfo>,
    pub rgblight: Option<RGBLightInfo>,
    pub rgbmatrix: Option<RGBMatrixInfo>,
}

#[derive(Debug, Clone)]
pub struct BacklightInfo {
    pub effects: Option<Vec<u8>>,
    pub get_config_enabled: bool,
    pub set_config_enabled: bool,
    pub save_config_enabled: bool,
}

#[derive(Debug, Clone)]
pub struct RGBLightInfo {
    pub effects: Option<Vec<u8>>,
    pub get_config_enabled: bool,
    pub set_config_enabled: bool,
    pub save_config_enabled: bool,
}

#[derive(Debug, Clone)]
pub struct RGBMatrixInfo {
    pub effects: Option<Vec<u8>>,
    pub get_config_enabled: bool,
    pub set_config_enabled: bool,
    pub save_config_enabled: bool,
}

/// The keycodes of one group.
#[derive(Debug)]
pub struct XAPKeyCodeCategory {
    pub name: String,
    pub codes: Vec<KeyCode>,
}

/// The keycode table grouped for display.
#[derive(Debug)]
pub struct XAPConstants {
    pub keycodes: Vec<XAPKeyCodeCategory>,
}

/// The category a keycode is shown under: its group, or `other`.
pub open spec fn group_name(k: KeyCode) -> Seq<char> {
    match k.group {
        Some(g) => g@,
        None => "other"@,
    }
}

/// Whether one of the categories is named `name`.
pub open spec fn has_category(cats: Seq<XAPKeyCodeCategory>, name: Seq<char>) -> bool {
    exists|c: int| 0 <= c < cats.len() && cats[c].name@ == name
}

/// Whether a keycode is shown under the category `name`.
pub open spec fn in_group(name: Seq<char>) -> spec_fn(KeyCode) -> bool {
    |k: KeyCode| group_name(k) == name
}

fn find_category(cats: &Vec<XAPKeyCodeCategory>, name: &String) -> (r: Option<usize>)
    ensures
        r matches Some(c) ==> c < cats@.len() && cats@[c as int].name@ == name@,
        r is None ==> forall|c: int| 0 <= c < cats@.len() ==> cats@[c].name@ != name@,
{
    let mut c: usize = 0;
    while c < cats.len()
        invariant
            c <= cats@.len(),
            forall|c2: int| 0 <= c2 < c ==> cats@[c2].name@ != name@,
        decreases cats@.len() - c,
    {
        if cats[c].name == *name {
            return Some(c);
        }
        c = c + 1;
    }
    None
}

fn group_name_of(k: &KeyCode) -> (r: String)
    ensures
        r@ == group_name(*k),
{
    match &k.group {
        Some(g) => g.clone(),
        None => String::from_str("other"),
    }
}

impl XAPConstants {
    /// Groups keycodes by category. Categories come in the order their
    /// first keycode comes, and each holds its keycodes in input order.
    pub fn from_keycodes(codes: Vec<KeyCode>) -> (r: XAPConstants)
        ensures
            forall|c1: int, c2: int|
                0 <= c1 < c2 < r.keycodes@.len() ==> r.keycodes@[c1].name@ != r.keycodes@[c2].name@,
            forall|c: int|
                0 <= c < r.keycodes@.len() ==> r.keycodes@[c].codes@ == codes@.filter(
                    in_group(r.keycodes@[c].name@),
                ),
            forall|j: int|
                0 <= j < codes@.len() ==> has_category(r.keycodes@, group_name(#[trigger] codes@[j])),
            forall|c: int|
                0 <= c < r.keycodes@.len() ==> r.keycodes@[c].codes@.len() > 0,
    {
        let ghost orig = codes@;
        let mut rest = codes;
        let mut cats: Vec<XAPKeyCodeCategory> = Vec::new();
        let ghost mut i: int = 0;
        while rest.len() > 0
            invariant
                0 <= i <= orig.len(),
                rest@ == orig.subrange(i, orig.len() as int),
                forall|c1: int, c2: int|
                    0 <= c1 < c2 < cats@.len() ==> cats@[c1].name@ != cats@[c2].name@,
                forall|c: int|
                    0 <= c < cats@.len() ==> cats@[c].codes@ == orig.subrange(0, i).filter(
                        in_group(cats@[c].name@),
                    ),
                forall|j: int| 0 <= j < i ==> has_category(cats@, group_name(#[trigger] orig[j])),
                forall|c: int| 0 <= c < cats@.len() ==> cats@[c].codes@.len() > 0,
            decreases rest@.len(),
        {
            let k = rest.remove(0);
            assert(k == orig[i]);
            let name = group_name_of(&k);
            let ghost g = name@;
            let ghost before = cats@;
            proof {
                assert(orig.subrange(0, i + 1) =~= orig.subrange(0, i).push(orig[i]));
            }
            let found = find_category(&cats, &name);
            if let Some(c) = found {
                cats[c].codes.push(k);
                proof {
                    assert forall|c2: int| 0 <= c2 < cats@.len() implies cats@[c2].codes@
                        == orig.subrange(0, i + 1).filter(in_group(cats@[c2].name@)) by {
                        orig.subrange(0, i).lemma_filter_push(orig[i], in_group(cats@[c2].name@));
                        if c2 != c {
                            assert(cats@[c2] == before[c2]);
                        }
                    }
                    assert forall|j: int| 0 <= j < i + 1 implies has_category(
                        cats@,
                        group_name(#[trigger] orig[j]),
                    ) by {
                        if j < i {
                            let c2 = choose|c2: int|
                                0 <= c2 < before.len() && before[c2].name@ == group_name(orig[j]);
                            assert(cats@[c2].name@ == before[c2].name@);
                        } else {
                            assert(cats@[c as int].name@ == g);
                        }
                    }
                    assert forall|c1: int, c2: int|
                        0 <= c1 < c2 < cats@.len() implies cats@[c1].name@ != cats@[c2].name@ by {
                        assert(cats@[c1].name@ == before[c1].name@);
                        assert(cats@[c2].name@ == before[c2].name@);
                    }
                }
            } else {
                let mut codes_of: Vec<KeyCode> = Vec::new();
                codes_of.push(k);
                cats.push(XAPKeyCodeCategory { name, codes: codes_of });
                proof {
                    assert forall|j: int| 0 <= j < i implies !(in_group(g))(orig.subrange(0, i)[j]) by {
                        let c2 = choose|c2: int|
                            0 <= c2 < before.len() && before[c2].name@ == group_name(orig[j]);
                    }
                    lemma_filter_keeps_none(orig.subrange(0, i), in_group(g));
                    assert forall|c2: int| 0 <= c2 < cats@.len() implies cats@[c2].codes@
                        == orig.subrange(0, i + 1).filter(in_group(cats@[c2].name@)) by {
                        orig.subrange(0, i).lemma_filter_push(orig[i], in_group(cats@[c2].name@));
                        if c2 < before.len() {
                            assert(cats@[c2] == before[c2]);
                            assert(cats@[c2].name@ != g);
                        } else {
                            assert(cats@[c2].codes@ =~= Seq::<KeyCode>::empty().push(orig[i]));
                        }
                    }
                    assert forall|j: int| 0 <= j < i + 1 implies has_category(
                        cats@,
                        group_name(#[trigger] orig[j]),
                    ) by {
                        if j < i {
                            let c2 = choose|c2: int|
                                0 <= c2 < before.len() && before[c2].name@ == group_name(orig[j]);
                            assert(cats@[c2] == before[c2]);
                        } else {
                            assert(cats@[before.len() as int].name@ == g);
                        }
                    }
                }
            }
            proof {
                i = i + 1;
            }
        }
        assert(orig.subrange(0, orig.len() as int) =~= orig);
        assert(i == orig.len());
        let ghost cs = cats@;
        let r = XAPConstants { keycodes: cats };
        assert(r.keycodes@ == cs);
        r
    }
}

} // verus!
