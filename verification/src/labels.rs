//! Surface landmarks and their display widths.
//!
//! Each feature carries a latitude and longitude in millidegrees and one
//! display name per supported language.  The list is a process-wide
//! constant, read-only at render time.

use vstd::prelude::*;
use crate::lang::Language;

verus! {

/// A named surface landmark.
#[derive(Clone, Copy, Debug)]
pub struct Feature {
    pub name_en: &'static str,
    pub name_zh: &'static str,
    pub name_fr: &'static str,
    pub name_ja: &'static str,
    pub name_es: &'static str,
    /// Latitude in millidegrees, positive north.
    pub lat_mdeg: i64,
    /// Longitude in millidegrees, positive east.
    pub lon_mdeg: i64,
}

pub open spec fn spec_feature_name(f: Feature, lang: Language) -> Seq<char> {
    match lang {
        Language::English => f.name_en@,
        Language::Chinese => f.name_zh@,
        Language::French => f.name_fr@,
        Language::Japanese => f.name_ja@,
        Language::Spanish => f.name_es@,
    }
}

/// The localized display name of a feature.
pub fn feature_name(f: &Feature, lang: Language) -> (r: &'static str)
    ensures
        r@ == spec_feature_name(*f, lang),
{
    match lang {
        Language::English => f.name_en,
        Language::Chinese => f.name_zh,
        Language::French => f.name_fr,
        Language::Japanese => f.name_ja,
        Language::Spanish => f.name_es,
    }
}

/// The displayed column width of a string, as a pure function of its
/// characters.
pub uninterp spec fn width_of(s: Seq<char>) -> nat;

/// Relies on unicode_width's `UnicodeWidthStr::width` for `str`: the
/// displayed column width of the string, determined by its characters alone.
#[verifier::external_body]
pub(crate) fn display_width(s: &str) -> (w: usize)
    ensures
        w == width_of(s@),
{
    unicode_width::UnicodeWidthStr::width(s)
}

/// The coordinates of the ten landmarks, by position in the feature list:
/// latitude in millidegrees paired with longitude in millidegrees.
pub open spec fn spec_feature_coords(i: int) -> (int, int) {
    if i == 0 {
        (18400, -57400)
    } else if i == 1 {
        (32800, -25600)
    } else if i == 2 {
        (20000, 13500)
    } else if i == 3 {
        (3500, 22400)
    } else if i == 4 {
        (17000, 58500)
    } else if i == 5 {
        (-43300, -11200)
    } else if i == 6 {
        (9600, -20100)
    } else if i == 7 {
        (8100, -38000)
    } else if i == 8 {
        (23700, -47400)
    } else {
        (51600, -9300)
    }
}

/// The static list of lunar landmarks.
pub fn lunar_features() -> (v: Vec<Feature>)
    ensures
        v@.len() == 10,
        forall|i: int|
            0 <= i < 10 ==> ((#[trigger] v@[i]).lat_mdeg as int, v@[i].lon_mdeg as int)
                == spec_feature_coords(i),
{
    let mut v: Vec<Feature> = Vec::new();
    v.push(
        Feature {
            name_en: "Oceanus Procellarum",
            name_zh: "风暴洋",
            name_fr: "Océan des Tempêtes",
            name_ja: "嵐の大洋",
            name_es: "Océano de las Tormentas",
            lat_mdeg: 18400,
            lon_mdeg: -57400,
        },
    );
    v.push(
        Feature {
            name_en: "Mare Imbrium",
            name_zh: "雨海",
            name_fr: "Mer des Pluies",
            name_ja: "雨の海",
            name_es: "Mar de las Lluvias",
            lat_mdeg: 32800,
            lon_mdeg: -25600,
        },
    );
    v.push(
        Feature {
            name_en: "Mare Serenitatis",
            name_zh: "澄海",
            name_fr: "Mer de la Sérénité",
            name_ja: "晴れの海",
            name_es: "Mar de la Serenidad",
            lat_mdeg: 20000,
            lon_mdeg: 13500,
        },
    );
    v.push(
        Feature {
            name_en: "Mare Tranquillitatis",
            name_zh: "静海",
            name_fr: "Mer de la Tranquillité",
            name_ja: "静かの海",
            name_es: "Mar de la Tranquilidad",
            lat_mdeg: 3500,
            lon_mdeg: 22400,
        },
    );
    v.push(
        Feature {
            name_en: "Mare Crisium",
            name_zh: "危海",
            name_fr: "Mer des Crises",
            name_ja: "危難の海",
            name_es: "Mar de las Crisis",
            lat_mdeg: 17000,
            lon_mdeg: 58500,
        },
    );
    v.push(
        Feature {
            name_en: "Tycho",
            name_zh: "第谷",
            name_fr: "Tycho",
            name_ja: "ティコ",
            name_es: "Tycho",
            lat_mdeg: -43300,
            lon_mdeg: -11200,
        },
    );
    v.push(
        Feature {
            name_en: "Copernicus",
            name_zh: "哥白尼",
            name_fr: "Copernic",
            name_ja: "コペルニクス",
            name_es: "Copérnico",
            lat_mdeg: 9600,
            lon_mdeg: -20100,
        },
    );
    v.push(
        Feature {
            name_en: "Kepler",
            name_zh: "开普勒",
            name_fr: "Kepler",
            name_ja: "ケプラー",
            name_es: "Kepler",
            lat_mdeg: 8100,
            lon_mdeg: -38000,
        },
    );
    v.push(
        Feature {
            name_en: "Aristarchus",
            name_zh: "阿里斯塔克斯",
            name_fr: "Aristarque",
            name_ja: "アリスタルコス",
            name_es: "Aristarco",
            lat_mdeg: 23700,
            lon_mdeg: -47400,
        },
    );
    v.push(
        Feature {
            name_en: "Plato",
            name_zh: "柏拉图",
            name_fr: "Platon",
            name_ja: "プラトン",
            name_es: "Platón",
            lat_mdeg: 51600,
            lon_mdeg: -9300,
        },
    );
    v
}

} // verus!
