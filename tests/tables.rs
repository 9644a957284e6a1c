use mikaboshi::bagua::{bagua_from_raw, bagua_lo_shu_compass_order, get_gua_compass_order, GuaRaw};
use mikaboshi::error::InputError;
use mikaboshi::ganzhi::{
    branches_from_raw,
    ganzhi_from_indices,
    ganzhi_sexagesimal,
    hour_ganzhi_index,
    month_branch_index,
    month_ganzhi_index,
    stems_from_raw,
    year_ganzhi_index,
    Bazi,
    BranchRawData,
    StemRawData,
};
use mikaboshi::jiuxing::{get_jiuxing_from_index, jiuxing_from_raw, JiuXingRawData};
use mikaboshi::language::{LanguageData, LanguageDetails, LanguageTrait, NameDataTrait};
use mikaboshi::planet::{planets_from_raw, PlanetRawData};
use mikaboshi::solar_terms::{solar_terms_from_raw, SolarTermRawData};
use mikaboshi::utils::{make_positive, make_sort};
use mikaboshi::wuxing::{wuxing_from_raw, WuXingRawData};

fn name(en: &str, alphabet: &str, phonetic: &str, ja: &str) -> LanguageData {
    LanguageData {
        en: en.to_string(),
        ja: vec![ja.to_string(), String::from("-")],
        vi: vec![],
        zh_cn: vec![alphabet.to_string(), phonetic.to_string()],
        zh_tw: vec![alphabet.to_string(), phonetic.to_string()],
    }
}

const STEMS: [(&str, &str); 10] = [
    ("甲", "jiǎ"),
    ("乙", "yǐ"),
    ("丙", "bǐng"),
    ("丁", "dīng"),
    ("戊", "wù"),
    ("己", "jǐ"),
    ("庚", "gēng"),
    ("辛", "xīn"),
    ("壬", "rén"),
    ("癸", "guǐ"),
];

const BRANCHES: [(&str, &str); 12] = [
    ("子", "zǐ"),
    ("丑", "chǒu"),
    ("寅", "yín"),
    ("卯", "mǎo"),
    ("辰", "chén"),
    ("巳", "sì"),
    ("午", "wǔ"),
    ("未", "wèi"),
    ("申", "shēn"),
    ("酉", "yǒu"),
    ("戌", "xū"),
    ("亥", "hài"),
];

fn stem_data() -> Vec<StemRawData> {
    STEMS
        .iter()
        .enumerate()
        .map(|(i, (a, p))| StemRawData { num: i as u8 + 1, name: name(p, a, p, a) })
        .collect()
}

fn branch_data() -> Vec<BranchRawData> {
    BRANCHES
        .iter()
        .enumerate()
        .map(|(i, (a, p))| BranchRawData { num: i as u8 + 1, name: name(p, a, p, a) })
        .collect()
}

const GUA: [(&str, &str); 9] = [
    ("坎", "n"),
    ("坤", "sw"),
    ("震", "e"),
    ("巽", "se"),
    ("中", ""),
    ("乾", "nw"),
    ("兌", "w"),
    ("艮", "ne"),
    ("離", "s"),
];

fn gua_data() -> Vec<GuaRaw> {
    GUA.iter()
        .enumerate()
        .map(|(i, (a, d))| GuaRaw {
            name: name(a, a, a, a),
            jiuxing_num: i as u8 + 1,
            direction: d.to_string(),
            element: 0,
        })
        .collect()
}

fn jiuxing_data() -> Vec<JiuXingRawData> {
    let directions = ["n", "sw", "e", "se", "", "nw", "w", "ne", "s"];
    let colors = ["white", "black", "jade", "green", "yellow", "white", "red", "white", "purple"];
    let elements = [4, 2, 0, 0, 2, 3, 3, 2, 1];
    (0..9)
        .map(|i| JiuXingRawData {
            num: i as u8 + 1,
            direction: directions[i].to_string(),
            name: name(colors[i], "星", "xīng", "星"),
            color: colors[i].to_string(),
            element: elements[i],
            planet: i as u8,
        })
        .collect()
}

fn element_data() -> Vec<WuXingRawData> {
    ["wood", "fire", "earth", "metal", "water"]
        .iter()
        .map(|e| WuXingRawData { name: name(e, "行", "xíng", "行") })
        .collect()
}

fn planet_data() -> Vec<PlanetRawData> {
    ["earth", "moon", "mercury", "venus", "sun", "mars", "jupiter", "saturn", "uranus", "neptune", "pluto"]
        .iter()
        .map(|p| PlanetRawData { name: name(p, "星", "xīng", "星") })
        .collect()
}

#[test]
fn test_constant_bagua_list_full() {
    let bagua = bagua_from_raw(&gua_data());
    assert_eq!(bagua[0].jiuxing_num, 1);
}

#[test]
fn gua_compass_order_starts_north() {
    let bagua = bagua_from_raw(&gua_data());
    let compass: Vec<String> = bagua_lo_shu_compass_order(&bagua).iter().map(|g| g.direction.clone()).collect();
    assert_eq!(compass, vec!["n", "ne", "e", "se", "s", "sw", "w", "nw"]);
    assert_eq!(get_gua_compass_order(&bagua, 1).unwrap().alphabet(), "艮");
    assert_eq!(get_gua_compass_order(&bagua, 7).unwrap().jiuxing_num, 6);
    assert!(get_gua_compass_order(&bagua, 8).is_none());
}

#[test]
fn test_constant_stems() {
    let stems = stems_from_raw(&stem_data());
    assert_eq!(stems[0].num, 1);
}

#[test]
fn test_constant_branches() {
    let branches = branches_from_raw(&branch_data());
    assert_eq!(branches[0].num, 1);
}

#[test]
fn test_constant_jiuxing() {
    let elements = wuxing_from_raw(&element_data());
    let planets = planets_from_raw(&planet_data());
    let jiuxing = jiuxing_from_raw(&jiuxing_data(), &elements, &planets).unwrap();
    assert_eq!(jiuxing[0].num, 1);
}

#[test]
fn test_get_jiuxing_from_index() {
    let elements = wuxing_from_raw(&element_data());
    let planets = planets_from_raw(&planet_data());
    let jiuxing = jiuxing_from_raw(&jiuxing_data(), &elements, &planets).unwrap();
    assert_eq!(get_jiuxing_from_index(&jiuxing, 0).unwrap().num, 1);
}

#[test]
fn jiuxing_table_records_and_errors() {
    let elements = wuxing_from_raw(&element_data());
    let planets = planets_from_raw(&planet_data());
    let jiuxing = jiuxing_from_raw(&jiuxing_data(), &elements, &planets).unwrap();
    let purple = get_jiuxing_from_index(&jiuxing, 8).unwrap();
    assert_eq!(purple.direction, "s");
    assert_eq!(purple.color, "purple");
    assert_eq!(purple.element.name.en, "fire");
    assert_eq!(purple.planet.name.en, "uranus");
    assert!(get_jiuxing_from_index(&jiuxing, 9).is_err());
    let mut short = jiuxing_data();
    short.pop();
    assert_eq!(jiuxing_from_raw(&short, &elements, &planets).err(), Some(InputError::WrongLength));
    let mut bad = jiuxing_data();
    bad[3].planet = 11;
    assert_eq!(jiuxing_from_raw(&bad, &elements, &planets).err(), Some(InputError::IndexOutOfRange));
}

#[test]
fn names_are_read_from_reference_data() {
    let raw = &stem_data()[7];
    let name = raw.language_from_data();
    assert_eq!(name.en, "xīn");
    assert_eq!(name.zh_tw.alphabet, "辛");
    assert_eq!(name.zh_tw.phonetic, "xīn");
    assert_eq!(name.ja.phonetic, "-");
    assert_eq!(name.vi.alphabet, "");
    assert_eq!(name.vi.phonetic, "");
    let details = StemRawData::language_details(&[String::from("甲"), String::from("jiǎ")]);
    assert_eq!(details.alphabet, "甲");
    let empty = StemRawData::language_details(&[]);
    assert_eq!((empty.alphabet.as_str(), empty.phonetic.as_str()), ("", ""));
    let made = LanguageDetails::new("乙", "yǐ");
    assert_eq!((made.alphabet.as_str(), made.phonetic.as_str()), ("乙", "yǐ"));
    let terms = solar_terms_from_raw(&vec![SolarTermRawData { id: 3, name: name_of("lichun"), angle: 315 }]);
    assert_eq!((terms[0].id, terms[0].angle), (3, 315));
    assert_eq!(terms[0].name.en, "lichun");
}

fn name_of(en: &str) -> LanguageData {
    name(en, "立春", "lìchūn", "立春")
}

#[test]
fn ganzhi_texts() {
    let stems = stems_from_raw(&stem_data());
    let branches = branches_from_raw(&branch_data());
    let (s, b) = year_ganzhi_index(2021).unwrap();
    let year = ganzhi_from_indices(&stems, &branches, s, b).unwrap();
    assert_eq!(year.alphabet(), "辛丑");
    assert_eq!(year.phonetic(), "xīn chǒu");
    assert_eq!(year.alphabet_ja(), "辛・丑");
    assert!(ganzhi_from_indices(&stems, &branches, 10, 0).is_err());
}

#[test]
fn bazi_pillars_for_a_summer_afternoon() {
    // 2021-07-06, 14:57 local time: the sun stands near 104 degrees, and the
    // day is 乙卯 (pattern 51 of the sixty).
    let stems = stems_from_raw(&stem_data());
    let branches = branches_from_raw(&branch_data());
    let (ys, yb) = year_ganzhi_index(2021).unwrap();
    let month_branch = month_branch_index(104).unwrap();
    let (ms, mb) = month_ganzhi_index(month_branch, stems[ys].num).unwrap();
    let (ds, db) = ganzhi_sexagesimal(51).unwrap();
    let (hs, hb) = hour_ganzhi_index(14, stems[ds].num);
    let bazi = Bazi::new(
        ganzhi_from_indices(&stems, &branches, ys, yb).unwrap(),
        ganzhi_from_indices(&stems, &branches, ms, mb).unwrap(),
        ganzhi_from_indices(&stems, &branches, ds, db).unwrap(),
        ganzhi_from_indices(&stems, &branches, hs, hb).unwrap(),
    );
    assert_eq!(bazi.year.alphabet(), "辛丑");
    assert_eq!(bazi.month.alphabet(), "甲午");
    assert_eq!(bazi.day.alphabet(), "乙卯");
    assert_eq!(bazi.hour.alphabet(), "癸未");
}

#[test]
fn ganzhi_indices_edges() {
    assert_eq!(year_ganzhi_index(0), Ok((6, 8)));
    assert_eq!(year_ganzhi_index(-1), Err(InputError::YearOutOfRange));
    assert_eq!(year_ganzhi_index(i32::MAX), Ok(((7 + 6) % 10, 3)));
    assert_eq!(month_branch_index(315), Ok(0));
    assert_eq!(month_branch_index(314), Ok(11));
    assert_eq!(month_branch_index(345), Ok(1));
    assert_eq!(month_branch_index(14), Ok(1));
    assert_eq!(month_branch_index(15), Ok(2));
    assert_eq!(month_branch_index(360), Err(InputError::AngleOutOfRange));
    assert_eq!(month_ganzhi_index(0, 1), Ok((2, 2)));
    assert_eq!(month_ganzhi_index(11, 10), Ok((1, 1)));
    assert_eq!(month_ganzhi_index(12, 1), Err(InputError::IndexOutOfRange));
    assert_eq!(ganzhi_sexagesimal(0), Ok((0, 0)));
    assert_eq!(ganzhi_sexagesimal(59), Ok((9, 11)));
    assert_eq!(ganzhi_sexagesimal(60), Err(InputError::IndexOutOfRange));
    assert_eq!(hour_ganzhi_index(23, 1), (0, 0));
    assert_eq!(hour_ganzhi_index(0, 6), (0, 0));
    assert_eq!(hour_ganzhi_index(1, 1), (1, 1));
    assert_eq!(hour_ganzhi_index(4, 5), (0, 2));
    assert_eq!(hour_ganzhi_index(22, 3), (5, 11));
}

#[test]
fn make_positive_adds_steps() {
    assert_eq!(make_positive(9, 5), 5);
    assert_eq!(make_positive(9, -1), 8);
    assert_eq!(make_positive(9, -9), 0);
    assert_eq!(make_positive(9, -20), 7);
    assert_eq!(make_positive(7, i32::MIN), 5);
    assert_eq!(make_positive(u32::MAX, -1), u32::MAX - 1);
}

#[test]
fn make_sort_picks_in_order() {
    let source = vec!["a", "b", "c", "d"];
    assert_eq!(make_sort(&vec![3, 0, 0, 2], &source), vec!["d", "a", "a", "c"]);
    assert_eq!(make_sort(&vec![], &source), Vec::<&str>::new());
}
