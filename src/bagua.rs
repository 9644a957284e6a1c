//! 八卦 (Ba-Gua), the eight trigrams of 易経 (I-Ching). Feng-Shui uses the
//! order of 後天八卦 ("the Manifested Heaven"), whose diagram is 洛書
//! (Lo-Shu). Drawn in nine boxes, together with the centre 中 (Zhong), the
//! trigrams line up with the nine stars:
//!
//! [0] 坎 (Kan) -> No. 1
//! [1] 坤 (Kun) -> No. 2
//! [2] 震 (Zhen) -> No. 3
//! [3] 巽 (Xun) -> No. 4
//! [4] 中 (Zhong) -> No. 5
//! [5] 乾 (Qian) -> No. 6
//! [6] 兌 (Dui) -> No. 7
//! [7] 艮 (Gen) -> No. 8
//! [8] 離 (Li) -> No. 9
use vstd::prelude::*;

use crate::language::{
    language_data_ok,
    language_from,
    language_from_data,
    Language,
    LanguageData,
    LanguageTrait,
    NameDataTrait,
};
use crate::utils::make_sort;

verus! {

/// A trigram, 卦 (Gua), with its attributes.
#[derive(Debug, Clone)]
pub struct Gua {
    pub name: Language,
    pub jiuxing_num: u8,
    pub direction: String,
    pub element: u8,
}

/// A trigram as the reference data holds it.
#[derive(Debug, Clone)]
pub struct GuaRaw {
    pub name: LanguageData,
    pub jiuxing_num: u8,
    pub direction: String,
    pub element: u8,
}

impl LanguageTrait for Gua {
    open spec fn language(&self) -> Language {
        self.name
    }

    fn name(&self) -> (r: Box<Language>) {
        Box::new(self.name.duplicate())
    }
}

impl NameDataTrait for GuaRaw {
    open spec fn language_data(&self) -> LanguageData {
        self.name
    }

    fn name(&self) -> (r: Box<LanguageData>) {
        Box::new(self.name.duplicate())
    }
}

/// Whether `g` is what the reference record `raw` reads as.
pub open spec fn gua_from(raw: GuaRaw, g: Gua) -> bool {
    &&& language_from(raw.name, g.name)
    &&& g.jiuxing_num == raw.jiuxing_num
    &&& g.direction@ == raw.direction@
    &&& g.element == raw.element
}

/// The trigrams in Lo-Shu order with the centre, read from the reference
/// data.
pub fn bagua_from_raw(data: &Vec<GuaRaw>) -> (r: Vec<Gua>)
    requires
        forall|i: int| 0 <= i < data.len() ==> language_data_ok(#[trigger] data[i].name),
    ensures
        r.len() == data.len(),
        forall|i: int| 0 <= i < data.len() ==> gua_from(data[i], #[trigger] r[i]),
{
    let mut r: Vec<Gua> = Vec::new();
    let mut i: usize = 0;
    while i < data.len()
        invariant
            i <= data.len(),
            r.len() == i,
            forall|i: int| 0 <= i < data.len() ==> language_data_ok(#[trigger] data[i].name),
            forall|j: int| 0 <= j < i ==> gua_from(data[j], #[trigger] r[j]),
        decreases data.len() - i,
    {
        let raw = &data[i];
        r.push(
            Gua {
                name: language_from_data(&raw.name),
                jiuxing_num: raw.jiuxing_num,
                direction: raw.direction.clone(),
                element: raw.element,
            },
        );
        i += 1;
    }
    r
}

/// Where the trigram of compass direction `i` (north first, clockwise)
/// stands in Lo-Shu order with the centre: 坎 north, 艮 north-east, 震 east,
/// 巽 south-east, 離 south, 坤 south-west, 兌 west, 乾 north-west.
pub open spec fn gua_compass_index(i: int) -> int {
    if i == 0 {
        0
    } else if i == 1 {
        7
    } else if i == 2 {
        2
    } else if i == 3 {
        3
    } else if i == 4 {
        8
    } else if i == 5 {
        1
    } else if i == 6 {
        6
    } else {
        5
    }
}

/// The places in Lo-Shu order with the centre of the trigrams of the eight
/// compass directions, north first, clockwise.
pub fn bagua_lo_shu_compass_order_indexes() -> (r: Vec<u8>)
    ensures
        r.len() == 8,
        forall|i: int| 0 <= i < 8 ==> #[trigger] r[i] == gua_compass_index(i) && r[i] < 9,
{
    let r: Vec<u8> = vec![0, 7, 2, 3, 8, 1, 6, 5];
    assert(forall|i: int| 0 <= i < 8 ==> r[i] == gua_compass_index(i) && r[i] < 9);
    r
}

/// The trigrams of the eight compass directions, north first, clockwise,
/// taken from the trigrams in Lo-Shu order with the centre.
pub fn bagua_lo_shu_compass_order(with_center: &Vec<Gua>) -> (r: Vec<Gua>)
    requires
        with_center.len() == 9,
    ensures
        r.len() == 8,
        forall|i: int| 0 <= i < 8 ==> cloned(with_center[gua_compass_index(i)], #[trigger] r[i]),
{
    let order = bagua_lo_shu_compass_order_indexes();
    make_sort(&order, with_center)
}

/// The trigram of compass direction `index` (north first, clockwise), out of
/// the trigrams in Lo-Shu order with the centre; `None` past the eighth.
pub fn get_gua_compass_order(with_center: &Vec<Gua>, index: usize) -> (r: Option<&Gua>)
    requires
        with_center.len() == 9,
    ensures
        index < 8 ==> r == Some(&with_center[gua_compass_index(index as int)]),
        index >= 8 ==> r is None,
{
    if index >= 8 {
        return None;
    }
    let order = bagua_lo_shu_compass_order_indexes();
    Some(&with_center[order[index] as usize])
}

} // verus!
