//! 五行 (Wu-Xing), the five elements.
use vstd::prelude::*;

use crate::language::{
    language_data_ok,
    language_from,
    language_from_data,
    Language,
    LanguageData,
    LanguageTrait,
    NameDataTrait,
};

verus! {

/// One of the five elements.
#[derive(Debug, Clone)]
pub struct WuXing {
    pub name: Language,
}

/// An element as the reference data holds it.
#[derive(Debug, Clone)]
pub struct WuXingRawData {
    pub name: LanguageData,
}

impl WuXing {
    /// A copy of this element.
    pub fn duplicate(&self) -> (r: Self)
        ensures
            r == *self,
    {
        WuXing { name: self.name.duplicate() }
    }
}

impl LanguageTrait for WuXing {
    open spec fn language(&self) -> Language {
        self.name
    }

    fn name(&self) -> (r: Box<Language>) {
        Box::new(self.name.duplicate())
    }
}

impl NameDataTrait for WuXingRawData {
    open spec fn language_data(&self) -> LanguageData {
        self.name
    }

    fn name(&self) -> (r: Box<LanguageData>) {
        Box::new(self.name.duplicate())
    }
}

/// The table of the five elements, read from the reference data.
pub fn wuxing_from_raw(data: &Vec<WuXingRawData>) -> (r: Vec<WuXing>)
    requires
        forall|i: int| 0 <= i < data.len() ==> language_data_ok(#[trigger] data[i].name),
    ensures
        r.len() == data.len(),
        forall|i: int| 0 <= i < data.len() ==> language_from(data[i].name, #[trigger] r[i].name),
{
    let mut r: Vec<WuXing> = Vec::new();
    let mut i: usize = 0;
    while i < data.len()
        invariant
            i <= data.len(),
            r.len() == i,
            forall|i: int| 0 <= i < data.len() ==> language_data_ok(#[trigger] data[i].name),
            forall|j: int| 0 <= j < i ==> language_from(data[j].name, #[trigger] r[j].name),
        decreases data.len() - i,
    {
        r.push(WuXing { name: language_from_data(&data[i].name) });
        i += 1;
    }
    r
}

} // verus!
