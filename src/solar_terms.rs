//! 二十四节气 (Er-Shi-Si Jie-Qi), the 24 solar terms, each 15 degrees of the
//! sun's ecliptic longitude.
use vstd::prelude::*;

use crate::language::{
    language_data_ok,
    language_from,
    language_from_data,
    Language,
    LanguageData,
    LanguageTrait,
    NameDataTrait,
};

verus! {

/// A solar term and the longitude of the sun at which it begins.
#[derive(Debug)]
pub struct SolarTerm {
    pub id: u8,
    pub name: Language,
    pub angle: u16,
}

/// A solar term as the reference data holds it.
#[derive(Debug, Clone)]
pub struct SolarTermRawData {
    pub id: u8,
    pub name: LanguageData,
    pub angle: u16,
}

impl LanguageTrait for SolarTerm {
    open spec fn language(&self) -> Language {
        self.name
    }

    fn name(&self) -> (r: Box<Language>) {
        Box::new(self.name.duplicate())
    }
}

impl NameDataTrait for SolarTermRawData {
    open spec fn language_data(&self) -> LanguageData {
        self.name
    }

    fn name(&self) -> (r: Box<LanguageData>) {
        Box::new(self.name.duplicate())
    }
}

/// The table of the solar terms, read from the reference data.
pub fn solar_terms_from_raw(data: &Vec<SolarTermRawData>) -> (r: Vec<SolarTerm>)
    requires
        forall|i: int| 0 <= i < data.len() ==> language_data_ok(#[trigger] data[i].name),
    ensures
        r.len() == data.len(),
        forall|i: int|
            0 <= i < data.len() ==> #[trigger] r[i].id == data[i].id && r[i].angle == data[i].angle
                && language_from(data[i].name, r[i].name),
{
    let mut r: Vec<SolarTerm> = Vec::new();
    let mut i: usize = 0;
    while i < data.len()
        invariant
            i <= data.len(),
            r.len() == i,
            forall|i: int| 0 <= i < data.len() ==> language_data_ok(#[trigger] data[i].name),
            forall|j: int|
                0 <= j < i ==> #[trigger] r[j].id == data[j].id && r[j].angle == data[j].angle
                    && language_from(data[j].name, r[j].name),
        decreases data.len() - i,
    {
        let raw = &data[i];
        r.push(SolarTerm { id: raw.id, name: language_from_data(&raw.name), angle: raw.angle });
        i += 1;
    }
    r
}

} // verus!
