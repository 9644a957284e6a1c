//! Planets of the solar system, in the Ptolemaic order of the ancients:
//! Earth, Moon, Mercury, Venus, Sun, Mars, Jupiter, Saturn, Uranus, Neptune,
//! Pluto.
use vstd::prelude::*;

use crate::language::{
    language_data_ok,
    language_from,
    language_from_data,
    Language,
    LanguageData,
    LanguageTrait,
    NameDataTrait,
};

verus! {

/// A planet.
#[derive(Debug, Clone)]
pub struct Planet {
    pub name: Language,
}

/// A planet as the reference data holds it.
#[derive(Debug, Clone)]
pub struct PlanetRawData {
    pub name: LanguageData,
}

impl Planet {
    /// A copy of this planet.
    pub fn duplicate(&self) -> (r: Self)
        ensures
            r == *self,
    {
        Planet { name: self.name.duplicate() }
    }
}

impl LanguageTrait for Planet {
    open spec fn language(&self) -> Language {
        self.name
    }

    fn name(&self) -> (r: Box<Language>) {
        Box::new(self.name.duplicate())
    }
}

impl NameDataTrait for PlanetRawData {
    open spec fn language_data(&self) -> LanguageData {
        self.name
    }

    fn name(&self) -> (r: Box<LanguageData>) {
        Box::new(self.name.duplicate())
    }
}

/// The table of the planets, read from the reference data.
pub fn planets_from_raw(data: &Vec<PlanetRawData>) -> (r: Vec<Planet>)
    requires
        forall|i: int| 0 <= i < data.len() ==> language_data_ok(#[trigger] data[i].name),
    ensures
        r.len() == data.len(),
        forall|i: int| 0 <= i < data.len() ==> language_from(data[i].name, #[trigger] r[i].name),
{
    let mut r: Vec<Planet> = Vec::new();
    let mut i: usize = 0;
    while i < data.len()
        invariant
            i <= data.len(),
            r.len() == i,
            forall|i: int| 0 <= i < data.len() ==> language_data_ok(#[trigger] data[i].name),
            forall|j: int| 0 <= j < i ==> language_from(data[j].name, #[trigger] r[j].name),
        decreases data.len() - i,
    {
        r.push(Planet { name: language_from_data(&data[i].name) });
        i += 1;
    }
    r
}

} // verus!
