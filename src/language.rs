//! Names in several languages. The reference tables (stars, trigrams, stems,
//! branches, elements, planets, solar terms) carry a name of this shape.
use vstd::prelude::*;

verus! {

/// A name in one language: its characters and how they are read.
#[derive(Debug, Clone)]
pub struct LanguageDetails {
    /// Ex. "甲"
    pub alphabet: String,
    /// Ex. "jiǎ"
    pub phonetic: String,
}

/// A name in English, Japanese, Vietnamese, and simplified and traditional
/// Chinese.
#[derive(Debug, Clone)]
pub struct Language {
    pub en: String,
    pub ja: LanguageDetails,
    pub vi: LanguageDetails,
    pub zh_cn: LanguageDetails,
    pub zh_tw: LanguageDetails,
}

/// A name as the reference data holds it: for each language other than
/// English, either nothing or the characters followed by their reading.
#[derive(Debug, Clone)]
pub struct LanguageData {
    pub en: String,
    pub ja: Vec<String>,
    pub vi: Vec<String>,
    pub zh_cn: Vec<String>,
    pub zh_tw: Vec<String>,
}

impl LanguageDetails {
    pub fn new(alphabet: &str, phonetic: &str) -> (r: Self)
        ensures
            r.alphabet@ == alphabet@,
            r.phonetic@ == phonetic@,
    {
        LanguageDetails { alphabet: String::from_str(alphabet), phonetic: String::from_str(phonetic) }
    }

    /// A copy of these details.
    pub fn duplicate(&self) -> (r: Self)
        ensures
            r == *self,
    {
        LanguageDetails { alphabet: self.alphabet.clone(), phonetic: self.phonetic.clone() }
    }
}

impl Language {
    /// A copy of this name.
    pub fn duplicate(&self) -> (r: Self)
        ensures
            r == *self,
    {
        Language {
            en: self.en.clone(),
            ja: self.ja.duplicate(),
            vi: self.vi.duplicate(),
            zh_cn: self.zh_cn.duplicate(),
            zh_tw: self.zh_tw.duplicate(),
        }
    }
}

impl LanguageData {
    /// A copy of this name.
    pub fn duplicate(&self) -> (r: Self)
        ensures
            same_data(r, *self),
    {
        LanguageData {
            en: self.en.clone(),
            ja: copy_strings(&self.ja),
            vi: copy_strings(&self.vi),
            zh_cn: copy_strings(&self.zh_cn),
            zh_tw: copy_strings(&self.zh_tw),
        }
    }
}

/// A copy of a list of strings.
fn copy_strings(v: &Vec<String>) -> (r: Vec<String>)
    ensures
        r@ == v@,
{
    let mut r: Vec<String> = Vec::new();
    let mut i: usize = 0;
    while i < v.len()
        invariant
            i <= v.len(),
            r@ == v@.take(i as int),
        decreases v.len() - i,
    {
        r.push(v[i].clone());
        proof {
            assert(v@.take(i + 1) =~= v@.take(i as int).push(v@[i as int]));
        }
        i += 1;
    }
    proof {
        assert(v@.take(v.len() as int) =~= v@);
    }
    r
}

/// Whether two names of the reference data hold the same texts.
pub open spec fn same_data(a: LanguageData, b: LanguageData) -> bool {
    &&& a.en == b.en
    &&& a.ja@ == b.ja@
    &&& a.vi@ == b.vi@
    &&& a.zh_cn@ == b.zh_cn@
    &&& a.zh_tw@ == b.zh_tw@
}

/// Whether the entry of one language holds nothing, or the characters and
/// their reading.
pub open spec fn details_ok(details: Seq<String>) -> bool {
    details.len() == 0 || details.len() >= 2
}

/// Whether every language of a name is either empty or complete.
pub open spec fn language_data_ok(data: LanguageData) -> bool {
    &&& details_ok(data.ja@)
    &&& details_ok(data.vi@)
    &&& details_ok(data.zh_cn@)
    &&& details_ok(data.zh_tw@)
}

/// What an entry of the reference data reads as: empty texts for an empty
/// entry, else its first two items.
pub open spec fn details_from(details: Seq<String>, r: LanguageDetails) -> bool {
    if details.len() == 0 {
        r.alphabet@ == Seq::<char>::empty() && r.phonetic@ == Seq::<char>::empty()
    } else {
        r.alphabet@ == details[0]@ && r.phonetic@ == details[1]@
    }
}

/// What a name of the reference data reads as.
pub open spec fn language_from(data: LanguageData, r: Language) -> bool {
    &&& r.en@ == data.en@
    &&& details_from(data.ja@, r.ja)
    &&& details_from(data.vi@, r.vi)
    &&& details_from(data.zh_cn@, r.zh_cn)
    &&& details_from(data.zh_tw@, r.zh_tw)
}

/// Reads one entry of the reference data.
pub fn details_from_data(details: &[String]) -> (r: LanguageDetails)
    requires
        details_ok(details@),
    ensures
        details_from(details@, r),
{
    if details.len() == 0 {
        proof {
            reveal_strlit("");
            assert(""@ =~= Seq::<char>::empty());
        }
        LanguageDetails::new("", "")
    } else {
        LanguageDetails::new(details[0].as_str(), details[1].as_str())
    }
}

/// Reads a name of the reference data.
pub fn language_from_data(data: &LanguageData) -> (r: Language)
    requires
        language_data_ok(*data),
    ensures
        language_from(*data, r),
{
    Language {
        en: data.en.clone(),
        ja: details_from_data(data.ja.as_slice()),
        vi: details_from_data(data.vi.as_slice()),
        zh_cn: details_from_data(data.zh_cn.as_slice()),
        zh_tw: details_from_data(data.zh_tw.as_slice()),
    }
}

/// A record with a name.
pub trait LanguageTrait {
    /// The record's name.
    spec fn language(&self) -> Language;

    fn name(&self) -> (r: Box<Language>)
        ensures
            *r == self.language(),
    ;

    /// Chinese characters, as written in Taiwan.
    fn alphabet(&self) -> (r: String)
        ensures
            r == self.language().zh_tw.alphabet,
    {
        let name = self.name();
        name.zh_tw.alphabet.clone()
    }

    /// Chinese reading, as in Taiwan.
    fn phonetic(&self) -> (r: String)
        ensures
            r == self.language().zh_tw.phonetic,
    {
        let name = self.name();
        name.zh_tw.phonetic.clone()
    }

    /// Japanese characters.
    fn alphabet_ja(&self) -> (r: String)
        ensures
            r == self.language().ja.alphabet,
    {
        let name = self.name();
        name.ja.alphabet.clone()
    }
}

/// A record of the reference data with a name.
pub trait NameDataTrait {
    /// The record's name, as the reference data holds it.
    spec fn language_data(&self) -> LanguageData;

    fn name(&self) -> (r: Box<LanguageData>)
        ensures
            same_data(*r, self.language_data()),
    ;

    /// Reads one entry of the reference data.
    fn language_details(details: &[String]) -> (r: LanguageDetails)
        requires
            details_ok(details@),
        ensures
            details_from(details@, r),
    {
        details_from_data(details)
    }

    /// Reads the record's name.
    fn language_from_data(&self) -> (r: Language)
        requires
            language_data_ok(self.language_data()),
        ensures
            language_from(self.language_data(), r),
    {
        let data = self.name();
        language_from_data(&data)
    }
}

} // verus!
