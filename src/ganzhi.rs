//! 干支 (Gan-Zhi). Ten stems, 十干 (Gan), follow the five elements in their
//! 陰 (Yin) and 陽 (Yang); twelve branches, 十二支 (Zhi), follow the twelve
//! regions of the sky that Jupiter crosses in twelve years. Paired, they make
//! the sixty patterns with which time is recorded, and four such pairs (for
//! the year, the month, the day and the hour) make 八字 (Bazi), "the Four
//! Pillars of Destiny".
//!
//! Stems: [0] 甲 (Jia) [1] 乙 (Yi) [2] 丙 (Bing) [3] 丁 (Ding) [4] 戊 (Wu)
//! [5] 己 (Ji) [6] 庚 (Geng) [7] 辛 (Xin) [8] 壬 (Ren) [9] 癸 (Gui)
//!
//! Branches: [0] 子 (Zi) [1] 丑 (Chou) [2] 寅 (Yin) [3] 卯 (Mao) [4] 辰 (Chen)
//! [5] 巳 (Si) [6] 午 (Wu) [7] 未 (Wei) [8] 申 (Shen) [9] 酉 (You) [10] 戌 (Xu)
//! [11] 亥 (Hai)
use vstd::prelude::*;
use vstd::string::*;

use crate::error::InputError;
use crate::language::{
    language_data_ok,
    language_from,
    language_from_data,
    Language,
    LanguageData,
    LanguageTrait,
    NameDataTrait,
};

verus! {

/// A stem, 干 (Gan).
#[derive(Debug, Clone)]
pub struct Stem {
    pub num: u8,
    pub name: Language,
}

/// A branch, 支 (Zhi).
#[derive(Debug, Clone)]
pub struct Branch {
    pub num: u8,
    pub name: Language,
}

/// A stem as the reference data holds it.
#[derive(Debug, Clone)]
pub struct StemRawData {
    pub num: u8,
    pub name: LanguageData,
}

/// A branch as the reference data holds it.
#[derive(Debug, Clone)]
pub struct BranchRawData {
    pub num: u8,
    pub name: LanguageData,
}

impl LanguageTrait for Stem {
    open spec fn language(&self) -> Language {
        self.name
    }

    fn name(&self) -> (r: Box<Language>) {
        Box::new(self.name.duplicate())
    }
}

impl LanguageTrait for Branch {
    open spec fn language(&self) -> Language {
        self.name
    }

    fn name(&self) -> (r: Box<Language>) {
        Box::new(self.name.duplicate())
    }
}

impl NameDataTrait for StemRawData {
    open spec fn language_data(&self) -> LanguageData {
        self.name
    }

    fn name(&self) -> (r: Box<LanguageData>) {
        Box::new(self.name.duplicate())
    }
}

impl NameDataTrait for BranchRawData {
    open spec fn language_data(&self) -> LanguageData {
        self.name
    }

    fn name(&self) -> (r: Box<LanguageData>) {
        Box::new(self.name.duplicate())
    }
}

/// The table of the stems, read from the reference data.
pub fn stems_from_raw(data: &Vec<StemRawData>) -> (r: Vec<Stem>)
    requires
        forall|i: int| 0 <= i < data.len() ==> language_data_ok(#[trigger] data[i].name),
    ensures
        r.len() == data.len(),
        forall|i: int|
            0 <= i < data.len() ==> #[trigger] r[i].num == data[i].num && language_from(
                data[i].name,
                r[i].name,
            ),
{
    let mut r: Vec<Stem> = Vec::new();
    let mut i: usize = 0;
    while i < data.len()
        invariant
            i <= data.len(),
            r.len() == i,
            forall|i: int| 0 <= i < data.len() ==> language_data_ok(#[trigger] data[i].name),
            forall|j: int|
                0 <= j < i ==> #[trigger] r[j].num == data[j].num && language_from(
                    data[j].name,
                    r[j].name,
                ),
        decreases data.len() - i,
    {
        r.push(Stem { num: data[i].num, name: language_from_data(&data[i].name) });
        i += 1;
    }
    r
}

/// The table of the branches, read from the reference data.
pub fn branches_from_raw(data: &Vec<BranchRawData>) -> (r: Vec<Branch>)
    requires
        forall|i: int| 0 <= i < data.len() ==> language_data_ok(#[trigger] data[i].name),
    ensures
        r.len() == data.len(),
        forall|i: int|
            0 <= i < data.len() ==> #[trigger] r[i].num == data[i].num && language_from(
                data[i].name,
                r[i].name,
            ),
{
    let mut r: Vec<Branch> = Vec::new();
    let mut i: usize = 0;
    while i < data.len()
        invariant
            i <= data.len(),
            r.len() == i,
            forall|i: int| 0 <= i < data.len() ==> language_data_ok(#[trigger] data[i].name),
            forall|j: int|
                0 <= j < i ==> #[trigger] r[j].num == data[j].num && language_from(
                    data[j].name,
                    r[j].name,
                ),
        decreases data.len() - i,
    {
        r.push(Branch { num: data[i].num, name: language_from_data(&data[i].name) });
        i += 1;
    }
    r
}

/// A stem and a branch, 干支 (Gan-Zhi).
#[derive(Debug)]
pub struct GanZhi<'a> {
    pub stem: &'a Stem,
    pub branch: &'a Branch,
}

impl GanZhi<'_> {
    /// The Chinese characters of the stem and the branch, together.
    pub fn alphabet(&self) -> (r: String)
        ensures
            r@ == self.stem.name.zh_tw.alphabet@ + self.branch.name.zh_tw.alphabet@,
    {
        let stem = self.stem.alphabet();
        let branch = self.branch.alphabet();
        stem.concat(branch.as_str())
    }

    /// The Chinese readings of the stem and the branch, a space between them.
    pub fn phonetic(&self) -> (r: String)
        ensures
            r@ == self.stem.name.zh_tw.phonetic@ + " "@ + self.branch.name.zh_tw.phonetic@,
    {
        let stem = self.stem.phonetic();
        let branch = self.branch.phonetic();
        stem.concat(" ").concat(branch.as_str())
    }

    /// The Japanese characters of the stem and the branch, a "・" between them.
    pub fn alphabet_ja(&self) -> (r: String)
        ensures
            r@ == self.stem.name.ja.alphabet@ + "・"@ + self.branch.name.ja.alphabet@,
    {
        let stem = self.stem.alphabet_ja();
        let branch = self.branch.alphabet_ja();
        stem.concat("・").concat(branch.as_str())
    }
}

/// 八字 (Bazi): the pairs of the year, the month, the day and the hour.
#[derive(Debug)]
pub struct Bazi<'a> {
    pub year: GanZhi<'a>,
    pub month: GanZhi<'a>,
    pub day: GanZhi<'a>,
    pub hour: GanZhi<'a>,
}

impl<'a> Bazi<'a> {
    pub fn new(year: GanZhi<'a>, month: GanZhi<'a>, day: GanZhi<'a>, hour: GanZhi<'a>) -> (r: Self)
        ensures
            r == (Bazi { year, month, day, hour }),
    {
        Bazi { year, month, day, hour }
    }
}

/// The pair of the given stem and branch indices, out of the tables.
pub fn ganzhi_from_indices<'a>(
    stems: &'a Vec<Stem>,
    branches: &'a Vec<Branch>,
    stem: usize,
    branch: usize,
) -> (r: Result<GanZhi<'a>, InputError>)
    ensures
        stem < stems.len() && branch < branches.len() <==> r is Ok,
        r matches Ok(g) ==> g.stem == &stems[stem as int] && g.branch == &branches[branch as int],
        r matches Err(e) ==> e == InputError::IndexOutOfRange,
{
    if stem >= stems.len() || branch >= branches.len() {
        return Err(InputError::IndexOutOfRange);
    }
    Ok(GanZhi { stem: &stems[stem], branch: &branches[branch] })
}

/// Pattern `index` of the sixty: stem `index % 10`, branch `index % 12`.
pub fn ganzhi_sexagesimal(index: usize) -> (r: Result<(usize, usize), InputError>)
    ensures
        index < 60 ==> r == Ok::<(usize, usize), InputError>(
            ((index % 10) as usize, (index % 12) as usize),
        ),
        index >= 60 ==> r == Err::<(usize, usize), InputError>(InputError::IndexOutOfRange),
{
    if index >= 60 {
        return Err(InputError::IndexOutOfRange);
    }
    Ok((index % 10, index % 12))
}

/// The stem and branch indices of a year (counted from 立春, Li-Chun). The
/// stem follows the last digit of the year (0 is 庚), the branch the year
/// modulo 12 (0 is 申); years before 0 are refused.
pub fn year_ganzhi_index(year: i32) -> (r: Result<(usize, usize), InputError>)
    ensures
        year >= 0 ==> r == Ok::<(usize, usize), InputError>(
            (((year % 10 + 6) % 10) as usize, ((year + 8) % 12) as usize),
        ),
        year < 0 ==> r == Err::<(usize, usize), InputError>(InputError::YearOutOfRange),
{
    if year < 0 {
        return Err(InputError::YearOutOfRange);
    }
    let last = (year % 10) as usize;
    let branch = ((year % 12) as usize + 8) % 12;
    Ok(((last + 6) % 10, branch))
}

/// The month, counted from 立春 (Li-Chun), in which the sun stands at
/// `degrees` whole degrees of ecliptic longitude: each month spans two solar
/// terms, 30 degrees, and month 0, that of 寅, begins at 315 degrees.
pub open spec fn month_branch(degrees: int) -> int {
    ((degrees + 45) / 30) % 12
}

/// The branch index, counted from 立春 (Li-Chun), of the month whose sun
/// stands at `degrees` whole degrees of ecliptic longitude.
pub fn month_branch_index(degrees: u32) -> (r: Result<usize, InputError>)
    ensures
        degrees < 360 ==> r == Ok::<usize, InputError>(month_branch(degrees as int) as usize),
        degrees >= 360 ==> r == Err::<usize, InputError>(InputError::AngleOutOfRange),
{
    if degrees >= 360 {
        return Err(InputError::AngleOutOfRange);
    }
    Ok((((degrees + 45) / 30) % 12) as usize)
}

/// The stem of the first month of a year whose stem is number `year_stem_num`
/// (1 for 甲 up to 10 for 癸): 甲 and 己 begin with 丙, 乙 and 庚 with 戊, 丙
/// and 辛 with 庚, 丁 and 壬 with 壬, 戊 and 癸 with 甲.
pub open spec fn first_month_stem(year_stem_num: int) -> int {
    if year_stem_num == 1 || year_stem_num == 6 {
        2
    } else if year_stem_num == 2 || year_stem_num == 7 {
        4
    } else if year_stem_num == 3 || year_stem_num == 8 {
        6
    } else if year_stem_num == 4 || year_stem_num == 9 {
        8
    } else {
        0
    }
}

/// The stem and branch indices of month `branch_index` (counted from 立春,
/// Li-Chun) of a year whose stem is number `year_stem_num`.
pub fn month_ganzhi_index(branch_index: usize, year_stem_num: u8) -> (r: Result<
    (usize, usize),
    InputError,
>)
    ensures
        branch_index < 12 ==> r == Ok::<(usize, usize), InputError>(
            (
                ((first_month_stem(year_stem_num as int) + branch_index) % 10) as usize,
                ((branch_index + 2) % 12) as usize,
            ),
        ),
        branch_index >= 12 ==> r == Err::<(usize, usize), InputError>(InputError::IndexOutOfRange),
{
    if branch_index >= 12 {
        return Err(InputError::IndexOutOfRange);
    }
    let first: usize = if year_stem_num == 1 || year_stem_num == 6 {
        2
    } else if year_stem_num == 2 || year_stem_num == 7 {
        4
    } else if year_stem_num == 3 || year_stem_num == 8 {
        6
    } else if year_stem_num == 4 || year_stem_num == 9 {
        8
    } else {
        0
    };
    Ok(((first + branch_index) % 10, (branch_index + 2) % 12))
}

/// The branch of an hour: 子 from 23 to 1 o'clock, then one branch every two
/// hours.
pub open spec fn hour_branch(hour: int) -> int {
    if hour == 23 || hour == 0 {
        0
    } else if hour < 3 {
        1
    } else if hour <= 4 {
        2
    } else if hour <= 6 {
        3
    } else if hour <= 8 {
        4
    } else if hour <= 10 {
        5
    } else if hour <= 12 {
        6
    } else if hour <= 14 {
        7
    } else if hour <= 16 {
        8
    } else if hour <= 18 {
        9
    } else if hour <= 20 {
        10
    } else {
        11
    }
}

/// The group of a day whose stem is number `day_stem_num`: 甲 and 己 are
/// group 0, 乙 and 庚 group 1, 丙 and 辛 group 2, 丁 and 壬 group 3, the rest
/// group 4.
pub open spec fn day_stem_group(day_stem_num: int) -> int {
    if day_stem_num == 1 || day_stem_num == 6 {
        0
    } else if day_stem_num == 2 || day_stem_num == 7 {
        1
    } else if day_stem_num == 3 || day_stem_num == 8 {
        2
    } else if day_stem_num == 4 || day_stem_num == 9 {
        3
    } else {
        4
    }
}

/// The stem of an hour, from the table of hour stems (rows are hour branches,
/// columns day groups):
///
/// 子: 甲丙戊庚壬   丑: 乙丁己辛癸   寅: 丙戊庚壬甲   卯: 丁己辛癸乙
/// 辰: 戊庚壬甲丙   巳: 己辛癸乙丁   午: 庚壬甲丙戊   未: 辛癸乙丁己
/// 申: 壬甲丙戊庚   酉: 癸乙丁己辛   戌: 甲丙戊庚壬   亥: 乙丁己辛癸
///
/// Each row starts at the stem of its branch's number, and each column is two
/// stems on from the one before.
pub open spec fn hour_stem(branch: int, group: int) -> int {
    (branch + 2 * group) % 10
}

/// The stem and branch indices of the hour `hour` of a day whose stem is
/// number `day_stem_num`.
pub fn hour_ganzhi_index(hour: u32, day_stem_num: u8) -> (r: (usize, usize))
    ensures
        r.1 == hour_branch(hour as int),
        r.0 == hour_stem(hour_branch(hour as int), day_stem_group(day_stem_num as int)),
{
    let branch: usize = if hour == 23 || hour == 0 {
        0
    } else if hour < 3 {
        1
    } else if hour <= 4 {
        2
    } else if hour <= 6 {
        3
    } else if hour <= 8 {
        4
    } else if hour <= 10 {
        5
    } else if hour <= 12 {
        6
    } else if hour <= 14 {
        7
    } else if hour <= 16 {
        8
    } else if hour <= 18 {
        9
    } else if hour <= 20 {
        10
    } else {
        11
    };
    let group: usize = if day_stem_num == 1 || day_stem_num == 6 {
        0
    } else if day_stem_num == 2 || day_stem_num == 7 {
        1
    } else if day_stem_num == 3 || day_stem_num == 8 {
        2
    } else if day_stem_num == 4 || day_stem_num == 9 {
        3
    } else {
        4
    };
    ((branch + 2 * group) % 10, branch)
}

} // verus!
