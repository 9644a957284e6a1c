//! 生死衰旺 (Sheng-Si Shuai-Wang): the four states of the energy of a place.
//!
//! (1) Growing --> 生 (Sheng)
//! (2) Dying --> 死 (Si)
//! (3) Declining --> 衰 (Shuai)
//! (4) Prospering --> 旺 (Wang)
//!
//! In 玄空飞星風水 (Xuan-Kong Fei-Xing Feng-Shui) they tell the state of each
//! of the nine stars in the current period of 三元九運 (Sang-Yuan Jiu-Yun),
//! which the centre star of the temporal chart 運盤 (Un-Pan) names.
use vstd::prelude::*;

use crate::compass::same_text;
use crate::error::InputError;
use crate::jiuxing::{all_stars, normalize_jiuxing, normalized};

verus! {

broadcast use vstd::seq::group_seq_axioms;

/// One of the four states.
#[derive(Debug, Clone, Copy, PartialEq, Eq, Structural)]
pub enum ShengSiState {
    /// 生 (Sheng), growing.
    Sheng,
    /// 死 (Si), dying.
    Si,
    /// 衰 (Shuai), declining.
    Shuai,
    /// 旺 (Wang), prospering.
    Wang,
}

/// The display record of a state. `key` is "sheng", "si", "shuai" or "wang".
#[derive(Debug, Clone, Copy, PartialEq)]
pub struct ShengSi<'a> {
    pub key: &'a str,
    pub kanji: &'a str,
    pub meaning: &'a str,
}

/// The display record of each state.
pub open spec fn sheng_si_record(state: ShengSiState) -> ShengSi<'static> {
    match state {
        ShengSiState::Sheng => ShengSi { key: "sheng", kanji: "生", meaning: "growth" },
        ShengSiState::Si => ShengSi { key: "si", kanji: "死", meaning: "death" },
        ShengSiState::Shuai => ShengSi { key: "shuai", kanji: "衰", meaning: "perishing" },
        ShengSiState::Wang => ShengSi { key: "wang", kanji: "旺", meaning: "prosperous" },
    }
}

/// The state that a key names, if any.
pub open spec fn state_of_key(key: Seq<char>) -> Option<ShengSiState> {
    if key == "sheng"@ {
        Some(ShengSiState::Sheng)
    } else if key == "si"@ {
        Some(ShengSiState::Si)
    } else if key == "shuai"@ {
        Some(ShengSiState::Shuai)
    } else if key == "wang"@ {
        Some(ShengSiState::Wang)
    } else {
        None
    }
}

/// The display record of `state`.
pub fn get_sheng_si(state: ShengSiState) -> (r: ShengSi<'static>)
    ensures
        r == sheng_si_record(state),
{
    match state {
        ShengSiState::Sheng => ShengSi { key: "sheng", kanji: "生", meaning: "growth" },
        ShengSiState::Si => ShengSi { key: "si", kanji: "死", meaning: "death" },
        ShengSiState::Shuai => ShengSi { key: "shuai", kanji: "衰", meaning: "perishing" },
        ShengSiState::Wang => ShengSi { key: "wang", kanji: "旺", meaning: "prosperous" },
    }
}

/// The state that `key` names: "sheng", "si", "shuai" or "wang".
pub fn state_from_key(key: &str) -> (r: Option<ShengSiState>)
    ensures
        r == state_of_key(key@),
{
    if same_text(key, "sheng") {
        Some(ShengSiState::Sheng)
    } else if same_text(key, "si") {
        Some(ShengSiState::Si)
    } else if same_text(key, "shuai") {
        Some(ShengSiState::Shuai)
    } else if same_text(key, "wang") {
        Some(ShengSiState::Wang)
    } else {
        None
    }
}

/// The display record of the state that `key` names, if any.
pub fn get_sheng_si_by_key(key: &str) -> (r: Option<ShengSi<'static>>)
    ensures
        r == match state_of_key(key@) {
            Some(state) => Some(sheng_si_record(state)),
            None => None,
        },
{
    match state_from_key(key) {
        Some(state) => Some(get_sheng_si(state)),
        None => None,
    }
}

/// The stars in each state in the period whose temporal centre is a given
/// star. Items are star indices.
#[derive(Debug, Clone)]
pub struct ShengSiYearlyAlloc {
    pub wang: Vec<usize>,
    pub sheng: Vec<usize>,
    pub shuai: Vec<usize>,
    pub si: Vec<usize>,
}

impl ShengSiYearlyAlloc {
    /// The stars of the state that `name` names.
    pub fn accessor(&self, name: &str) -> (r: Option<&Vec<usize>>)
        ensures
            r == match state_of_key(name@) {
                Some(ShengSiState::Wang) => Some(&self.wang),
                Some(ShengSiState::Sheng) => Some(&self.sheng),
                Some(ShengSiState::Shuai) => Some(&self.shuai),
                Some(ShengSiState::Si) => Some(&self.si),
                None => None,
            },
    {
        match state_from_key(name) {
            Some(ShengSiState::Wang) => Some(&self.wang),
            Some(ShengSiState::Sheng) => Some(&self.sheng),
            Some(ShengSiState::Shuai) => Some(&self.shuai),
            Some(ShengSiState::Si) => Some(&self.si),
            None => None,
        }
    }
}

/// 旺 (Wang): the temporal centre itself prospers.
pub open spec fn wang_stars(p: int) -> Seq<usize> {
    seq![p as usize]
}

/// 生 (Sheng): the two stars after the centre grow.
pub open spec fn sheng_stars(p: int) -> Seq<usize> {
    seq![normalized(p + 1) as usize, normalized(p + 2) as usize]
}

/// The two stars before the centre.
pub open spec fn before_center(p: int) -> Seq<usize> {
    seq![normalized(p - 1) as usize, normalized(p - 2) as usize]
}

/// 衰 (Shuai): the two stars before the centre decline, but when the centre
/// is 一白 (index 0), only 九紫 (index 8) does.
pub open spec fn shuai_stars(p: int) -> Seq<usize> {
    if p == 0 {
        seq![8usize]
    } else {
        before_center(p)
    }
}

/// The `k`-th candidate for 死 (Si): `k` steps before the second star before
/// the centre.
pub open spec fn si_candidate(p: int, k: int) -> int {
    normalized(before_center(p)[1] - k)
}

/// Whether a candidate for 死 (Si) is kept: while the centre is below 八白
/// (index 7), 一白 (index 0) and 八白 (index 7) are never dying.
pub open spec fn si_kept(p: int, star: int) -> bool {
    p >= 7 || (star != 0 && star != 7)
}

/// `s` with the `k`-th candidate for 死 (Si) added, if it is kept.
pub open spec fn with_si_candidate(s: Seq<usize>, p: int, k: int) -> Seq<usize> {
    if si_kept(p, si_candidate(p, k)) {
        s.push(si_candidate(p, k) as usize)
    } else {
        s
    }
}

/// 死 (Si): the four stars before the second star before the centre, in
/// order, less those that are not kept.
pub open spec fn si_stars(p: int) -> Seq<usize> {
    with_si_candidate(
        with_si_candidate(with_si_candidate(with_si_candidate(Seq::empty(), p, 1), p, 2), p, 3),
        p,
        4,
    )
}

/// Whether `a` holds the allocation of the period whose centre is `p`.
pub open spec fn is_alloc_of(a: ShengSiYearlyAlloc, p: int) -> bool {
    &&& a.wang@ == wang_stars(p)
    &&& a.sheng@ == sheng_stars(p)
    &&& a.shuai@ == shuai_stars(p)
    &&& a.si@ == si_stars(p)
}

/// The allocation of the four states for the period whose temporal centre is
/// star `unpan_id`.
pub fn get_sheng_si_alloc(unpan_id: usize) -> (r: ShengSiYearlyAlloc)
    requires
        unpan_id < 9,
    ensures
        is_alloc_of(r, unpan_id as int),
{
    let p = unpan_id as i32;
    let mut sheng: Vec<usize> = Vec::new();
    sheng.push(normalize_jiuxing(p + 1));
    sheng.push(normalize_jiuxing(p + 2));
    let mut before: Vec<usize> = Vec::new();
    before.push(normalize_jiuxing(p - 1));
    before.push(normalize_jiuxing(p - 2));
    let mut si: Vec<usize> = Vec::new();
    let mut k: i32 = 1;
    while k <= 4
        invariant
            1 <= k <= 5,
            p == unpan_id,
            p < 9,
            before@ == before_center(p as int),
            k == 1 ==> si@ == Seq::<usize>::empty(),
            k == 2 ==> si@ == with_si_candidate(Seq::empty(), p as int, 1),
            k == 3 ==> si@ == with_si_candidate(
                with_si_candidate(Seq::empty(), p as int, 1),
                p as int,
                2,
            ),
            k == 4 ==> si@ == with_si_candidate(
                with_si_candidate(with_si_candidate(Seq::empty(), p as int, 1), p as int, 2),
                p as int,
                3,
            ),
            k == 5 ==> si@ == si_stars(p as int),
        decreases 5 - k,
    {
        let star = normalize_jiuxing(before[1] as i32 - k);
        if p >= 7 || (star != 0 && star != 7) {
            si.push(star);
        }
        k += 1;
    }
    let shuai = if unpan_id == 0 {
        let mut v: Vec<usize> = Vec::new();
        v.push(8);
        v
    } else {
        before
    };
    let mut wang: Vec<usize> = Vec::new();
    wang.push(unpan_id);
    proof {
        assert(wang@ =~= wang_stars(p as int));
        assert(sheng@ =~= sheng_stars(p as int));
        if unpan_id == 0 {
            assert(shuai@ =~= shuai_stars(p as int));
        }
    }
    ShengSiYearlyAlloc { wang, sheng, shuai, si }
}

/// The state of star `star` in the period whose temporal centre is `p`, if
/// it has one. A star in two sets takes the later of 生, 死, 衰, 旺.
pub open spec fn star_state(p: int, star: int) -> Option<ShengSiState> {
    if wang_stars(p).contains(star as usize) {
        Some(ShengSiState::Wang)
    } else if shuai_stars(p).contains(star as usize) {
        Some(ShengSiState::Shuai)
    } else if si_stars(p).contains(star as usize) {
        Some(ShengSiState::Si)
    } else if sheng_stars(p).contains(star as usize) {
        Some(ShengSiState::Sheng)
    } else {
        None
    }
}

/// The record that a cell holding star `star` shows.
pub open spec fn cell_record(p: int, star: int) -> Option<ShengSi<'static>> {
    match star_state(p, star) {
        Some(state) => Some(sheng_si_record(state)),
        None => None,
    }
}

/// Sets the entry of each star of `stars` to `state`.
fn mark(lookup: &mut Vec<Option<ShengSiState>>, stars: &Vec<usize>, state: ShengSiState)
    requires
        old(lookup).len() == 9,
        all_stars(stars@),
    ensures
        final(lookup).len() == 9,
        forall|m: int|
            0 <= m < 9 ==> #[trigger] final(lookup)@[m] == if stars@.contains(m as usize) {
                Some(state)
            } else {
                old(lookup)@[m]
            },
{
    let mut j: usize = 0;
    while j < stars.len()
        invariant
            j <= stars.len(),
            lookup.len() == 9,
            all_stars(stars@),
            forall|m: int|
                0 <= m < 9 ==> #[trigger] lookup@[m] == if stars@.take(j as int).contains(m as usize) {
                    Some(state)
                } else {
                    old(lookup)@[m]
                },
        decreases stars.len() - j,
    {
        let star = stars[j];
        let ghost before = lookup@;
        lookup.set(star, Some(state));
        proof {
            let prefix = stars@.take(j as int);
            assert(stars@.take(j + 1) =~= prefix.push(star));
            assert forall|m: int| 0 <= m < 9 implies #[trigger] lookup@[m] == if stars@.take(
                j + 1,
            ).contains(m as usize) {
                Some(state)
            } else {
                old(lookup)@[m]
            } by {
                if m == star as int {
                    assert(prefix.push(star)[j as int] == star);
                } else {
                    assert(lookup@[m] == before[m]);
                    if prefix.push(star).contains(m as usize) {
                        let k = choose|k: int|
                            0 <= k < prefix.push(star).len() && prefix.push(star)[k] == m as usize;
                        assert(prefix[k] == m as usize);
                    }
                    if prefix.contains(m as usize) {
                        let k = choose|k: int| 0 <= k < prefix.len() && prefix[k] == m as usize;
                        assert(prefix.push(star)[k] == m as usize);
                    }
                }
            }
        }
        j += 1;
    }
    proof {
        assert(stars@.take(stars.len() as int) =~= stars@);
    }
}

/// 生死衰旺 (Sheng-Si Shuai-Wang) of each cell of a temporal chart, for the
/// period whose temporal centre is star `unpan_id`: the record of the state
/// of the star in the cell, or `None` for a star with no state.
pub fn get_shengsi_mapping(unpan_id: usize, unpan_xing_chart: &[usize; 9]) -> (r: Result<
    Vec<Option<ShengSi<'static>>>,
    InputError,
>)
    ensures
        r is Ok <==> unpan_id < 9 && all_stars(unpan_xing_chart@),
        r matches Err(e) ==> e == InputError::IndexOutOfRange,
        r matches Ok(cells) ==> cells.len() == 9 && forall|i: int|
            0 <= i < 9 ==> cells@[i] == cell_record(unpan_id as int, unpan_xing_chart@[i] as int),
{
    if unpan_id >= 9 {
        return Err(InputError::IndexOutOfRange);
    }
    let mut i: usize = 0;
    while i < 9
        invariant
            i <= 9,
            forall|j: int| 0 <= j < i ==> unpan_xing_chart@[j] < 9,
        decreases 9 - i,
    {
        if unpan_xing_chart[i] >= 9 {
            return Err(InputError::IndexOutOfRange);
        }
        i += 1;
    }
    let alloc = get_sheng_si_alloc(unpan_id);
    let ghost p = unpan_id as int;
    proof {
        assert(all_stars(alloc.sheng@));
        assert(all_stars(alloc.si@)) by {
            assert(forall|i: int| 0 <= i < si_stars(p).len() ==> si_stars(p)[i] < 9);
        }
        assert(all_stars(alloc.shuai@));
        assert(all_stars(alloc.wang@));
    }
    let mut lookup: Vec<Option<ShengSiState>> = Vec::new();
    let mut m: usize = 0;
    while m < 9
        invariant
            m <= 9,
            lookup.len() == m,
            forall|j: int| 0 <= j < m ==> lookup@[j] is None,
        decreases 9 - m,
    {
        lookup.push(None);
        m += 1;
    }
    mark(&mut lookup, &alloc.sheng, ShengSiState::Sheng);
    mark(&mut lookup, &alloc.si, ShengSiState::Si);
    mark(&mut lookup, &alloc.shuai, ShengSiState::Shuai);
    mark(&mut lookup, &alloc.wang, ShengSiState::Wang);
    let mut cells: Vec<Option<ShengSi<'static>>> = Vec::new();
    let mut i: usize = 0;
    while i < 9
        invariant
            i <= 9,
            cells.len() == i,
            lookup.len() == 9,
            all_stars(unpan_xing_chart@),
            forall|m: int| 0 <= m < 9 ==> #[trigger] lookup@[m] == star_state(p, m),
            forall|j: int|
                0 <= j < i ==> cells@[j] == cell_record(p, unpan_xing_chart@[j] as int),
        decreases 9 - i,
    {
        let cell = match lookup[unpan_xing_chart[i]] {
            Some(state) => Some(get_sheng_si(state)),
            None => None,
        };
        cells.push(cell);
        i += 1;
    }
    Ok(cells)
}

} // verus!
