//! 九星 (Jiu-Xing), the "nine stars" of Feng-Shui. Nine boxes are drawn for
//! a place: the middle one stands for where you are, the eight around it for
//! the eight compass directions. The stars have fixed homes in the 洛書
//! (Lo-Shu) layout, drawn on 地盤 (Di-Pan), the board at the bottom of every
//! chart, and they move, or "fly" (飞泊, Fei-Po), over it as time goes.
//! Three more boards are drawn on top of Di-Pan: 運盤 (Un-Pan), the temporal
//! chart, and the charts of 山星 (Shan-Xing) and 向星 (Xiang-Xing). All four
//! together make 下卦図 (Xia-Gua-Tu), the flying-star chart.
//!
//! The stars, by index:
//!
//! [0] 一白水星 (1 White)
//! [1] 二黒土星 (2 Black)
//! [2] 三碧木星 (3 Jade)
//! [3] 四緑木星 (4 Green)
//! [4] 五黄土星 (5 Yellow)
//! [5] 六白金星 (6 White)
//! [6] 七赤金星 (7 Red)
//! [7] 八白土星 (8 White)
//! [8] 九紫火星 (9 Purple)
use vstd::prelude::*;

use crate::compass::{
    cell_of,
    chart_cell,
    chart_positions,
    compass_of_label,
    position_in_chart,
    Compass,
};
use crate::error::InputError;
use crate::language::{
    language_data_ok,
    language_from,
    language_from_data,
    Language,
    LanguageData,
    LanguageTrait,
    NameDataTrait,
};
use crate::planet::Planet;
use crate::test_mods::DateParams;
use crate::utils::make_positive;
use crate::wuxing::WuXing;

verus! {

/// The star whose home is `cell` in the Lo-Shu layout (`None` is the middle).
pub open spec fn lo_shu_star(cell: Option<Compass>) -> int {
    match cell {
        Some(Compass::N) => 0,
        Some(Compass::SW) => 1,
        Some(Compass::E) => 2,
        Some(Compass::SE) => 3,
        None => 4,
        Some(Compass::NW) => 5,
        Some(Compass::W) => 6,
        Some(Compass::NE) => 7,
        Some(Compass::S) => 8,
    }
}

/// The star whose home is `cell` in the Lo-Shu layout (`None` is the middle).
pub fn lo_shu_star_of(cell: Option<Compass>) -> (r: usize)
    ensures
        r == lo_shu_star(cell),
{
    match cell {
        Some(Compass::N) => 0,
        Some(Compass::SW) => 1,
        Some(Compass::E) => 2,
        Some(Compass::SE) => 3,
        None => 4,
        Some(Compass::NW) => 5,
        Some(Compass::W) => 6,
        Some(Compass::NE) => 7,
        Some(Compass::S) => 8,
    }
}

/// The star at home in the direction labelled `dir`; "" is the middle.
pub fn jiuxing_index_from_direction(dir: &str) -> (r: Result<usize, InputError>)
    ensures
        dir@.len() == 0 ==> r == Ok::<usize, InputError>(4),
        dir@.len() != 0 ==> r == match compass_of_label(dir@) {
            Some(d) => Ok::<usize, InputError>(lo_shu_star(Some(d)) as usize),
            None => Err(InputError::UnknownDirection),
        },
{
    if dir.is_empty() {
        return Ok(4);
    }
    match Compass::parse(dir) {
        Some(d) => Ok(lo_shu_star_of(Some(d))),
        None => Err(InputError::UnknownDirection),
    }
}

/// The star in cell `p` of 地盤 (Di-Pan) when the device faces `facing`.
pub open spec fn dipan_cell(facing: Compass, p: int) -> int {
    lo_shu_star(chart_cell(facing, p))
}

/// 地盤 (Di-Pan) for a device facing `facing`: the star of each of the nine
/// cells. Facing north, for instance:
///
/// [5] 六白 [0] 一白 [7] 八白
/// [6] 七赤 [4] 五黄 [2] 三碧
/// [1] 二黒 [8] 九紫 [3] 四緑
pub fn dipan_positions(facing: Compass) -> (r: [usize; 9])
    ensures
        forall|p: int| 0 <= p < 9 ==> r@[p] == dipan_cell(facing, p),
{
    let cells = chart_positions(facing);
    let mut r: [usize; 9] = [0; 9];
    let mut p: usize = 0;
    while p < 9
        invariant
            p <= 9,
            forall|q: int| 0 <= q < 9 ==> cells@[q] == chart_cell(facing, q),
            forall|q: int| 0 <= q < p ==> r@[q] == dipan_cell(facing, q),
        decreases 9 - p,
    {
        r[p] = lo_shu_star_of(cells[p]);
        p += 1;
    }
    r
}

/// 地盤 (Di-Pan) for a device facing the direction labelled `direction`, or
/// `None` for an unknown label.
pub fn get_jiuxing_dipan_positions_from_direction(direction: &str) -> (r: Option<[usize; 9]>)
    ensures
        r is None <==> compass_of_label(direction@) is None,
        r matches Some(order) ==> forall|p: int|
            0 <= p < 9 ==> order@[p] == dipan_cell(compass_of_label(direction@)->Some_0, p),
{
    match Compass::parse(direction) {
        Some(facing) => Some(dipan_positions(facing)),
        None => None,
    }
}

/// A star index brought into `0..9`, counting round modulo 9.
pub open spec fn normalized(index: int) -> int {
    index % 9
}

/// Brings a star index into `0..9`: 9 becomes 0, 10 becomes 1, -1 becomes 8.
pub fn normalize_jiuxing(index: i32) -> (r: usize)
    ensures
        r == normalized(index as int),
        r < 9,
{
    let tmp = (make_positive(9, index) + 1) % 9;
    if tmp == 0 {
        8
    } else {
        (tmp - 1) as usize
    }
}

/// The star that lands where the base order holds star `star`, when `center`
/// flies into the middle. Flying in reverse mirrors the base order first
/// (`star` becomes `8 - star`).
pub open spec fn flown(center: int, star: int, reverse: bool) -> int {
    normalized((if reverse { 8 - star } else { star }) + center - 4)
}

/// Whether `chart` is what flying `center` over `order` gives.
pub open spec fn is_flown_chart(chart: [usize; 9], center: int, order: Seq<usize>, reverse: bool) -> bool {
    forall|i: int| 0 <= i < 9 ==> chart@[i] == flown(center, order[i] as int, reverse)
}

/// Whether every item of `order` is a star index.
pub open spec fn all_stars(order: Seq<usize>) -> bool {
    forall|i: int| 0 <= i < order.len() ==> order[i] < 9
}

/// 飞泊 (Fei-Po), "flying": moves every star of `order` on by as many steps as
/// `center` is from the middle star 五黄 (index 4), in reverse if asked.
pub fn fly_flying_stars(center: usize, order: &[usize; 9], reverse: bool) -> (r: Result<
    [usize; 9],
    InputError,
>)
    ensures
        r is Ok <==> center < 9 && all_stars(order@),
        r matches Ok(chart) ==> is_flown_chart(chart, center as int, order@, reverse),
        r matches Err(e) ==> e == InputError::IndexOutOfRange,
{
    if center >= 9 {
        return Err(InputError::IndexOutOfRange);
    }
    let mut i: usize = 0;
    while i < 9
        invariant
            i <= 9,
            forall|j: int| 0 <= j < i ==> order@[j] < 9,
        decreases 9 - i,
    {
        if order[i] >= 9 {
            return Err(InputError::IndexOutOfRange);
        }
        i += 1;
    }
    Ok(fly_over(center, order, reverse))
}

/// Flies `center` over `order`, every item of which is a star index.
fn fly_over(center: usize, order: &[usize; 9], reverse: bool) -> (r: [usize; 9])
    requires
        center < 9,
        all_stars(order@),
    ensures
        is_flown_chart(r, center as int, order@, reverse),
        all_stars(r@),
{
    let mut chart: [usize; 9] = [0; 9];
    let mut i: usize = 0;
    while i < 9
        invariant
            i <= 9,
            center < 9,
            all_stars(order@),
            forall|j: int| 0 <= j < 9 ==> chart@[j] < 9,
            forall|j: int| 0 <= j < i ==> chart@[j] == flown(center as int, order@[j] as int, reverse),
        decreases 9 - i,
    {
        let star = if reverse {
            8 - order[i]
        } else {
            order[i]
        };
        chart[i] = normalize_jiuxing(star as i32 + center as i32 - 4);
        i += 1;
    }
    chart
}

/// Flying over a base order that holds each star once gives a chart that
/// holds each star once: no two cells receive the same star.
pub proof fn lemma_fly_is_permutation(center: int, order: Seq<usize>, reverse: bool)
    requires
        0 <= center < 9,
        order.len() == 9,
        all_stars(order),
        forall|i: int, j: int| 0 <= i < j < 9 ==> order[i] != order[j],
    ensures
        forall|i: int| 0 <= i < 9 ==> 0 <= #[trigger] flown(center, order[i] as int, reverse) < 9,
        forall|i: int, j: int|
            0 <= i < j < 9 ==> flown(center, order[i] as int, reverse) != flown(
                center,
                order[j] as int,
                reverse,
            ),
{
    assert forall|i: int, j: int| 0 <= i < j < 9 implies flown(center, order[i] as int, reverse)
        != flown(center, order[j] as int, reverse) by {
        let a = order[i] as int;
        let b = order[j] as int;
        assert(a != b);
    }
}

/// The well known rule for whether the chart of 山星 (Shan-Xing) or 向星
/// (Xiang-Xing) flies in normal order: the star's number (`index + 1`) is
/// odd and the sector is the first, or it is even and the sector is not.
/// The rule does not hold for 五黄 (index 4); the temporal centre stands in
/// for it.
pub open spec fn flies_normal(index: int, sector: int) -> bool {
    let num = index + 1;
    (num % 2 != 0 && sector == 1) || (num % 2 == 0 && sector > 1)
}

fn is_shan_xiang_flying_normal(index: usize, sector: usize) -> (r: bool)
    ensures
        r == flies_normal(index as int, sector as int),
{
    let odd = index % 2 == 0;
    (odd && sector == 1) || (!odd && sector > 1)
}

/// Whether `order` is 地盤 (Di-Pan) for a device facing `facing`.
pub open spec fn is_dipan_of(order: Seq<usize>, facing: Compass) -> bool {
    &&& order.len() == 9
    &&& forall|p: int| 0 <= p < 9 ==> order[p] == dipan_cell(facing, p)
}

/// The direction whose 地盤 (Di-Pan) `order` is, if there is one.
pub open spec fn dipan_direction(order: Seq<usize>) -> Option<Compass> {
    if exists|d: Compass| is_dipan_of(order, d) {
        Some(choose|d: Compass| is_dipan_of(order, d))
    } else {
        None
    }
}

/// 地盤 (Di-Pan) holds 五黄 (index 4) in the middle and every other star
/// once around it, whichever way the device faces.
pub proof fn lemma_dipan_layout(facing: Compass)
    ensures
        dipan_cell(facing, 4) == 4,
        forall|p: int| 0 <= p < 9 ==> 0 <= #[trigger] dipan_cell(facing, p) < 9,
        forall|p: int, q: int| 0 <= p < q < 9 ==> dipan_cell(facing, p) != dipan_cell(facing, q),
{
    assert forall|p: int, q: int| 0 <= p < q < 9 implies dipan_cell(facing, p) != dipan_cell(
        facing,
        q,
    ) by {
        match facing {
            Compass::N => {},
            Compass::NE => {},
            Compass::E => {},
            Compass::SE => {},
            Compass::S => {},
            Compass::SW => {},
            Compass::W => {},
            Compass::NW => {},
        }
    }
}

/// No two directions share a 地盤 (Di-Pan).
proof fn lemma_dipan_unique(order: Seq<usize>, a: Compass, b: Compass)
    requires
        is_dipan_of(order, a),
        is_dipan_of(order, b),
    ensures
        a == b,
{
    assert(order[1] == dipan_cell(a, 1));
    assert(order[1] == dipan_cell(b, 1));
}

/// Looking at a 地盤 (Di-Pan) order, finds which way the device faces;
/// `None` when the order is none of the eight.
pub fn direction_from_dipan_order(order: &[usize; 9]) -> (r: Option<Compass>)
    ensures
        r == dipan_direction(order@),
{
    let mut i: usize = 0;
    while i < 8
        invariant
            i <= 8,
            forall|j: int| 0 <= j < i ==> !is_dipan_of(order@, #[trigger] Compass::from_ord(j)),
        decreases 8 - i,
    {
        let d = Compass::from_index(i);
        let dipan = dipan_positions(d);
        let mut same = true;
        let mut p: usize = 0;
        while p < 9
            invariant
                p <= 9,
                forall|q: int| 0 <= q < 9 ==> dipan@[q] == dipan_cell(d, q),
                same <==> forall|q: int| 0 <= q < p ==> order@[q] == dipan@[q],
            decreases 9 - p,
        {
            if order[p] != dipan[p] {
                same = false;
            }
            p += 1;
        }
        if same {
            proof {
                assert(is_dipan_of(order@, d));
                let c = choose|c: Compass| is_dipan_of(order@, c);
                lemma_dipan_unique(order@, c, d);
            }
            return Some(d);
        }
        i += 1;
    }
    assert forall|d: Compass| !is_dipan_of(order@, d) by {
        assert(d == Compass::from_ord(d.ord()));
    }
    None
}

/// Which board of 下卦図 (Xia-Gua-Tu) a chart is.
#[derive(Debug, Clone, Copy, PartialEq, Eq, Structural)]
pub enum XiaGuaTuKind {
    /// 運盤 (Un-Pan), the temporal chart.
    UnPanXing,
    /// 山星 (Shan-Xing), the mountain chart.
    ShanXing,
    /// 向星 (Xiang-Xing), the facing chart.
    XiangXing,
}

/// One board of 下卦図 (Xia-Gua-Tu): its centre star, its direction and
/// sector (for Shan-Xing and Xiang-Xing), and the star of each cell.
#[derive(Debug, Clone, Copy, PartialEq)]
pub struct XiaGuaTu {
    pub kind: XiaGuaTuKind,
    pub center: Option<usize>,
    pub direction: Option<Compass>,
    pub sector: Option<usize>,
    pub chart: Option<[usize; 9]>,
}

/// The three boards of 下卦図 (Xia-Gua-Tu).
#[derive(Debug, Clone, Copy, PartialEq)]
pub struct XiaGuaTuCharts {
    pub unpan_xing: XiaGuaTu,
    pub shan_xing: XiaGuaTu,
    pub xiang_xing: XiaGuaTu,
}

/// Why the charts cannot be drawn for these inputs, if they can't.
pub open spec fn xiaguatu_error(center: int, order: Seq<usize>, direction: Seq<char>, sector: int) -> Option<InputError> {
    if compass_of_label(direction) is None {
        Some(InputError::UnknownDirection)
    } else if !(1 <= sector <= 3) {
        Some(InputError::SectorOutOfRange)
    } else if !(0 <= center < 9 && all_stars(order)) {
        Some(InputError::IndexOutOfRange)
    } else if dipan_direction(order) is None {
        Some(InputError::UnknownOrder)
    } else {
        None
    }
}

/// Whether `x` is the temporal chart: `center` flown over `order`.
pub open spec fn is_unpan_chart(x: XiaGuaTu, center: int, order: Seq<usize>) -> bool {
    &&& x.kind == XiaGuaTuKind::UnPanXing
    &&& x.center == Some(center as usize)
    &&& x.direction is None
    &&& x.sector is None
    &&& x.chart is Some
    &&& is_flown_chart(x.chart->Some_0, center, order, false)
}

/// The centre of the chart of Shan-Xing or Xiang-Xing whose direction is `d`:
/// the star of the temporal chart `unpan` in the cell of `d`, on a board
/// whose Di-Pan faces `base`.
pub open spec fn star_chart_center(unpan: [usize; 9], base: Compass, d: Compass) -> int {
    unpan@[cell_of(base, d)] as int
}

/// Whether the chart of Shan-Xing or Xiang-Xing flies in normal order: the
/// rule of `flies_normal`, with the temporal centre in place of 五黄.
pub open spec fn star_chart_flies_normal(center: int, unpan_center: int, sector: int) -> bool {
    flies_normal(if center == 4 { unpan_center } else { center }, sector)
}

/// Whether `x` is the chart of Shan-Xing or Xiang-Xing (`kind`) for
/// direction `d`, drawn over the temporal chart `unpan`.
pub open spec fn is_star_chart(
    x: XiaGuaTu,
    kind: XiaGuaTuKind,
    unpan: [usize; 9],
    unpan_center: int,
    order: Seq<usize>,
    base: Compass,
    d: Compass,
    sector: int,
) -> bool {
    let c = star_chart_center(unpan, base, d);
    &&& x.kind == kind
    &&& x.center == Some(c as usize)
    &&& x.direction == Some(d)
    &&& x.sector == Some(sector as usize)
    &&& x.chart is Some
    &&& is_flown_chart(
        x.chart->Some_0,
        c,
        order,
        !star_chart_flies_normal(c, unpan_center, sector),
    )
}

/// Whether `r` holds the three charts for these inputs: the temporal chart,
/// the chart of Shan-Xing for the direction opposite to `facing`, and the
/// chart of Xiang-Xing for `facing`.
pub open spec fn is_xiaguatu(r: XiaGuaTuCharts, center: int, order: Seq<usize>, facing: Compass, sector: int) -> bool {
    let base = dipan_direction(order)->Some_0;
    let unpan = r.unpan_xing.chart->Some_0;
    &&& is_unpan_chart(r.unpan_xing, center, order)
    &&& is_star_chart(
        r.shan_xing,
        XiaGuaTuKind::ShanXing,
        unpan,
        center,
        order,
        base,
        facing.opposite(),
        sector,
    )
    &&& is_star_chart(r.xiang_xing, XiaGuaTuKind::XiangXing, unpan, center, order, base, facing, sector)
}

/// What `get_xiaguatu_from_unpan_index` returns for these inputs.
pub open spec fn xiaguatu_post(
    r: Result<XiaGuaTuCharts, InputError>,
    center: int,
    order: Seq<usize>,
    direction: Seq<char>,
    sector: int,
) -> bool {
    match xiaguatu_error(center, order, direction, sector) {
        Some(e) => r == Err::<XiaGuaTuCharts, InputError>(e),
        None => r is Ok && is_xiaguatu(
            r->Ok_0,
            center,
            order,
            compass_of_label(direction)->Some_0,
            sector,
        ),
    }
}

/// The chart of Shan-Xing or Xiang-Xing (`kind`) for direction `d`.
fn star_chart(
    kind: XiaGuaTuKind,
    unpan: &[usize; 9],
    unpan_center: usize,
    order: &[usize; 9],
    base: Compass,
    d: Compass,
    sector: usize,
) -> (r: XiaGuaTu)
    requires
        all_stars(unpan@),
        all_stars(order@),
    ensures
        is_star_chart(r, kind, *unpan, unpan_center as int, order@, base, d, sector as int),
{
    let pos = position_in_chart(base, d);
    let center = unpan[pos];
    let normal = is_shan_xiang_flying_normal(
        if center == 4 {
            unpan_center
        } else {
            center
        },
        sector,
    );
    XiaGuaTu {
        kind,
        center: Some(center),
        direction: Some(d),
        sector: Some(sector),
        chart: Some(fly_over(center, order, !normal)),
    }
}

/// Draws 下卦図 (Xia-Gua-Tu): the temporal chart 運盤 (Un-Pan) from its centre
/// star and its Di-Pan order, and the charts of 山星 (Shan-Xing) and 向星
/// (Xiang-Xing) from the direction the building faces and its sector.
pub fn get_xiaguatu_from_unpan_index(
    unpan_xing_center: usize,
    unpan_xing_order: &[usize; 9],
    xiang_xing_direction: &str,
    xiang_xing_sector: usize,
) -> (r: Result<XiaGuaTuCharts, InputError>)
    ensures
        xiaguatu_post(
            r,
            unpan_xing_center as int,
            unpan_xing_order@,
            xiang_xing_direction@,
            xiang_xing_sector as int,
        ),
{
    let facing = match Compass::parse(xiang_xing_direction) {
        Some(d) => d,
        None => return Err(InputError::UnknownDirection),
    };
    if xiang_xing_sector < 1 || xiang_xing_sector > 3 {
        return Err(InputError::SectorOutOfRange);
    }
    let unpan = match fly_flying_stars(unpan_xing_center, unpan_xing_order, false) {
        Ok(chart) => chart,
        Err(e) => return Err(e),
    };
    let base = match direction_from_dipan_order(unpan_xing_order) {
        Some(b) => b,
        None => return Err(InputError::UnknownOrder),
    };
    proof {
        assert(all_stars(unpan@));
    }
    let shan = star_chart(
        XiaGuaTuKind::ShanXing,
        &unpan,
        unpan_xing_center,
        unpan_xing_order,
        base,
        facing.opposite_of(),
        xiang_xing_sector,
    );
    let xiang = star_chart(
        XiaGuaTuKind::XiangXing,
        &unpan,
        unpan_xing_center,
        unpan_xing_order,
        base,
        facing,
        xiang_xing_sector,
    );
    let unpan_xing = XiaGuaTu {
        kind: XiaGuaTuKind::UnPanXing,
        center: Some(unpan_xing_center),
        direction: None,
        sector: None,
        chart: Some(unpan),
    };
    Ok(XiaGuaTuCharts { unpan_xing, shan_xing: shan, xiang_xing: xiang })
}

/// Drawing the charts twice from the same inputs gives the same result: it
/// depends on the inputs alone.
pub proof fn lemma_xiaguatu_is_determined(
    a: Result<XiaGuaTuCharts, InputError>,
    b: Result<XiaGuaTuCharts, InputError>,
    center: int,
    order: Seq<usize>,
    direction: Seq<char>,
    sector: int,
)
    requires
        xiaguatu_post(a, center, order, direction, sector),
        xiaguatu_post(b, center, order, direction, sector),
    ensures
        a == b,
{
    if xiaguatu_error(center, order, direction, sector) is None {
        let x = a->Ok_0;
        let y = b->Ok_0;
        assert(x.unpan_xing.chart->Some_0@ =~= y.unpan_xing.chart->Some_0@);
        assert(x.unpan_xing.chart->Some_0 == y.unpan_xing.chart->Some_0);
        assert(x.unpan_xing == y.unpan_xing);
        assert(x.shan_xing.chart->Some_0@ =~= y.shan_xing.chart->Some_0@);
        assert(x.shan_xing.chart->Some_0 == y.shan_xing.chart->Some_0);
        assert(x.shan_xing == y.shan_xing);
        assert(x.xiang_xing.chart->Some_0@ =~= y.xiang_xing.chart->Some_0@);
        assert(x.xiang_xing.chart->Some_0 == y.xiang_xing.chart->Some_0);
        assert(x.xiang_xing == y.xiang_xing);
    }
}

/// The first year of 三元九運 (Sang-Yuan Jiu-Yun), the nine cycles of twenty
/// years each.
pub const SAN_YUAN_JIU_YUN_START_YEAR: i32 = 1864;

/// A star, 九星 (Jiu-Xing), with its attributes.
#[derive(Debug, Clone)]
pub struct JiuXing {
    pub num: u8,
    pub direction: String,
    pub name: Language,
    pub color: String,
    pub element: WuXing,
    pub planet: Planet,
}

/// A star as the reference data holds it; `element` and `planet` are
/// indices into the tables of elements and planets.
#[derive(Debug, Clone)]
pub struct JiuXingRawData {
    pub num: u8,
    pub direction: String,
    pub name: LanguageData,
    pub color: String,
    pub element: u8,
    pub planet: u8,
}

impl LanguageTrait for JiuXing {
    open spec fn language(&self) -> Language {
        self.name
    }

    fn name(&self) -> (r: Box<Language>) {
        Box::new(self.name.duplicate())
    }
}

impl NameDataTrait for JiuXingRawData {
    open spec fn language_data(&self) -> LanguageData {
        self.name
    }

    fn name(&self) -> (r: Box<LanguageData>) {
        Box::new(self.name.duplicate())
    }
}

/// Whether `j` is what the reference record `raw` reads as.
pub open spec fn jiuxing_from(raw: JiuXingRawData, elements: Seq<WuXing>, planets: Seq<Planet>, j: JiuXing) -> bool {
    &&& j.num == raw.num
    &&& j.direction@ == raw.direction@
    &&& language_from(raw.name, j.name)
    &&& j.color@ == raw.color@
    &&& j.element == elements[raw.element as int]
    &&& j.planet == planets[raw.planet as int]
}

/// Why the reference data cannot make the table of the nine stars, if it
/// cannot: it must hold nine records, each naming an element and a planet
/// that the tables hold.
pub open spec fn jiuxing_table_error(data: Seq<JiuXingRawData>, elements: Seq<WuXing>, planets: Seq<Planet>) -> Option<InputError> {
    if data.len() != 9 {
        Some(InputError::WrongLength)
    } else if exists|i: int|
        0 <= i < 9 && (data[i].element >= elements.len() || data[i].planet >= planets.len()) {
        Some(InputError::IndexOutOfRange)
    } else {
        None
    }
}

/// The table of the nine stars, read from the reference data.
pub fn jiuxing_from_raw(data: &Vec<JiuXingRawData>, elements: &Vec<WuXing>, planets: &Vec<Planet>) -> (r: Result<
    Vec<JiuXing>,
    InputError,
>)
    requires
        forall|i: int| 0 <= i < data.len() ==> language_data_ok(#[trigger] data[i].name),
    ensures
        match jiuxing_table_error(data@, elements@, planets@) {
            Some(e) => r == Err::<Vec<JiuXing>, InputError>(e),
            None => r is Ok && r->Ok_0.len() == 9 && forall|i: int|
                0 <= i < 9 ==> jiuxing_from(data[i], elements@, planets@, #[trigger] r->Ok_0[i]),
        },
{
    if data.len() != 9 {
        return Err(InputError::WrongLength);
    }
    let mut r: Vec<JiuXing> = Vec::new();
    let mut i: usize = 0;
    while i < 9
        invariant
            i <= 9,
            data.len() == 9,
            r.len() == i,
            forall|i: int| 0 <= i < data.len() ==> language_data_ok(#[trigger] data[i].name),
            forall|j: int|
                0 <= j < i ==> (data[j].element as int) < elements.len() && (data[j].planet as int)
                    < planets.len(),
            forall|j: int| 0 <= j < i ==> jiuxing_from(data[j], elements@, planets@, #[trigger] r[j]),
        decreases 9 - i,
    {
        let raw = &data[i];
        if raw.element as usize >= elements.len() || raw.planet as usize >= planets.len() {
            return Err(InputError::IndexOutOfRange);
        }
        r.push(
            JiuXing {
                num: raw.num,
                direction: raw.direction.clone(),
                name: language_from_data(&raw.name),
                color: raw.color.clone(),
                element: elements[raw.element as usize].duplicate(),
                planet: planets[raw.planet as usize].duplicate(),
            },
        );
        i += 1;
    }
    Ok(r)
}

/// The star at index `index` of the table of the nine stars.
pub fn get_jiuxing_from_index(table: &Vec<JiuXing>, index: usize) -> (r: Result<&JiuXing, InputError>)
    ensures
        index < table.len() ==> r == Ok::<&JiuXing, InputError>(&table[index as int]),
        index >= table.len() ==> r == Err::<&JiuXing, InputError>(InputError::IndexOutOfRange),
{
    if index >= table.len() {
        return Err(InputError::IndexOutOfRange);
    }
    Ok(&table[index])
}

/// Whether date `a` comes before date `b`.
pub open spec fn date_before(a: DateParams, b: DateParams) -> bool {
    a.year < b.year || (a.year == b.year && (a.month < b.month || (a.month == b.month && a.day
        < b.day)))
}

/// The year of 三元九運 (Sang-Yuan Jiu-Yun) that a date belongs to: the year
/// begins at 立春 (Li-Chun), and a date before it belongs to the year before.
pub open spec fn cycle_year(current: DateParams, lichun: DateParams) -> int {
    if date_before(current, lichun) {
        current.year - 1
    } else {
        current.year as int
    }
}

/// The period of the nine cycles that a year falls in: a period lasts 20
/// years, and all nine repeat every 180 years from 1864.
pub open spec fn unpan_index(year: int) -> int {
    ((year - SAN_YUAN_JIU_YUN_START_YEAR) % 180) / 20
}

/// The temporal centre star of 運盤 (Un-Pan) for date `current`, given 立春
/// (Li-Chun) of its calendar year; years before 1864 are refused.
pub fn unpan_xing_index(current: &DateParams, lichun: &DateParams) -> (r: Result<usize, InputError>)
    ensures
        cycle_year(*current, *lichun) >= SAN_YUAN_JIU_YUN_START_YEAR ==> r == Ok::<usize, InputError>(
            unpan_index(cycle_year(*current, *lichun)) as usize,
        ),
        cycle_year(*current, *lichun) < SAN_YUAN_JIU_YUN_START_YEAR ==> r == Err::<usize, InputError>(
            InputError::YearOutOfRange,
        ),
        r matches Ok(i) ==> i < 9,
{
    let before = current.year < lichun.year || (current.year == lichun.year && (current.month
        < lichun.month || (current.month == lichun.month && current.day < lichun.day)));
    if current.year < SAN_YUAN_JIU_YUN_START_YEAR || (before && current.year
        == SAN_YUAN_JIU_YUN_START_YEAR) {
        return Err(InputError::YearOutOfRange);
    }
    let year: i32 = if before {
        current.year - 1
    } else {
        current.year
    };
    let dt: i32 = year - SAN_YUAN_JIU_YUN_START_YEAR;
    let norm: i32 = dt % 180;
    Ok((norm / 20) as usize)
}

} // verus!
