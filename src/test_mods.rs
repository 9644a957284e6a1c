//! Plain parameter records, as a host hands them over.
use vstd::prelude::*;

use crate::error::InputError;
use crate::jiuxing::{get_xiaguatu_from_unpan_index, xiaguatu_post, XiaGuaTuCharts};
use crate::shengsi::{cell_record, get_shengsi_mapping, ShengSi};

verus! {

/// A calendar date.
#[derive(Debug, Clone, Copy, PartialEq, Eq, Structural)]
pub struct DateParams {
    pub year: i32,
    pub month: u32,
    pub day: u32,
}

/// A calendar date and time, with its zone.
#[derive(Debug, Clone, Copy, PartialEq, Eq, Structural)]
pub struct DateTimeParams {
    pub year: i32,
    pub month: u32,
    pub day: u32,
    pub hour: u32,
    pub minute: u32,
    pub second: u32,
    pub nanosecond: u32,
    pub zone: i32,
}

/// The inputs of 下卦図 (Xia-Gua-Tu).
#[derive(Debug, Clone)]
pub struct XiaGuaTuParams {
    pub unpan_xing_center: usize,
    pub unpan_xing_order: Vec<usize>,
    pub xiang_xing_direction: String,
    pub xiang_xing_sector: usize,
}

/// The inputs of 生死衰旺 (Sheng-Si Shuai-Wang).
#[derive(Debug, Clone)]
pub struct ShengSiParams {
    pub unpan_id: usize,
    pub unpan_xing_chart: Vec<usize>,
}

/// The nine items of `v`, if it holds nine.
fn nine_of(v: &Vec<usize>) -> (r: Option<[usize; 9]>)
    ensures
        v.len() == 9 <==> r is Some,
        r matches Some(a) ==> a@ == v@,
{
    if v.len() != 9 {
        return None;
    }
    let a: [usize; 9] = [v[0], v[1], v[2], v[3], v[4], v[5], v[6], v[7], v[8]];
    assert(a@ =~= v@);
    Some(a)
}

impl XiaGuaTuParams {
    /// Draws 下卦図 (Xia-Gua-Tu) for these inputs; an order that does not hold
    /// nine items is refused.
    pub fn charts(&self) -> (r: Result<XiaGuaTuCharts, InputError>)
        ensures
            self.unpan_xing_order.len() != 9 ==> r == Err::<XiaGuaTuCharts, InputError>(
                InputError::WrongLength,
            ),
            self.unpan_xing_order.len() == 9 ==> xiaguatu_post(
                r,
                self.unpan_xing_center as int,
                self.unpan_xing_order@,
                self.xiang_xing_direction@,
                self.xiang_xing_sector as int,
            ),
    {
        match nine_of(&self.unpan_xing_order) {
            None => Err(InputError::WrongLength),
            Some(order) => get_xiaguatu_from_unpan_index(
                self.unpan_xing_center,
                &order,
                self.xiang_xing_direction.as_str(),
                self.xiang_xing_sector,
            ),
        }
    }
}

impl ShengSiParams {
    /// 生死衰旺 (Sheng-Si Shuai-Wang) of each cell for these inputs; a chart
    /// that does not hold nine items is refused.
    pub fn mapping(&self) -> (r: Result<Vec<Option<ShengSi<'static>>>, InputError>)
        ensures
            self.unpan_xing_chart.len() != 9 ==> r == Err::<Vec<Option<ShengSi<'static>>>, InputError>(
                InputError::WrongLength,
            ),
            self.unpan_xing_chart.len() == 9 ==> (r is Ok <==> self.unpan_id < 9 && forall|i: int|
                0 <= i < 9 ==> self.unpan_xing_chart@[i] < 9),
            r matches Ok(cells) ==> cells.len() == 9 && forall|i: int|
                0 <= i < 9 ==> cells@[i] == cell_record(
                    self.unpan_id as int,
                    self.unpan_xing_chart@[i] as int,
                ),
    {
        match nine_of(&self.unpan_xing_chart) {
            None => Err(InputError::WrongLength),
            Some(chart) => get_shengsi_mapping(self.unpan_id, &chart),
        }
    }
}

} // verus!
