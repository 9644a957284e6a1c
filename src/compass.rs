//! Compass directions. A circle of 360 degrees is cut into 8 directions of
//! 45 degrees each, and each direction again into 3 sectors of 15 degrees:
//! 24 sectors in all, the 二十四山向 (Er-Shi-Si Shan-Xiang) of Feng-Shui.
use vstd::prelude::*;
use vstd::string::*;

use crate::error::InputError;

verus! {

broadcast use vstd::seq::group_seq_axioms;

/// One of the eight compass directions.
#[derive(Debug, Clone, Copy, PartialEq, Eq, Structural)]
pub enum Compass {
    N,
    NE,
    E,
    SE,
    S,
    SW,
    W,
    NW,
}

impl Compass {
    /// Place of the direction in clockwise order, north first.
    pub open spec fn ord(self) -> int {
        match self {
            Compass::N => 0,
            Compass::NE => 1,
            Compass::E => 2,
            Compass::SE => 3,
            Compass::S => 4,
            Compass::SW => 5,
            Compass::W => 6,
            Compass::NW => 7,
        }
    }

    /// The direction at place `i` in clockwise order, north first.
    pub open spec fn from_ord(i: int) -> Compass {
        if i == 0 {
            Compass::N
        } else if i == 1 {
            Compass::NE
        } else if i == 2 {
            Compass::E
        } else if i == 3 {
            Compass::SE
        } else if i == 4 {
            Compass::S
        } else if i == 5 {
            Compass::SW
        } else if i == 6 {
            Compass::W
        } else {
            Compass::NW
        }
    }

    /// The direction `k` steps of 45 degrees clockwise from this one.
    pub open spec fn turned(self, k: int) -> Compass {
        Compass::from_ord((self.ord() + k) % 8)
    }

    /// The label of the direction: "n", "ne", "e", "se", "s", "sw", "w" or "nw".
    pub open spec fn label(self) -> Seq<char> {
        match self {
            Compass::N => seq!['n'],
            Compass::NE => seq!['n', 'e'],
            Compass::E => seq!['e'],
            Compass::SE => seq!['s', 'e'],
            Compass::S => seq!['s'],
            Compass::SW => seq!['s', 'w'],
            Compass::W => seq!['w'],
            Compass::NW => seq!['n', 'w'],
        }
    }

    /// The direction straight across the compass.
    pub open spec fn opposite(self) -> Compass {
        match self {
            Compass::N => Compass::S,
            Compass::NE => Compass::SW,
            Compass::E => Compass::W,
            Compass::SE => Compass::NW,
            Compass::S => Compass::N,
            Compass::SW => Compass::NE,
            Compass::W => Compass::E,
            Compass::NW => Compass::SE,
        }
    }

    pub fn index(self) -> (r: usize)
        ensures
            r == self.ord(),
    {
        match self {
            Compass::N => 0,
            Compass::NE => 1,
            Compass::E => 2,
            Compass::SE => 3,
            Compass::S => 4,
            Compass::SW => 5,
            Compass::W => 6,
            Compass::NW => 7,
        }
    }

    pub fn from_index(i: usize) -> (r: Compass)
        requires
            i < 8,
        ensures
            r == Compass::from_ord(i as int),
            r.ord() == i,
    {
        if i == 0 {
            Compass::N
        } else if i == 1 {
            Compass::NE
        } else if i == 2 {
            Compass::E
        } else if i == 3 {
            Compass::SE
        } else if i == 4 {
            Compass::S
        } else if i == 5 {
            Compass::SW
        } else if i == 6 {
            Compass::W
        } else {
            Compass::NW
        }
    }

    /// The direction `k` steps of 45 degrees clockwise from this one.
    pub fn turn(self, k: usize) -> (r: Compass)
        requires
            k < 8,
        ensures
            r == self.turned(k as int),
    {
        Compass::from_index((self.index() + k) % 8)
    }

    pub fn opposite_of(self) -> (r: Compass)
        ensures
            r == self.opposite(),
    {
        match self {
            Compass::N => Compass::S,
            Compass::NE => Compass::SW,
            Compass::E => Compass::W,
            Compass::SE => Compass::NW,
            Compass::S => Compass::N,
            Compass::SW => Compass::NE,
            Compass::W => Compass::E,
            Compass::NW => Compass::SE,
        }
    }

    pub fn as_str(self) -> (r: &'static str)
        ensures
            r@ == self.label(),
    {
        match self {
            Compass::N => {
                proof {
                    reveal_strlit("n");
                }
                "n"
            },
            Compass::NE => {
                proof {
                    reveal_strlit("ne");
                }
                "ne"
            },
            Compass::E => {
                proof {
                    reveal_strlit("e");
                }
                "e"
            },
            Compass::SE => {
                proof {
                    reveal_strlit("se");
                }
                "se"
            },
            Compass::S => {
                proof {
                    reveal_strlit("s");
                }
                "s"
            },
            Compass::SW => {
                proof {
                    reveal_strlit("sw");
                }
                "sw"
            },
            Compass::W => {
                proof {
                    reveal_strlit("w");
                }
                "w"
            },
            Compass::NW => {
                proof {
                    reveal_strlit("nw");
                }
                "nw"
            },
        }
    }

    /// Reads a direction label.
    pub fn parse(label: &str) -> (r: Option<Compass>)
        ensures
            r == compass_of_label(label@),
    {
        if same_text(label, Compass::N.as_str()) {
            Some(Compass::N)
        } else if same_text(label, Compass::NE.as_str()) {
            Some(Compass::NE)
        } else if same_text(label, Compass::E.as_str()) {
            Some(Compass::E)
        } else if same_text(label, Compass::SE.as_str()) {
            Some(Compass::SE)
        } else if same_text(label, Compass::S.as_str()) {
            Some(Compass::S)
        } else if same_text(label, Compass::SW.as_str()) {
            Some(Compass::SW)
        } else if same_text(label, Compass::W.as_str()) {
            Some(Compass::W)
        } else if same_text(label, Compass::NW.as_str()) {
            Some(Compass::NW)
        } else {
            None
        }
    }
}

/// The direction that a label names, if any.
pub open spec fn compass_of_label(s: Seq<char>) -> Option<Compass> {
    if s == Compass::N.label() {
        Some(Compass::N)
    } else if s == Compass::NE.label() {
        Some(Compass::NE)
    } else if s == Compass::E.label() {
        Some(Compass::E)
    } else if s == Compass::SE.label() {
        Some(Compass::SE)
    } else if s == Compass::S.label() {
        Some(Compass::S)
    } else if s == Compass::SW.label() {
        Some(Compass::SW)
    } else if s == Compass::W.label() {
        Some(Compass::W)
    } else if s == Compass::NW.label() {
        Some(Compass::NW)
    } else {
        None
    }
}

/// Whether two strings hold the same characters.
pub fn same_text(a: &str, b: &str) -> (r: bool)
    ensures
        r == (a@ == b@),
{
    let n = a.unicode_len();
    if n != b.unicode_len() {
        return false;
    }
    let mut i: usize = 0;
    while i < n
        invariant
            n == a@.len(),
            n == b@.len(),
            i <= n,
            forall|j: int| 0 <= j < i ==> a@[j] == b@[j],
        decreases n - i,
    {
        if a.get_char(i) != b.get_char(i) {
            return false;
        }
        i += 1;
    }
    assert(a@ =~= b@);
    true
}

/// The label of a chart cell: a direction's label, or "" for the middle cell.
pub open spec fn cell_label(c: Option<Compass>) -> Seq<char> {
    match c {
        Some(d) => d.label(),
        None => Seq::empty(),
    }
}

pub fn cell_as_str(c: Option<Compass>) -> (r: &'static str)
    ensures
        r@ == cell_label(c),
{
    match c {
        Some(d) => d.as_str(),
        None => {
            proof {
                reveal_strlit("");
            }
            ""
        },
    }
}

/// Cell `p` of the 3x3 chart when facing north, read row by row:
///
/// [0] nw  [1] n   [2] ne
/// [3] w   [4]     [5] e
/// [6] sw  [7] s   [8] se
///
/// The middle cell holds no direction.
pub open spec fn north_cell(p: int) -> Option<Compass> {
    if p == 0 {
        Some(Compass::NW)
    } else if p == 1 {
        Some(Compass::N)
    } else if p == 2 {
        Some(Compass::NE)
    } else if p == 3 {
        Some(Compass::W)
    } else if p == 5 {
        Some(Compass::E)
    } else if p == 6 {
        Some(Compass::SW)
    } else if p == 7 {
        Some(Compass::S)
    } else if p == 8 {
        Some(Compass::SE)
    } else {
        None
    }
}

/// Cell `p` of the chart when the device faces `facing`: every direction of
/// the north layout turned by as many steps as `facing` is from north.
pub open spec fn chart_cell(facing: Compass, p: int) -> Option<Compass> {
    match north_cell(p) {
        Some(d) => Some(d.turned(facing.ord())),
        None => None,
    }
}

/// The cell in which direction `d` stands when the device faces `facing`.
pub open spec fn cell_of(facing: Compass, d: Compass) -> int {
    match d.turned(8 - facing.ord()) {
        Compass::NW => 0,
        Compass::N => 1,
        Compass::NE => 2,
        Compass::W => 3,
        Compass::E => 5,
        Compass::SW => 6,
        Compass::S => 7,
        Compass::SE => 8,
    }
}

/// The nine cells of the chart as seen facing `facing`.
pub fn chart_positions(facing: Compass) -> (r: [Option<Compass>; 9])
    ensures
        forall|p: int| 0 <= p < 9 ==> r@[p] == chart_cell(facing, p),
{
    let k = facing.index();
    let r = [
        Some(Compass::NW.turn(k)),
        Some(Compass::N.turn(k)),
        Some(Compass::NE.turn(k)),
        Some(Compass::W.turn(k)),
        None,
        Some(Compass::E.turn(k)),
        Some(Compass::SW.turn(k)),
        Some(Compass::S.turn(k)),
        Some(Compass::SE.turn(k)),
    ];
    assert forall|p: int| 0 <= p < 9 implies r@[p] == chart_cell(facing, p) by {
        if p == 0 {
        } else if p == 1 {
        } else if p == 2 {
        } else if p == 3 {
        } else if p == 4 {
        } else if p == 5 {
        } else if p == 6 {
        } else if p == 7 {
        } else {
        }
    }
    r
}

/// The cell in which direction `d` stands when the device faces `facing`.
pub fn position_in_chart(facing: Compass, d: Compass) -> (r: usize)
    ensures
        r == cell_of(facing, d),
        r < 9,
        chart_cell(facing, r as int) == Some(d),
{
    let k = facing.index();
    let back = d.turn((8 - k) % 8);
    proof {
        lemma_turn_back(d, facing.ord());
    }
    let r: usize = match back {
        Compass::NW => 0,
        Compass::N => 1,
        Compass::NE => 2,
        Compass::W => 3,
        Compass::E => 5,
        Compass::SW => 6,
        Compass::S => 7,
        Compass::SE => 8,
    };
    r
}

proof fn lemma_ord_from_ord(i: int)
    requires
        0 <= i < 8,
    ensures
        Compass::from_ord(i).ord() == i,
{
}

/// Turning back and then forth by the same number of steps changes nothing.
proof fn lemma_turn_back(d: Compass, k: int)
    requires
        0 <= k < 8,
    ensures
        d.turned((8 - k) % 8) == d.turned(8 - k),
        d.turned(8 - k).turned(k) == d,
{
    let i = (d.ord() + 8 - k) % 8;
    lemma_ord_from_ord(i);
    assert((i + k) % 8 == d.ord());
    assert((d.ord() + (8 - k) % 8) % 8 == i);
}

/// The labels of the nine chart cells when the device faces `direction`
/// (the middle cell reads ""), or `None` for an unknown label.
///
/// [0] nw  [1] n   [2] ne
/// [3] w   [4]     [5] e
/// [6] sw  [7] s   [8] se      (facing "n")
pub fn get_direction_positions_in_chart(direction: &str) -> (r: Option<[&'static str; 9]>)
    ensures
        r is None <==> compass_of_label(direction@) is None,
        r matches Some(labels) ==> forall|p: int|
            0 <= p < 9 ==> labels@[p]@ == cell_label(
                chart_cell(compass_of_label(direction@)->Some_0, p),
            ),
{
    match Compass::parse(direction) {
        None => None,
        Some(facing) => {
            let cells = chart_positions(facing);
            let labels = [
                cell_as_str(cells[0]),
                cell_as_str(cells[1]),
                cell_as_str(cells[2]),
                cell_as_str(cells[3]),
                cell_as_str(cells[4]),
                cell_as_str(cells[5]),
                cell_as_str(cells[6]),
                cell_as_str(cells[7]),
                cell_as_str(cells[8]),
            ];
            assert forall|p: int| 0 <= p < 9 implies labels@[p]@ == cell_label(
                chart_cell(facing, p),
            ) by {
                if p == 0 {
                } else if p == 1 {
                } else if p == 2 {
                } else if p == 3 {
                } else if p == 4 {
                } else if p == 5 {
                } else if p == 6 {
                } else if p == 7 {
                } else {
                }
            }
            Some(labels)
        },
    }
}

/// The label of the direction opposite to `dir`.
pub fn get_opposite_direction(dir: &str) -> (r: Result<&'static str, InputError>)
    ensures
        match compass_of_label(dir@) {
            Some(d) => r matches Ok(s) && s@ == d.opposite().label(),
            None => r == Err::<&'static str, InputError>(InputError::UnknownDirection),
        },
{
    match Compass::parse(dir) {
        Some(d) => Ok(d.opposite_of().as_str()),
        None => Err(InputError::UnknownDirection),
    }
}

/// Opposite directions pair up: the opposite of the opposite is the
/// direction itself, and so is the direction that the label of the opposite
/// of the opposite names.
pub proof fn lemma_opposite_involutive(d: Compass)
    ensures
        d.opposite().opposite() == d,
        compass_of_label(d.opposite().label()) == Some(d.opposite()),
        compass_of_label(d.opposite().opposite().label()) == Some(d),
{
    lemma_label_names_direction(d);
    lemma_label_names_direction(d.opposite());
}

proof fn lemma_turned_injective(a: Compass, b: Compass, k: int)
    requires
        0 <= k < 8,
        a.turned(k) == b.turned(k),
    ensures
        a == b,
{
    lemma_ord_from_ord((a.ord() + k) % 8);
    lemma_ord_from_ord((b.ord() + k) % 8);
}

proof fn lemma_from_ord_ord(d: Compass)
    ensures
        Compass::from_ord(d.ord()) == d,
{
}

/// Cells of the north layout other than the middle hold distinct directions.
proof fn lemma_north_cells_distinct(p: int, q: int)
    requires
        0 <= p < q < 9,
        p != 4,
        q != 4,
    ensures
        north_cell(p) is Some,
        north_cell(q) is Some,
        north_cell(p) != north_cell(q),
{
}

proof fn lemma_chart_cells_distinct(facing: Compass, p: int, q: int)
    requires
        0 <= p < q < 9,
        p != 4,
        q != 4,
    ensures
        chart_cell(facing, p) is Some,
        chart_cell(facing, p) != chart_cell(facing, q),
{
    lemma_north_cells_distinct(p, q);
    if chart_cell(facing, p) == chart_cell(facing, q) {
        lemma_turned_injective(north_cell(p)->Some_0, north_cell(q)->Some_0, facing.ord());
    }
}

proof fn lemma_cell_of_holds(facing: Compass, d: Compass)
    ensures
        chart_cell(facing, cell_of(facing, d)) == Some(d),
{
    lemma_turn_back(d, facing.ord());
}

proof fn lemma_north_layout(p: int)
    requires
        0 <= p < 9,
    ensures
        chart_cell(Compass::N, p) == north_cell(p),
{
    if north_cell(p) is Some {
        lemma_from_ord_ord(north_cell(p)->Some_0);
    }
}

/// Turned to face any direction, the chart keeps the middle cell empty and
/// shows every direction in exactly one of the other eight cells; facing
/// north it is the north layout itself.
pub proof fn lemma_chart_positions_permute(facing: Compass)
    ensures
        chart_cell(facing, 4) is None,
        forall|p: int| 0 <= p < 9 && p != 4 ==> #[trigger] chart_cell(facing, p) is Some,
        forall|p: int, q: int|
            0 <= p < q < 9 && p != 4 && q != 4 ==> chart_cell(facing, p) != chart_cell(facing, q),
        forall|d: Compass| #[trigger] chart_cell(facing, cell_of(facing, d)) == Some(d),
        forall|p: int| 0 <= p < 9 ==> #[trigger] chart_cell(Compass::N, p) == north_cell(p),
{
    assert forall|p: int| 0 <= p < 9 && p != 4 implies #[trigger] chart_cell(facing, p) is Some by {
        if p < 8 {
            lemma_chart_cells_distinct(facing, p, 8);
        } else {
            lemma_north_cells_distinct(0, p);
        }
    }
    assert forall|p: int, q: int|
        0 <= p < q < 9 && p != 4 && q != 4 implies chart_cell(facing, p) != chart_cell(
        facing,
        q,
    ) by {
        lemma_chart_cells_distinct(facing, p, q);
    }
    assert forall|d: Compass| #[trigger] chart_cell(facing, cell_of(facing, d)) == Some(d) by {
        lemma_cell_of_holds(facing, d);
    }
    assert forall|p: int| 0 <= p < 9 implies #[trigger] chart_cell(Compass::N, p) == north_cell(
        p,
    ) by {
        lemma_north_layout(p);
    }
}

/// Each label names exactly one direction.
pub proof fn lemma_label_names_direction(d: Compass)
    ensures
        compass_of_label(d.label()) == Some(d),
{
    assert(seq!['n'].len() == 1 && seq!['n'][0] == 'n');
    assert(seq!['e'].len() == 1 && seq!['e'][0] == 'e');
    assert(seq!['s'].len() == 1 && seq!['s'][0] == 's');
    assert(seq!['w'].len() == 1 && seq!['w'][0] == 'w');
    assert(seq!['n', 'e'].len() == 2 && seq!['n', 'e'][0] == 'n' && seq!['n', 'e'][1] == 'e');
    assert(seq!['s', 'e'].len() == 2 && seq!['s', 'e'][0] == 's' && seq!['s', 'e'][1] == 'e');
    assert(seq!['s', 'w'].len() == 2 && seq!['s', 'w'][0] == 's' && seq!['s', 'w'][1] == 'w');
    assert(seq!['n', 'w'].len() == 2 && seq!['n', 'w'][0] == 'n' && seq!['n', 'w'][1] == 'w');
}

/// A direction with one of its three sectors (1, 2 or 3, clockwise).
#[derive(Debug, Clone, PartialEq)]
pub struct Direction {
    pub direction: String,
    pub sector: usize,
}

impl Direction {
    pub fn new(direction: &str, sector: usize) -> (r: Direction)
        ensures
            r.direction@ == direction@,
            r.sector == sector,
    {
        Direction { direction: String::from_str(direction), sector }
    }
}

/// Index among the 24 sectors of sector `sector` of direction `d`. The ring
/// starts at the middle sector of north: 0 is "n" 2, 1 is "n" 3, 2 is "ne" 1,
/// and so on clockwise, so that "n" 1 comes last, at 23.
pub open spec fn twentyfour_index(d: Compass, sector: int) -> int {
    (3 * d.ord() + sector + 22) % 24
}

/// The direction of the sector at index `i` of the 24.
pub open spec fn twentyfour_compass(i: int) -> Compass {
    Compass::from_ord(((i + 1) % 24) / 3)
}

/// The sector (1, 2 or 3) at index `i` of the 24.
pub open spec fn twentyfour_sector(i: int) -> int {
    (i + 1) % 24 % 3 + 1
}

/// From a direction and a sector to the index among the 24 and back gives
/// the same direction and sector.
pub proof fn lemma_twentyfour_round_trip(d: Compass, sector: int)
    requires
        1 <= sector <= 3,
    ensures
        0 <= twentyfour_index(d, sector) < 24,
        twentyfour_compass(twentyfour_index(d, sector)) == d,
        twentyfour_sector(twentyfour_index(d, sector)) == sector,
{
}

/// From an index among the 24 to its direction and sector and back gives the
/// same index.
pub proof fn lemma_twentyfour_index_round_trip(i: int)
    requires
        0 <= i < 24,
    ensures
        1 <= twentyfour_sector(i) <= 3,
        twentyfour_index(twentyfour_compass(i), twentyfour_sector(i)) == i,
{
    lemma_ord_from_ord(((i + 1) % 24) / 3);
}

fn compass_and_sector_at(index: usize) -> (r: (Compass, usize))
    requires
        index < 24,
    ensures
        r.0 == twentyfour_compass(index as int),
        r.1 == twentyfour_sector(index as int),
        1 <= r.1 <= 3,
{
    let k = (index + 1) % 24;
    (Compass::from_index(k / 3), k % 3 + 1)
}

/// What index `index` of the 24 sectors reads as a direction and a sector.
pub open spec fn direction_at(index: int, dir: Direction) -> bool {
    &&& dir.direction@ == twentyfour_compass(index).label()
    &&& dir.sector == twentyfour_sector(index)
}

/// The direction and sector at index `index` of the 24 sectors.
pub fn get_twentyfour_direction_from_index(index: usize) -> (r: Result<Direction, InputError>)
    ensures
        index < 24 <==> r is Ok,
        r matches Ok(dir) ==> direction_at(index as int, dir),
        r matches Err(e) ==> e == InputError::IndexOutOfRange,
{
    if index >= 24 {
        return Err(InputError::IndexOutOfRange);
    }
    let (d, sector) = compass_and_sector_at(index);
    Ok(Direction::new(d.as_str(), sector))
}

/// Index among the 24 sectors of a direction label and a sector, or why
/// there is none.
pub open spec fn twentyfour_index_of(direction: Seq<char>, sector: int) -> Result<usize, InputError> {
    match compass_of_label(direction) {
        None => Err(InputError::UnknownDirection),
        Some(d) => if 1 <= sector <= 3 {
            Ok(twentyfour_index(d, sector) as usize)
        } else {
            Err(InputError::SectorOutOfRange)
        },
    }
}

/// Index among the 24 sectors of sector `sector` of direction `direction`.
pub fn get_twentyfour_index_from_direction(direction: &str, sector: usize) -> (r: Result<
    usize,
    InputError,
>)
    ensures
        r == twentyfour_index_of(direction@, sector as int),
        r matches Ok(i) ==> i < 24,
{
    match Compass::parse(direction) {
        None => Err(InputError::UnknownDirection),
        Some(d) => {
            if sector < 1 || sector > 3 {
                return Err(InputError::SectorOutOfRange);
            }
            Ok((3 * d.index() + sector + 22) % 24)
        },
    }
}

/// The `Direction` record of sector `sector` of direction `direction`.
pub fn get_twentyfour_direction_from_direction(direction: &str, sector: usize) -> (r: Result<
    Direction,
    InputError,
>)
    ensures
        r is Ok <==> twentyfour_index_of(direction@, sector as int) is Ok,
        r matches Ok(dir) ==> dir.direction@ == direction@ && dir.sector == sector,
        r matches Err(e) ==> twentyfour_index_of(direction@, sector as int) == Err::<
            usize,
            InputError,
        >(e),
{
    match get_twentyfour_index_from_direction(direction, sector) {
        Ok(index) => {
            proof {
                let d = compass_of_label(direction@)->Some_0;
                lemma_twentyfour_round_trip(d, sector as int);
            }
            let (d, s) = compass_and_sector_at(index);
            Ok(Direction::new(d.as_str(), s))
        },
        Err(e) => Err(e),
    }
}

/// What stands at one of the 24 sectors: a trigram (卦, index into the
/// Lo-Shu order with the centre), a stem (干) or a branch (支).
#[derive(Debug, Clone, Copy, PartialEq, Eq, Structural)]
pub enum TwentyFourType {
    Bagua(usize),
    Stem(usize),
    Branch(usize),
}

/// What stands at index `i` of the 24 sectors, starting north: the twelve
/// branches at the even places, stems and trigrams between them.
pub open spec fn twentyfour_type(i: int) -> TwentyFourType {
    if i % 2 == 0 {
        TwentyFourType::Branch((i / 2) as usize)
    } else if i == 1 {
        TwentyFourType::Stem(9)
    } else if i == 3 {
        TwentyFourType::Bagua(7)
    } else if i == 5 {
        TwentyFourType::Stem(0)
    } else if i == 7 {
        TwentyFourType::Stem(1)
    } else if i == 9 {
        TwentyFourType::Bagua(3)
    } else if i == 11 {
        TwentyFourType::Stem(2)
    } else if i == 13 {
        TwentyFourType::Stem(3)
    } else if i == 15 {
        TwentyFourType::Bagua(1)
    } else if i == 17 {
        TwentyFourType::Stem(6)
    } else if i == 19 {
        TwentyFourType::Stem(7)
    } else if i == 21 {
        TwentyFourType::Bagua(5)
    } else {
        TwentyFourType::Stem(8)
    }
}

/// What stands at index `index` of the 24 sectors.
pub fn get_twentyfour_data_from_index(index: usize) -> (r: Result<TwentyFourType, InputError>)
    ensures
        index < 24 ==> r == Ok::<TwentyFourType, InputError>(twentyfour_type(index as int)),
        index >= 24 ==> r == Err::<TwentyFourType, InputError>(InputError::IndexOutOfRange),
{
    if index >= 24 {
        Err(InputError::IndexOutOfRange)
    } else if index % 2 == 0 {
        Ok(TwentyFourType::Branch(index / 2))
    } else if index == 1 {
        Ok(TwentyFourType::Stem(9))
    } else if index == 3 {
        Ok(TwentyFourType::Bagua(7))
    } else if index == 5 {
        Ok(TwentyFourType::Stem(0))
    } else if index == 7 {
        Ok(TwentyFourType::Stem(1))
    } else if index == 9 {
        Ok(TwentyFourType::Bagua(3))
    } else if index == 11 {
        Ok(TwentyFourType::Stem(2))
    } else if index == 13 {
        Ok(TwentyFourType::Stem(3))
    } else if index == 15 {
        Ok(TwentyFourType::Bagua(1))
    } else if index == 17 {
        Ok(TwentyFourType::Stem(6))
    } else if index == 19 {
        Ok(TwentyFourType::Stem(7))
    } else if index == 21 {
        Ok(TwentyFourType::Bagua(5))
    } else {
        Ok(TwentyFourType::Stem(8))
    }
}

/// What stands at sector `sector` of direction `direction`.
pub fn get_twentyfour_data_from_direction(direction: &str, sector: usize) -> (r: Result<
    TwentyFourType,
    InputError,
>)
    ensures
        match twentyfour_index_of(direction@, sector as int) {
            Ok(i) => r == Ok::<TwentyFourType, InputError>(twentyfour_type(i as int)),
            Err(e) => r == Err::<TwentyFourType, InputError>(e),
        },
{
    match get_twentyfour_index_from_direction(direction, sector) {
        Ok(index) => get_twentyfour_data_from_index(index),
        Err(e) => Err(e),
    }
}

/// Index among the 24 of the slot that holds an angle given in half degrees
/// (`h` stands for every angle in `[h / 2, (h + 1) / 2)` degrees, all of which
/// share a slot, since slots begin and end at odd multiples of 7.5 degrees).
pub open spec fn slot_of_half_degrees(h: int) -> int {
    ((h + 15) / 30) % 24
}

/// Whether the angle of `h` half degrees lies in slot `i`: slot `i` spans
/// `[15 i - 7.5, 15 i + 7.5)` degrees, and slot 0 reaches over north, from
/// 352.5 degrees round to 7.5 degrees.
pub open spec fn in_slot(h: int, i: int) -> bool {
    if i == 0 {
        h < 15 || 705 <= h
    } else {
        30 * i - 15 <= h < 30 * i + 15
    }
}

/// Every angle in `[0, 360)` degrees lies in exactly one of the 24 slots,
/// the one that `slot_of_half_degrees` names.
pub proof fn lemma_slots_partition(h: int)
    requires
        0 <= h < 720,
    ensures
        0 <= slot_of_half_degrees(h) < 24,
        in_slot(h, slot_of_half_degrees(h)),
        forall|i: int| 0 <= i < 24 && #[trigger] in_slot(h, i) ==> i == slot_of_half_degrees(h),
{
}

/// Index among the 24 of the slot that holds an angle of `half_degrees`
/// half degrees (an angle of `d` degrees is `floor(2 d)` half degrees).
pub fn twentyfour_index_from_half_degrees(half_degrees: u32) -> (r: Result<usize, InputError>)
    ensures
        half_degrees < 720 ==> r == Ok::<usize, InputError>(
            slot_of_half_degrees(half_degrees as int) as usize,
        ),
        half_degrees >= 720 ==> r == Err::<usize, InputError>(InputError::AngleOutOfRange),
{
    if half_degrees >= 720 {
        return Err(InputError::AngleOutOfRange);
    }
    Ok((((half_degrees + 15) / 30) % 24) as usize)
}

/// The direction and sector that an angle of `half_degrees` half degrees
/// points to.
pub fn get_twentyfour_direction_from_half_degrees(half_degrees: u32) -> (r: Result<
    Direction,
    InputError,
>)
    ensures
        half_degrees < 720 <==> r is Ok,
        r matches Ok(dir) ==> direction_at(slot_of_half_degrees(half_degrees as int), dir),
        r matches Err(e) ==> e == InputError::AngleOutOfRange,
{
    match twentyfour_index_from_half_degrees(half_degrees) {
        Ok(index) => {
            let (d, sector) = compass_and_sector_at(index);
            Ok(Direction::new(d.as_str(), sector))
        },
        Err(e) => Err(e),
    }
}

} // verus!
