//! Channel map: which detector role each digitizer channel plays.
//!
//! A board declares sixteen channels; the map is keyed by the channel UUID
//! `(board << 16) | channel` and is read-only after construction. Duplicate
//! board ids are a configuration fault and rejected at construction, as is a
//! board id too large to form a UUID.

use vstd::prelude::*;

use crate::hit::spec_channel_uuid;
use crate::hit::channel_uuid;

verus! {

/// The detector positions a channel can be mapped to. `Unmapped` marks a
/// channel that feeds no column.
#[derive(Clone, Copy, Debug, PartialEq, Eq, Structural)]
pub enum ChannelType {
    AnodeFront,
    AnodeBack,
    ScintLeft,
    ScintRight,
    Cathode,
    DelayFrontLeft,
    DelayFrontRight,
    DelayBackLeft,
    DelayBackRight,
    Monitor,
    Cebra0,
    Cebra1,
    Cebra2,
    Cebra3,
    Cebra4,
    Cebra5,
    Cebra6,
    Cebra7,
    Cebra8,
    PIPS1000,
    PIPS500,
    PIPS300,
    PIPS100,
    CATRINA0,
    CATRINA1,
    CATRINA2,
    CATRINA3,
    CATRINA4,
    CATRINA5,
    CATRINA6,
    CATRINA7,
    CATRINA8,
    CATRINA9,
    CATRINA10,
    CATRINA11,
    CATRINA12,
    CATRINA13,
    CATRINA14,
    CATRINA15,
    RF,
    LeftStrip0,
    LeftStrip1,
    LeftStrip2,
    LeftStrip3,
    LeftStrip4,
    LeftStrip5,
    LeftStrip6,
    LeftStrip7,
    LeftStrip8,
    LeftStrip9,
    LeftStrip10,
    LeftStrip11,
    LeftStrip12,
    LeftStrip13,
    LeftStrip14,
    LeftStrip15,
    RightStrip0,
    RightStrip1,
    RightStrip2,
    RightStrip3,
    RightStrip4,
    RightStrip5,
    RightStrip6,
    RightStrip7,
    RightStrip8,
    RightStrip9,
    RightStrip10,
    RightStrip11,
    RightStrip12,
    RightStrip13,
    RightStrip14,
    RightStrip15,
    Strip0,
    Strip17,
    Unmapped,
}

impl Default for ChannelType {
    /// An unconfigured channel maps to nothing.
    fn default() -> (r: Self)
        ensures
            r == ChannelType::Unmapped,
    {
        ChannelType::Unmapped
    }
}

/// One digitizer board: an id and the role of each of its 16 channels.
#[derive(Clone, Debug)]
pub struct Board {
    pub id: u32,
    pub channels: [ChannelType; 16],
}

impl Default for Board {
    /// Board 0 with every channel unmapped.
    fn default() -> (r: Self)
        ensures
            r.id == 0,
            forall|c: int| 0 <= c < 16 ==> r.channels[c] == ChannelType::Unmapped,
    {
        Board { id: 0, channels: [ChannelType::Unmapped; 16] }
    }
}

impl Board {
    /// The standard SE-SPS focal-plane board layout.
    pub fn sps(id: u32) -> (r: Board)
        ensures
            r.id == id,
            r.channels@ =~= seq![
                ChannelType::ScintRight,
                ChannelType::ScintLeft,
                ChannelType::Unmapped,
                ChannelType::Unmapped,
                ChannelType::Unmapped,
                ChannelType::Unmapped,
                ChannelType::Unmapped,
                ChannelType::Cathode,
                ChannelType::DelayFrontLeft,
                ChannelType::DelayFrontRight,
                ChannelType::DelayBackLeft,
                ChannelType::DelayBackRight,
                ChannelType::Unmapped,
                ChannelType::AnodeFront,
                ChannelType::Unmapped,
                ChannelType::AnodeBack,
            ],
    {
        let channels = [
            ChannelType::ScintRight,
            ChannelType::ScintLeft,
            ChannelType::Unmapped,
            ChannelType::Unmapped,
            ChannelType::Unmapped,
            ChannelType::Unmapped,
            ChannelType::Unmapped,
            ChannelType::Cathode,
            ChannelType::DelayFrontLeft,
            ChannelType::DelayFrontRight,
            ChannelType::DelayBackLeft,
            ChannelType::DelayBackRight,
            ChannelType::Unmapped,
            ChannelType::AnodeFront,
            ChannelType::Unmapped,
            ChannelType::AnodeBack,
        ];
        Board { id, channels }
    }

    /// A board fully populated with the CeBrA scintillator array.
    pub fn cebra(id: u32) -> (r: Board)
        ensures
            r.id == id,
r.channels@ =~= seq![
                ChannelType::Cebra0,
                ChannelType::Cebra1,
                ChannelType::Cebra2,
                ChannelType::Cebra3,
                ChannelType::Cebra4,
                ChannelType::Cebra5,
                ChannelType::Cebra6,
                ChannelType::Cebra7,
                ChannelType::Cebra8,
                ChannelType::Unmapped,
                ChannelType::Unmapped,
                ChannelType::Unmapped,
                ChannelType::Unmapped,
                ChannelType::Unmapped,
                ChannelType::Unmapped,
                ChannelType::Unmapped,
            ],
    {
        let channels = [
            ChannelType::Cebra0,
            ChannelType::Cebra1,
            ChannelType::Cebra2,
            ChannelType::Cebra3,
            ChannelType::Cebra4,
            ChannelType::Cebra5,
            ChannelType::Cebra6,
            ChannelType::Cebra7,
            ChannelType::Cebra8,
            ChannelType::Unmapped,
            ChannelType::Unmapped,
            ChannelType::Unmapped,
            ChannelType::Unmapped,
            ChannelType::Unmapped,
            ChannelType::Unmapped,
            ChannelType::Unmapped,
        ];
        Board { id, channels }
    }

    /// A board fully populated with the CATRINA liquid-scintillator array.
    pub fn catrina(id: u32) -> (r: Board)
        ensures
            r.id == id,
r.channels@ =~= seq![
                ChannelType::CATRINA0,
                ChannelType::CATRINA1,
                ChannelType::CATRINA2,
                ChannelType::CATRINA3,
                ChannelType::CATRINA4,
                ChannelType::CATRINA5,
                ChannelType::CATRINA6,
                ChannelType::CATRINA7,
                ChannelType::CATRINA8,
                ChannelType::CATRINA9,
                ChannelType::CATRINA10,
                ChannelType::CATRINA11,
                ChannelType::CATRINA12,
                ChannelType::CATRINA13,
                ChannelType::CATRINA14,
                ChannelType::CATRINA15,
            ],
    {
        let channels = [
            ChannelType::CATRINA0,
            ChannelType::CATRINA1,
            ChannelType::CATRINA2,
            ChannelType::CATRINA3,
            ChannelType::CATRINA4,
            ChannelType::CATRINA5,
            ChannelType::CATRINA6,
            ChannelType::CATRINA7,
            ChannelType::CATRINA8,
            ChannelType::CATRINA9,
            ChannelType::CATRINA10,
            ChannelType::CATRINA11,
            ChannelType::CATRINA12,
            ChannelType::CATRINA13,
            ChannelType::CATRINA14,
            ChannelType::CATRINA15,
        ];
        Board { id, channels }
    }

    /// A board carrying the sixteen left DSSD strips.
    pub fn left_strip(id: u32) -> (r: Board)
        ensures
            r.id == id,
r.channels@ =~= seq![
                ChannelType::LeftStrip0,
                ChannelType::LeftStrip1,
                ChannelType::LeftStrip2,
                ChannelType::LeftStrip3,
                ChannelType::LeftStrip4,
                ChannelType::LeftStrip5,
                ChannelType::LeftStrip6,
                ChannelType::LeftStrip7,
                ChannelType::LeftStrip8,
                ChannelType::LeftStrip9,
                ChannelType::LeftStrip10,
                ChannelType::LeftStrip11,
                ChannelType::LeftStrip12,
                ChannelType::LeftStrip13,
                ChannelType::LeftStrip14,
                ChannelType::LeftStrip15,
            ],
    {
        let channels = [
            ChannelType::LeftStrip0,
            ChannelType::LeftStrip1,
            ChannelType::LeftStrip2,
            ChannelType::LeftStrip3,
            ChannelType::LeftStrip4,
            ChannelType::LeftStrip5,
            ChannelType::LeftStrip6,
            ChannelType::LeftStrip7,
            ChannelType::LeftStrip8,
            ChannelType::LeftStrip9,
            ChannelType::LeftStrip10,
            ChannelType::LeftStrip11,
            ChannelType::LeftStrip12,
            ChannelType::LeftStrip13,
            ChannelType::LeftStrip14,
            ChannelType::LeftStrip15,
        ];
        Board { id, channels }
    }

    /// A board carrying the sixteen right DSSD strips.
    pub fn right_strip(id: u32) -> (r: Board)
        ensures
            r.id == id,
r.channels@ =~= seq![
                ChannelType::RightStrip0,
                ChannelType::RightStrip1,
                ChannelType::RightStrip2,
                ChannelType::RightStrip3,
                ChannelType::RightStrip4,
                ChannelType::RightStrip5,
                ChannelType::RightStrip6,
                ChannelType::RightStrip7,
                ChannelType::RightStrip8,
                ChannelType::RightStrip9,
                ChannelType::RightStrip10,
                ChannelType::RightStrip11,
                ChannelType::RightStrip12,
                ChannelType::RightStrip13,
                ChannelType::RightStrip14,
                ChannelType::RightStrip15,
            ],
    {
        let channels = [
            ChannelType::RightStrip0,
            ChannelType::RightStrip1,
            ChannelType::RightStrip2,
            ChannelType::RightStrip3,
            ChannelType::RightStrip4,
            ChannelType::RightStrip5,
            ChannelType::RightStrip6,
            ChannelType::RightStrip7,
            ChannelType::RightStrip8,
            ChannelType::RightStrip9,
            ChannelType::RightStrip10,
            ChannelType::RightStrip11,
            ChannelType::RightStrip12,
            ChannelType::RightStrip13,
            ChannelType::RightStrip14,
            ChannelType::RightStrip15,
        ];
        Board { id, channels }
    }
}

/// The role a UUID resolves to.
#[derive(Clone, Copy, Debug, PartialEq, Eq, Structural)]
pub struct ChannelData {
    pub channel_type: ChannelType,
}

impl Default for ChannelData {
    fn default() -> (r: Self)
        ensures
            r.channel_type == ChannelType::Unmapped,
    {
        ChannelData { channel_type: ChannelType::Unmapped }
    }
}

/// A channel map that cannot be built: a configuration fault, fatal at
/// driver startup.
#[derive(Clone, Copy, Debug, PartialEq, Eq, Structural)]
pub enum ChannelMapError {
    /// Two boards claim the same id, so their channels would collide.
    DuplicateBoard(u32),
    /// A board id too large to form a `(board << 16) | channel` UUID.
    BoardIdOutOfRange(u32),
}

/// Read-only mapping from channel UUID to detector role.
#[derive(Clone, Debug)]
pub struct ChannelMap {
    entries: Vec<(u32, ChannelData)>,
}

impl View for ChannelMap {
    type V = Seq<(u32, ChannelData)>;

    closed spec fn view(&self) -> Seq<(u32, ChannelData)> {
        self.entries@
    }
}

/// The role of `uuid`: the first matching entry.
pub open spec fn spec_lookup(entries: Seq<(u32, ChannelData)>, uuid: u32) -> Option<ChannelData>
    decreases entries.len(),
{
    if entries.len() == 0 {
        Option::None
    } else if entries[0].0 == uuid {
        Option::Some(entries[0].1)
    } else {
        spec_lookup(entries.skip(1), uuid)
    }
}

/// Some mapped channel plays role `t`.
pub open spec fn spec_contains_role(entries: Seq<(u32, ChannelData)>, t: ChannelType) -> bool {
    exists|i: int| 0 <= i < entries.len() && (#[trigger] entries[i]).1.channel_type == t
}

/// The sixteen entries one board contributes.
pub open spec fn spec_board_entries(b: Board) -> Seq<(u32, ChannelData)> {
    Seq::new(16, |c: int| (spec_channel_uuid(b.id as u16, c as u16), ChannelData { channel_type: b.channels[c] }))
}

/// The entries of a whole board list, in order.
pub open spec fn spec_map_entries(bs: Seq<Board>) -> Seq<(u32, ChannelData)>
    decreases bs.len(),
{
    if bs.len() == 0 {
        Seq::empty()
    } else {
        spec_board_entries(bs[0]) + spec_map_entries(bs.skip(1))
    }
}

/// Every board id fits a UUID.
pub open spec fn spec_ids_in_range(bs: Seq<Board>) -> bool {
    forall|i: int| 0 <= i < bs.len() ==> (#[trigger] bs[i]).id <= 0xFFFF
}

/// No two boards share an id.
pub open spec fn spec_ids_unique(bs: Seq<Board>) -> bool {
    forall|i: int, j: int| 0 <= i < j < bs.len() ==> (#[trigger] bs[i]).id != (#[trigger] bs[j]).id
}

impl ChannelMap {
    /// Builds the map from the configured boards. Construction fails exactly
    /// when a board id is out of range (reported first) or two boards share
    /// an id.
    pub fn new(boards: &Vec<Board>) -> (r: Result<ChannelMap, ChannelMapError>)
        ensures
            r is Ok <==> spec_ids_in_range(boards@) && spec_ids_unique(boards@),
            r is Ok ==> r->Ok_0@ == spec_map_entries(boards@),
            (r matches Err(ChannelMapError::BoardIdOutOfRange(id)) ==> exists|i: int|
                0 <= i < boards@.len() && (#[trigger] boards@[i]).id == id && id > 0xFFFF),
            (r matches Err(ChannelMapError::DuplicateBoard(id)) ==> spec_ids_in_range(boards@)
                && exists|i: int, j: int|
                    0 <= i < j < boards@.len() && (#[trigger] boards@[i]).id == id && (
                    #[trigger] boards@[j]).id == id),
    {
        let n = boards.len();
        let mut i: usize = 0;
        while i < n
            invariant
                0 <= i <= n,
                n == boards@.len(),
                forall|t: int| 0 <= t < i ==> (#[trigger] boards@[t]).id <= 0xFFFF,
            decreases n - i,
        {
            if boards[i].id > 0xFFFF {
                return Err(ChannelMapError::BoardIdOutOfRange(boards[i].id));
            }
            i = i + 1;
        }
        let mut a: usize = 0;
        while a < n
            invariant
                0 <= a <= n,
                n == boards@.len(),
                spec_ids_in_range(boards@),
                forall|t: int, u: int| 0 <= t < u < n && t < a ==> (#[trigger] boards@[t]).id != (
                #[trigger] boards@[u]).id,
            decreases n - a,
        {
            let mut b: usize = a + 1;
            while b < n
                invariant
                    0 <= a < b <= n,
                    n == boards@.len(),
                    spec_ids_in_range(boards@),
                    forall|u: int| a < u < b ==> (#[trigger] boards@[u]).id != boards@[a as int].id,
                decreases n - b,
            {
                if boards[b].id == boards[a].id {
                    proof {
                        assert(0 <= a < b < boards@.len() && boards@[a as int].id
                            == boards@[b as int].id);
                    }
                    return Err(ChannelMapError::DuplicateBoard(boards[a].id));
                }
                b = b + 1;
            }
            a = a + 1;
        }
        let mut entries: Vec<(u32, ChannelData)> = Vec::new();
        let mut bi: usize = 0;
        proof {
            assert(entries@ =~= spec_map_entries(boards@.take(0)));
        }
        while bi < n
            invariant
                0 <= bi <= n,
                n == boards@.len(),
                spec_ids_in_range(boards@),
                spec_ids_unique(boards@),
                entries@ == spec_map_entries(boards@.take(bi as int)),
            decreases n - bi,
        {
            let board = &boards[bi];
            let ghost prev = entries@;
            let mut c: usize = 0;
            while c < 16
                invariant
                    0 <= c <= 16,
                    bi < n,
                    n == boards@.len(),
                    spec_ids_in_range(boards@),
                    board == &boards@[bi as int],
                    entries@ == prev + spec_board_entries(boards@[bi as int]).take(c as int),
                decreases 16 - c,
            {
                let uuid = channel_uuid(board.id as u16, c as u16);
                proof {
                    assert(boards@[bi as int].id <= 0xFFFF);
                    assert(board.id as u16 == boards@[bi as int].id);
                }
                entries.push((uuid, ChannelData { channel_type: board.channels[c] }));
                proof {
                    assert(spec_board_entries(boards@[bi as int]).take(c + 1)
                        =~= spec_board_entries(boards@[bi as int]).take(c as int).push(
                        spec_board_entries(boards@[bi as int])[c as int],
                    ));
                    assert(entries@ =~= prev + spec_board_entries(boards@[bi as int]).take(c + 1));
                }
                c = c + 1;
            }
            proof {
                assert(spec_board_entries(boards@[bi as int]).take(16)
                    =~= spec_board_entries(boards@[bi as int]));
                lemma_map_entries_snoc(boards@, bi as int);
            }
            bi = bi + 1;
        }
        proof {
            assert(boards@.take(n as int) =~= boards@);
        }
        Ok(ChannelMap { entries })
    }

    /// The role mapped to a UUID, if any.
    pub fn get_channel_data(&self, uuid: u32) -> (r: Option<ChannelData>)
        ensures
            r == spec_lookup(self@, uuid),
    {
        let mut i: usize = 0;
        proof {
            assert(self.entries@.skip(0) =~= self.entries@);
        }
        while i < self.entries.len()
            invariant
                0 <= i <= self.entries@.len(),
                spec_lookup(self@, uuid) == spec_lookup(self.entries@.skip(i as int), uuid),
            decreases self.entries@.len() - i,
        {
            proof {
                assert(self.entries@.skip(i as int)[0] == self.entries@[i as int]);
                assert(self.entries@.skip(i as int).skip(1) =~= self.entries@.skip(i + 1));
            }
            if self.entries[i].0 == uuid {
                return Some(self.entries[i].1);
            }
            i = i + 1;
        }
        proof {
            assert(self.entries@.skip(i as int).len() == 0);
        }
        None
    }

    /// Whether any mapped channel plays role `t`: the filtered schema is
    /// built from these answers.
    pub fn contains_channel_type(&self, t: ChannelType) -> (r: bool)
        ensures
            r == spec_contains_role(self@, t),
    {
        let mut i: usize = 0;
        while i < self.entries.len()
            invariant
                0 <= i <= self.entries@.len(),
                forall|j: int| 0 <= j < i ==> (#[trigger] self.entries@[j]).1.channel_type != t,
            decreases self.entries@.len() - i,
        {
            if self.entries[i].1.channel_type == t {
                return true;
            }
            i = i + 1;
        }
        false
    }
}

/// Appending one board appends its sixteen entries.
proof fn lemma_map_entries_snoc(bs: Seq<Board>, i: int)
    requires
        0 <= i < bs.len(),
    ensures
        spec_map_entries(bs.take(i + 1)) == spec_map_entries(bs.take(i)) + spec_board_entries(
            bs[i],
        ),
    decreases i,
{
    if i == 0 {
        assert(bs.take(1)[0] == bs[0]);
        assert(bs.take(1).skip(1) =~= Seq::<Board>::empty());
        assert(spec_map_entries(Seq::<Board>::empty()) == Seq::<(u32, ChannelData)>::empty());
        assert(spec_map_entries(bs.take(0)) == Seq::<(u32, ChannelData)>::empty());
        assert(spec_board_entries(bs[0]) + Seq::<(u32, ChannelData)>::empty() =~= spec_board_entries(
            bs[0],
        ));
        assert(Seq::<(u32, ChannelData)>::empty() + spec_board_entries(bs[0])
            =~= spec_board_entries(bs[0]));
    } else {
        assert(bs.take(i + 1)[0] == bs[0]);
        assert(bs.take(i)[0] == bs[0]);
        assert(bs.take(i + 1).skip(1) =~= bs.skip(1).take(i));
        assert(bs.take(i).skip(1) =~= bs.skip(1).take(i - 1));
        lemma_map_entries_snoc(bs.skip(1), i - 1);
        assert(bs.skip(1)[i - 1] == bs[i]);
        assert(spec_board_entries(bs[0]) + (spec_map_entries(bs.skip(1).take(i - 1))
            + spec_board_entries(bs[i])) =~= (spec_board_entries(bs[0]) + spec_map_entries(
            bs.skip(1).take(i - 1),
        )) + spec_board_entries(bs[i]));
    }
}

} // verus!
