//! Animation selection: from facing and motion to one of eight clips.
//!
//! The clips form a fixed catalog. Each facing owns two neighbouring entries,
//! the idle clip first and the walking clip second, and every clip is drawn
//! from the sprite sheet that stands at the same index as the clip.

use vstd::prelude::*;
use crate::motion::LookAt;

verus! {

/// The number of clips in the catalog, and of sprite sheets beside it.
pub const CLIP_COUNT: usize = 8;

/// What a clip or a sprite sheet shows: a facing, idle or walking.
#[derive(Clone, Copy, Debug, PartialEq, Eq, Structural)]
pub struct Pose {
    pub facing: LookAt,
    pub moving: bool,
}

/// One entry of the catalog.
#[derive(Clone, Copy, Debug)]
pub struct Clip {
    /// The clip's name.
    pub name: &'static str,
    /// The row of the sprite sheet that holds the clip's frames.
    pub row: u32,
    /// The number of frames in the clip.
    pub frames: u32,
    /// The playback rate, in frames per second.
    pub fps: u32,
}

/// A sprite-sheet list that does not match the catalog.
#[derive(Clone, Copy, Debug, PartialEq, Eq, Structural)]
pub enum ConfigError {
    /// The list does not hold one sheet per clip.
    SheetCount { found: usize },
    /// The sheet at `index` shows another pose than the clip at `index`.
    SheetOrder { index: usize },
}

/// The selection table: the index of the clip for a facing and a motion.
pub open spec fn clip_index_spec(facing: LookAt, moving: bool) -> int {
    let base: int = match facing {
        LookAt::Down => 0,
        LookAt::Left => 2,
        LookAt::Right => 4,
        LookAt::Up => 6,
    };
    if moving {
        base + 1
    } else {
        base
    }
}

/// The pose that the clip at `index` shows.
pub open spec fn pose_at(index: int) -> Pose {
    Pose {
        facing: if index / 2 == 0 {
            LookAt::Down
        } else if index / 2 == 1 {
            LookAt::Left
        } else if index / 2 == 2 {
            LookAt::Right
        } else {
            LookAt::Up
        },
        moving: index % 2 == 1,
    }
}

/// The name of the clip that shows `pose`.
pub open spec fn clip_name(pose: Pose) -> &'static str {
    match (pose.facing, pose.moving) {
        (LookAt::Down, false) => "idle-down",
        (LookAt::Down, true) => "walk-down",
        (LookAt::Left, false) => "idle-left",
        (LookAt::Left, true) => "walk-left",
        (LookAt::Right, false) => "idle-right",
        (LookAt::Right, true) => "walk-right",
        (LookAt::Up, false) => "idle-up",
        (LookAt::Up, true) => "walk-up",
    }
}

/// The clip that shows `pose`. Every clip has a sheet of its own and uses
/// its first row; an idle clip is a single frame, a walking clip has four.
pub open spec fn clip_for(pose: Pose) -> Clip {
    Clip {
        name: clip_name(pose),
        row: 0,
        frames: if pose.moving { 4 } else { 1 },
        fps: if pose.moving { 8 } else { 12 },
    }
}

/// The catalog: for each index the clip of the pose at that index.
pub open spec fn catalog_spec() -> Seq<Clip> {
    Seq::new(CLIP_COUNT as nat, |index: int| clip_for(pose_at(index)))
}

/// The frame counts of a list of clips, in order.
pub open spec fn clip_frames(clips: Seq<Clip>) -> Seq<u32> {
    Seq::new(clips.len(), |index: int| clips[index].frames)
}

/// Whether `sheets` holds one sheet per clip, each showing its clip's pose.
pub open spec fn sheets_match(sheets: Seq<Pose>) -> bool {
    &&& sheets.len() == CLIP_COUNT
    &&& forall|index: int| 0 <= index < CLIP_COUNT ==> sheets[index] == pose_at(index)
}

/// Selects the clip for a facing and a motion.
pub fn clip_index(facing: LookAt, moving: bool) -> (index: usize)
    ensures
        index == clip_index_spec(facing, moving),
        index < CLIP_COUNT,
        pose_at(index as int) == (Pose { facing, moving }),
{
    let base: usize = match facing {
        LookAt::Down => 0,
        LookAt::Left => 2,
        LookAt::Right => 4,
        LookAt::Up => 6,
    };
    if moving {
        base + 1
    } else {
        base
    }
}

/// The pose of the clip at `index` of the catalog.
fn pose_in_catalog(index: usize) -> (pose: Pose)
    requires
        index < CLIP_COUNT,
    ensures
        pose == pose_at(index as int),
{
    let facing = if index / 2 == 0 {
        LookAt::Down
    } else if index / 2 == 1 {
        LookAt::Left
    } else if index / 2 == 2 {
        LookAt::Right
    } else {
        LookAt::Up
    };
    Pose { facing, moving: index % 2 == 1 }
}

/// The pose of the clip at `index`, or `None` past the end of the catalog.
pub fn clip_pose(index: usize) -> (pose: Option<Pose>)
    ensures
        index < CLIP_COUNT ==> pose == Some(pose_at(index as int)),
        index >= CLIP_COUNT ==> pose.is_none(),
{
    if index < CLIP_COUNT {
        Some(pose_in_catalog(index))
    } else {
        None
    }
}

/// Builds the clip that shows `pose`.
pub fn standard_clip(pose: Pose) -> (clip: Clip)
    ensures
        clip == clip_for(pose),
{
    let name = match (pose.facing, pose.moving) {
        (LookAt::Down, false) => "idle-down",
        (LookAt::Down, true) => "walk-down",
        (LookAt::Left, false) => "idle-left",
        (LookAt::Left, true) => "walk-left",
        (LookAt::Right, false) => "idle-right",
        (LookAt::Right, true) => "walk-right",
        (LookAt::Up, false) => "idle-up",
        (LookAt::Up, true) => "walk-up",
    };
    if pose.moving {
        Clip { name, row: 0, frames: 4, fps: 8 }
    } else {
        Clip { name, row: 0, frames: 1, fps: 12 }
    }
}

/// Builds the catalog of the eight clips, in selection order.
pub fn catalog() -> (clips: Vec<Clip>)
    ensures
        clips@ == catalog_spec(),
{
    let mut clips: Vec<Clip> = Vec::new();
    let mut index: usize = 0;
    while index < CLIP_COUNT
        invariant
            index <= CLIP_COUNT,
            clips@.len() == index,
            forall|i: int| 0 <= i < index ==> clips@[i] == clip_for(pose_at(i)),
        decreases CLIP_COUNT - index,
    {
        clips.push(standard_clip(pose_in_catalog(index)));
        index += 1;
    }
    clips
}

/// Checks, once at start-up, that the sprite sheets are paired with the
/// catalog index for index. `sheets` names the pose that each loaded sheet
/// shows, in the order in which the sheets will be indexed.
pub fn check_sheets(sheets: &Vec<Pose>) -> (checked: Result<(), ConfigError>)
    ensures
        match checked {
            Ok(()) => sheets_match(sheets@),
            Err(ConfigError::SheetCount { found }) => found == sheets@.len() && found != CLIP_COUNT,
            Err(ConfigError::SheetOrder { index }) => {
                &&& sheets@.len() == CLIP_COUNT
                &&& index < CLIP_COUNT
                &&& sheets@[index as int] != pose_at(index as int)
                &&& forall|i: int| 0 <= i < index ==> sheets@[i] == pose_at(i)
            },
        },
{
    if sheets.len() != CLIP_COUNT {
        return Err(ConfigError::SheetCount { found: sheets.len() });
    }
    let mut index: usize = 0;
    while index < CLIP_COUNT
        invariant
            index <= CLIP_COUNT,
            sheets@.len() == CLIP_COUNT,
            forall|i: int| 0 <= i < index ==> sheets@[i] == pose_at(i),
        decreases CLIP_COUNT - index,
    {
        let expected = clip_index(sheets[index].facing, sheets[index].moving);
        if expected != index {
            return Err(ConfigError::SheetOrder { index });
        }
        index += 1;
    }
    Ok(())
}

/// The table and the catalog agree: selecting by a pose gives the index of
/// the clip that shows this pose, and every index is selected by its pose.
pub proof fn lemma_table_matches_catalog(facing: LookAt, moving: bool, index: int)
    ensures
        0 <= clip_index_spec(facing, moving) < CLIP_COUNT,
        pose_at(clip_index_spec(facing, moving)) == (Pose { facing, moving }),
        catalog_spec()[clip_index_spec(facing, moving)] == clip_for(Pose { facing, moving }),
        0 <= index < CLIP_COUNT ==> clip_index_spec(pose_at(index).facing, pose_at(index).moving)
            == index,
{
}

} // verus!
