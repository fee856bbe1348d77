use orange_museum::animation::{catalog, check_sheets, clip_index, clip_pose, standard_clip};
use orange_museum::{ConfigError, LookAt, Pose, CLIP_COUNT};

fn poses_in_order() -> Vec<Pose> {
    vec![
        Pose { facing: LookAt::Down, moving: false },
        Pose { facing: LookAt::Down, moving: true },
        Pose { facing: LookAt::Left, moving: false },
        Pose { facing: LookAt::Left, moving: true },
        Pose { facing: LookAt::Right, moving: false },
        Pose { facing: LookAt::Right, moving: true },
        Pose { facing: LookAt::Up, moving: false },
        Pose { facing: LookAt::Up, moving: true },
    ]
}

#[test]
fn clip_table_is_exact() {
    assert_eq!(clip_index(LookAt::Down, false), 0);
    assert_eq!(clip_index(LookAt::Down, true), 1);
    assert_eq!(clip_index(LookAt::Left, false), 2);
    assert_eq!(clip_index(LookAt::Left, true), 3);
    assert_eq!(clip_index(LookAt::Right, false), 4);
    assert_eq!(clip_index(LookAt::Right, true), 5);
    assert_eq!(clip_index(LookAt::Up, false), 6);
    assert_eq!(clip_index(LookAt::Up, true), 7);
}

#[test]
fn clip_pose_inverts_the_table() {
    let poses = poses_in_order();
    for index in 0..CLIP_COUNT {
        let pose = clip_pose(index).unwrap();
        assert_eq!(pose, poses[index]);
        assert_eq!(clip_index(pose.facing, pose.moving), index);
    }
}

#[test]
fn clip_pose_past_the_catalog_is_none() {
    assert_eq!(clip_pose(8), None);
    assert_eq!(clip_pose(usize::MAX), None);
}

#[test]
fn catalog_holds_the_eight_clips_in_order() {
    let clips = catalog();
    assert_eq!(clips.len(), 8);
    let names: Vec<&str> = clips.iter().map(|clip| clip.name).collect();
    assert_eq!(
        names,
        vec![
            "idle-down",
            "walk-down",
            "idle-left",
            "walk-left",
            "idle-right",
            "walk-right",
            "idle-up",
            "walk-up",
        ]
    );
}

#[test]
fn idle_clips_have_one_frame_and_walking_clips_four() {
    let clips = catalog();
    for (index, clip) in clips.iter().enumerate() {
        assert_eq!(clip.row, 0);
        if index % 2 == 0 {
            assert_eq!(clip.frames, 1);
            assert_eq!(clip.fps, 12);
        } else {
            assert_eq!(clip.frames, 4);
            assert_eq!(clip.fps, 8);
        }
    }
}

#[test]
fn standard_clip_is_the_catalog_entry_of_its_pose() {
    let clips = catalog();
    for pose in poses_in_order() {
        let clip = standard_clip(pose);
        let entry = clips[clip_index(pose.facing, pose.moving)];
        assert_eq!(clip.name, entry.name);
        assert_eq!(clip.row, entry.row);
        assert_eq!(clip.frames, entry.frames);
        assert_eq!(clip.fps, entry.fps);
    }
    let walk_left = standard_clip(Pose { facing: LookAt::Left, moving: true });
    assert_eq!(walk_left.name, "walk-left");
    assert_eq!(walk_left.frames, 4);
    assert_eq!(walk_left.fps, 8);
}

#[test]
fn sheets_in_catalog_order_pass() {
    assert_eq!(check_sheets(&poses_in_order()), Ok(()));
}

#[test]
fn missing_sheet_is_a_count_error() {
    let mut sheets = poses_in_order();
    sheets.pop();
    assert_eq!(check_sheets(&sheets), Err(ConfigError::SheetCount { found: 7 }));
    assert_eq!(check_sheets(&Vec::new()), Err(ConfigError::SheetCount { found: 0 }));
}

#[test]
fn extra_sheet_is_a_count_error() {
    let mut sheets = poses_in_order();
    sheets.push(Pose { facing: LookAt::Up, moving: true });
    assert_eq!(check_sheets(&sheets), Err(ConfigError::SheetCount { found: 9 }));
}

#[test]
fn swapped_sheets_are_an_order_error_at_the_first_of_them() {
    let mut sheets = poses_in_order();
    sheets.swap(2, 5);
    assert_eq!(check_sheets(&sheets), Err(ConfigError::SheetOrder { index: 2 }));

    let mut sheets = poses_in_order();
    sheets.swap(6, 7);
    assert_eq!(check_sheets(&sheets), Err(ConfigError::SheetOrder { index: 6 }));
}

#[test]
fn duplicated_sheet_is_an_order_error() {
    let mut sheets = poses_in_order();
    sheets[7] = sheets[0];
    assert_eq!(check_sheets(&sheets), Err(ConfigError::SheetOrder { index: 7 }));
}
