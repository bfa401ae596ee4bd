use robot_control_server::display::{any_calibrated, arm_table_header, arm_table_row, format_arm_state, AngleText, ArmTableRow};

fn row(joint: &str, id: u8, raw: i16, angle: Option<(&str, &str)>) -> ArmTableRow {
    ArmTableRow {
        joint: joint.to_string(),
        motor_id: id,
        raw_position: raw,
        position_rad: "   0.000".to_string(),
        position_deg: "     0.0".to_string(),
        angle: angle.map(|(p, d)| AngleText { percent: p.to_string(), degrees: d.to_string() }),
    }
}

#[test]
fn header_has_angle_column_only_when_calibrated() {
    let plain = vec![row("shoulder_pan", 1, 2048, None)];
    assert_eq!(arm_table_header(&plain), vec!["Joint", "ID", "Raw Pos", "Pos (rad)", "Pos (deg)"]);
    assert!(!any_calibrated(&plain));
    let cal = vec![row("shoulder_pan", 1, 2048, None), row("gripper", 6, 100, Some(("  12.5%", "  45.00°")))];
    assert!(any_calibrated(&cal));
    assert_eq!(arm_table_header(&cal), vec!["Joint", "ID", "Raw Pos", "Pos (rad)", "Pos (deg)", "Joint Angle"]);
}

#[test]
fn row_cells_pick_percent_for_gripper() {
    let g = row("gripper", 6, -3, Some(("  12.5%", "  45.00°")));
    assert_eq!(arm_table_row(&g, true), vec!["gripper", "6", "-3", "   0.000", "     0.0", "  12.5%"]);
    let e = row("elbow_flex", 3, 1500, Some(("  12.5%", "  45.00°")));
    assert_eq!(arm_table_row(&e, true)[5], "  45.00°");
    let u = row("wrist_roll", 5, 0, None);
    assert_eq!(arm_table_row(&u, true)[5], "-");
    assert_eq!(arm_table_row(&u, false).len(), 5);
}

#[test]
fn printed_state_starts_with_title_and_holds_cells() {
    let rows = vec![row("gripper", 6, 100, Some(("  12.5%", "  45.00°")))];
    let text = format_arm_state("/dev/ttyACM0", "1700000000.5", &rows);
    assert!(text.starts_with("SO101 Arm State [/dev/ttyACM0] (1700000000.5)\n"));
    assert!(text.contains("Joint Angle"));
    assert!(text.contains("12.5%"));
    assert!(text.contains("gripper"));
}

#[test]
fn printed_state_marks_uncalibrated_joint_with_dash() {
    let rows = vec![
        row("gripper", 6, 2048, Some(("  50.0%", "   50.00°"))),
        row("shoulder_pan", 1, 2048, None),
    ];
    let text = format_arm_state("arm", "1.5", &rows);
    assert!(text.starts_with("SO101 Arm State [arm] (1.5)\n"));
    assert!(text.contains("Joint Angle"));
    assert!(text.contains("50.0%"));
    assert!(!text.contains("°"));
    assert!(text.contains("0.000"));
    let pan_line = text.lines().find(|l| l.contains("shoulder_pan")).unwrap();
    let cells: Vec<&str> = pan_line.split(|c: char| c == '│' || c == '┆').map(|c| c.trim()).filter(|c| !c.is_empty()).collect();
    assert_eq!(cells.last(), Some(&"-"));
    let gripper_index = text.find("gripper").unwrap();
    let pan_index = text.find("shoulder_pan").unwrap();
    assert!(gripper_index < pan_index);
}
