//! What a state read of the arm's servo bus yields, joint by joint.
use vstd::prelude::*;

use crate::calibration::{ArmCalibration, JointCalibration};
use crate::joint::{spec_all_joints, spec_joint_name, spec_motor_id, spec_norm_mode, Joint, NormMode};

verus! {

/// The calibration of a joint and the normalisation its value is reported in.
#[derive(Debug, Clone, Copy, PartialEq, Eq, Structural)]
pub struct AppliedCalibration {
    pub calibration: JointCalibration,
    pub mode: NormMode,
}

/// One joint's raw reading, with the calibration and normalisation that
/// apply to it when the arm is calibrated.
#[derive(Debug, Clone, Copy, PartialEq, Eq, Structural)]
pub struct JointReading {
    pub joint: Joint,
    pub motor_id: u8,
    pub raw_position: i16,
    pub calibration: Option<AppliedCalibration>,
}

/// The reading of joint `j` from raw position `raw` under calibration `cal`:
/// a joint is calibrated when the calibration has an entry under its name,
/// and is then normalised in its joint's mode.
pub open spec fn spec_joint_reading(j: Joint, raw: i16, cal: Option<ArmCalibration>) -> JointReading {
    JointReading {
        joint: j,
        motor_id: spec_motor_id(j),
        raw_position: raw,
        calibration: match cal {
            Some(c) => if c.view().contains_key(spec_joint_name(j)) {
                Some(AppliedCalibration { calibration: c.view()[spec_joint_name(j)], mode: spec_norm_mode(j) })
            } else {
                None
            },
            None => None,
        },
    }
}

/// The readings of all joints, in bus order, from the positions read from
/// the bus (one per joint, in bus order; extra ones are ignored).
pub fn arm_readings(raw: &Vec<i16>, cal: Option<&ArmCalibration>) -> (r: Vec<JointReading>)
    requires
        raw@.len() >= 6,
        cal matches Some(c) ==> c.wf(),
    ensures
        r@.len() == 6,
        forall|i: int|
            0 <= i < 6 ==> #[trigger] r@[i] == spec_joint_reading(
                spec_all_joints()[i],
                raw@[i],
                match cal {
                    Some(c) => Some(*c),
                    None => None,
                },
            ),
        forall|i: int|
            0 <= i < 6 ==> (#[trigger] r@[i]).joint == spec_all_joints()[i] && r@[i].raw_position
                == raw@[i] && r@[i].motor_id == spec_motor_id(r@[i].joint),
        forall|i: int|
            0 <= i < 6 ==> match cal {
                Some(c) => if c.view().contains_key(spec_joint_name(spec_all_joints()[i])) {
                    (#[trigger] r@[i]).calibration == Some(
                        AppliedCalibration {
                            calibration: c.view()[spec_joint_name(spec_all_joints()[i])],
                            mode: spec_norm_mode(spec_all_joints()[i]),
                        },
                    )
                } else {
                    r@[i].calibration is None
                },
                None => (#[trigger] r@[i]).calibration is None,
            },
{
    let joints = Joint::all();
    let ghost cal_v = match cal {
        Some(c) => Some(*c),
        None => None,
    };
    let mut r: Vec<JointReading> = Vec::new();
    let mut i: usize = 0;
    while i < joints.len()
        invariant
            joints@ == spec_all_joints(),
            raw@.len() >= 6,
            cal matches Some(c) ==> c.wf(),
            cal_v == match cal {
                Some(c) => Some(*c),
                None => None,
            },
            i <= 6,
            r@.len() == i,
            forall|k: int| 0 <= k < i ==> #[trigger] r@[k] == spec_joint_reading(
                spec_all_joints()[k],
                raw@[k],
                cal_v,
            ),
        decreases 6 - i,
    {
        let j = joints[i];
        let calibration = match cal {
            Some(c) => match c.get(j.name()) {
                Some(jc) => Some(AppliedCalibration { calibration: *jc, mode: j.norm_mode() }),
                None => None,
            },
            None => None,
        };
        r.push(JointReading { joint: j, motor_id: j.motor_id(), raw_position: raw[i], calibration });
        i = i + 1;
    }
    r
}

/// A joint's reading carries the calibration file's entry for the joint,
/// found under the joint's lerobot name, with the joint's normalisation
/// exactly when the file has such an entry; without a file no joint is
/// calibrated. The reading keeps the joint, its servo id and the raw position.
pub proof fn lemma_joint_reading_calibration(j: Joint, raw: i16, cal: Option<ArmCalibration>)
    ensures
        spec_joint_reading(j, raw, cal).joint == j,
        spec_joint_reading(j, raw, cal).motor_id == spec_motor_id(j),
        spec_joint_reading(j, raw, cal).raw_position == raw,
        match cal {
            Some(c) => {
                &&& spec_joint_reading(j, raw, cal).calibration is Some <==> c.view().contains_key(
                    spec_joint_name(j),
                )
                &&& c.view().contains_key(spec_joint_name(j)) ==> spec_joint_reading(
                    j,
                    raw,
                    cal,
                ).calibration == Some(
                    AppliedCalibration {
                        calibration: c.view()[spec_joint_name(j)],
                        mode: spec_norm_mode(j),
                    },
                )
            },
            None => spec_joint_reading(j, raw, cal).calibration is None,
        },
{
}

/// The elbow is calibrated like any other joint: with the file's
/// `elbow_flex` entry, on -100..100, whenever the file has that entry; the
/// gripper is read as a percentage from its `gripper` entry.
pub proof fn lemma_elbow_and_gripper_calibration(raw: i16, c: ArmCalibration)
    ensures
        c.view().contains_key("elbow_flex"@) ==> spec_joint_reading(Joint::Elbow, raw, Some(c)).calibration
            == Some(
            AppliedCalibration { calibration: c.view()["elbow_flex"@], mode: NormMode::RangeM100To100 },
        ),
        c.view().contains_key("gripper"@) ==> spec_joint_reading(Joint::Gripper, raw, Some(c)).calibration
            == Some(AppliedCalibration { calibration: c.view()["gripper"@], mode: NormMode::Range0To100 }),
{
    lemma_joint_reading_calibration(Joint::Elbow, raw, Some(c));
    lemma_joint_reading_calibration(Joint::Gripper, raw, Some(c));
}

} // verus!
