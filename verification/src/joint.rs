//! The six joints of an SO101 arm, their servo ids and their names.
use vstd::prelude::*;

verus! {

/// One joint of the arm, each driven by one Feetech STS3215 servo.
#[derive(Debug, Clone, Copy, PartialEq, Eq, Structural)]
pub enum Joint {
    Base,
    Shoulder,
    Elbow,
    WristPitch,
    WristRoll,
    Gripper,
}

/// How a joint's raw position is normalised (lerobot's `MotorNormMode`).
#[derive(Debug, Clone, Copy, PartialEq, Eq, Structural)]
pub enum NormMode {
    /// `RANGE_M100_100`: -100 at one end of the range, +100 at the other.
    RangeM100To100,
    /// `RANGE_0_100`: 0 at one end of the range, 100 at the other.
    Range0To100,
}

/// The servo id on the bus of each joint.
pub open spec fn spec_motor_id(j: Joint) -> u8 {
    match j {
        Joint::Base => 1,
        Joint::Shoulder => 2,
        Joint::Elbow => 3,
        Joint::WristPitch => 4,
        Joint::WristRoll => 5,
        Joint::Gripper => 6,
    }
}

/// The lerobot name of each joint.
pub open spec fn spec_joint_name(j: Joint) -> Seq<char> {
    match j {
        Joint::Base => "shoulder_pan"@,
        Joint::Shoulder => "shoulder_lift"@,
        Joint::Elbow => "elbow_flex"@,
        Joint::WristPitch => "wrist_flex"@,
        Joint::WristRoll => "wrist_roll"@,
        Joint::Gripper => "gripper"@,
    }
}

/// All joints, from the base up to the gripper.
pub open spec fn spec_all_joints() -> Seq<Joint> {
    seq![
        Joint::Base,
        Joint::Shoulder,
        Joint::Elbow,
        Joint::WristPitch,
        Joint::WristRoll,
        Joint::Gripper,
    ]
}

/// The normalisation lerobot uses for a joint by default: the gripper is
/// read as a percentage, every other joint on -100..100.
pub open spec fn spec_norm_mode(j: Joint) -> NormMode {
    if j == Joint::Gripper {
        NormMode::Range0To100
    } else {
        NormMode::RangeM100To100
    }
}

/// The joints are listed in bus order: the joint at position `i` has servo
/// id `i + 1`, every joint is listed once, no two joints share a name, and
/// only the gripper is read as a percentage.
pub proof fn lemma_joint_table()
    ensures
        spec_all_joints().len() == 6,
        forall|i: int| 0 <= i < 6 ==> spec_motor_id(#[trigger] spec_all_joints()[i]) == i + 1,
        forall|j: Joint| #[trigger] spec_all_joints().contains(j),
        forall|a: Joint, b: Joint| a != b ==> spec_joint_name(a) != spec_joint_name(b),
        forall|j: Joint| (#[trigger] spec_norm_mode(j) == NormMode::Range0To100) <==> j == Joint::Gripper,
{
    let all = spec_all_joints();
    assert forall|j: Joint| #[trigger] all.contains(j) by {
        match j {
            Joint::Base => assert(all[0] == j),
            Joint::Shoulder => assert(all[1] == j),
            Joint::Elbow => assert(all[2] == j),
            Joint::WristPitch => assert(all[3] == j),
            Joint::WristRoll => assert(all[4] == j),
            Joint::Gripper => assert(all[5] == j),
        }
    }
    reveal_strlit("shoulder_pan");
    reveal_strlit("shoulder_lift");
    reveal_strlit("elbow_flex");
    reveal_strlit("wrist_flex");
    reveal_strlit("wrist_roll");
    reveal_strlit("gripper");
    assert forall|a: Joint, b: Joint| a != b implies spec_joint_name(a) != spec_joint_name(b) by {
        let na = spec_joint_name(a);
        let nb = spec_joint_name(b);
        if na.len() == nb.len() {
            assert(na[0] != nb[0] || na[6] != nb[6]);
        }
    }
}

impl Joint {
    /// All joints in bus order.
    pub fn all() -> (r: Vec<Joint>)
        ensures
            r@ == spec_all_joints(),
    {
        let r = vec![
            Joint::Base,
            Joint::Shoulder,
            Joint::Elbow,
            Joint::WristPitch,
            Joint::WristRoll,
            Joint::Gripper,
        ];
        assert(r@ =~= spec_all_joints());
        r
    }

    /// The servo id of this joint.
    pub fn motor_id(self) -> (id: u8)
        ensures
            id == spec_motor_id(self),
    {
        match self {
            Joint::Base => 1,
            Joint::Shoulder => 2,
            Joint::Elbow => 3,
            Joint::WristPitch => 4,
            Joint::WristRoll => 5,
            Joint::Gripper => 6,
        }
    }

    /// The lerobot name of this joint, as calibration files key it.
    pub fn name(&self) -> (n: &'static str)
        ensures
            n@ == spec_joint_name(*self),
    {
        match self {
            Joint::Base => "shoulder_pan",
            Joint::Shoulder => "shoulder_lift",
            Joint::Elbow => "elbow_flex",
            Joint::WristPitch => "wrist_flex",
            Joint::WristRoll => "wrist_roll",
            Joint::Gripper => "gripper",
        }
    }

    /// The normalisation used to report this joint's calibrated value.
    pub fn norm_mode(self) -> (m: NormMode)
        ensures
            m == spec_norm_mode(self),
    {
        match self {
            Joint::Gripper => NormMode::Range0To100,
            _ => NormMode::RangeM100To100,
        }
    }
}

/// The servo ids of all joints, in bus order.
pub fn motor_ids() -> (ids: Vec<u8>)
    ensures
        ids@ == seq![1u8, 2u8, 3u8, 4u8, 5u8, 6u8],
        ids@.len() == spec_all_joints().len(),
        forall|i: int| 0 <= i < ids@.len() ==> ids@[i] == spec_motor_id(#[trigger] spec_all_joints()[i]),
{
    let joints = Joint::all();
    let mut ids: Vec<u8> = Vec::new();
    let mut i: usize = 0;
    while i < joints.len()
        invariant
            joints@ == spec_all_joints(),
            i <= joints@.len(),
            ids@.len() == i,
            forall|k: int| 0 <= k < i ==> ids@[k] == spec_motor_id(#[trigger] joints@[k]),
        decreases joints@.len() - i,
    {
        ids.push(joints[i].motor_id());
        i = i + 1;
    }
    assert(ids@ =~= seq![1u8, 2u8, 3u8, 4u8, 5u8, 6u8]);
    ids
}

/// No two joints share a servo id, and the ids are 1 to 6.
pub proof fn lemma_motor_ids_distinct(a: Joint, b: Joint)
    ensures
        spec_motor_id(a) == spec_motor_id(b) <==> a == b,
        1 <= spec_motor_id(a) <= 6,
{
}

/// No two joints share a name.
pub proof fn lemma_joint_names_distinct(a: Joint, b: Joint)
    ensures
        spec_joint_name(a) == spec_joint_name(b) <==> a == b,
{
    reveal_strlit("shoulder_pan");
    reveal_strlit("shoulder_lift");
    reveal_strlit("elbow_flex");
    reveal_strlit("wrist_flex");
    reveal_strlit("wrist_roll");
    reveal_strlit("gripper");
    if a != b && spec_joint_name(a) == spec_joint_name(b) {
        let x = spec_joint_name(a);
        let y = spec_joint_name(b);
        assert(x.len() == y.len());
        assert(x[0] == y[0]);
        assert(x[x.len() - 1] == y[y.len() - 1]);
        assert(x[6] == y[6]);
    }
}

/// Every joint occurs exactly once in the bus order.
pub proof fn lemma_all_joints_complete(j: Joint)
    ensures
        exists|i: int| 0 <= i < 6 && spec_all_joints()[i] == j,
        spec_all_joints().len() == 6,
        forall|i: int, k: int|
            0 <= i < 6 && 0 <= k < 6 && i != k ==> spec_all_joints()[i] != spec_all_joints()[k],
{
    let s = spec_all_joints();
    match j {
        Joint::Base => assert(s[0] == j),
        Joint::Shoulder => assert(s[1] == j),
        Joint::Elbow => assert(s[2] == j),
        Joint::WristPitch => assert(s[3] == j),
        Joint::WristRoll => assert(s[4] == j),
        Joint::Gripper => assert(s[5] == j),
    }
}

} // verus!
