//! Calibration data of the arm's joints, as lerobot calibration files hold it.
use std::collections::HashMap;

use vstd::prelude::*;
use vstd::string::StringExecFns;

use crate::keyed::{holds_value, KeyedList};

verus! {

/// Per-joint calibration data from a lerobot calibration file.
#[derive(Debug, Clone, Copy, PartialEq, Eq, Structural)]
pub struct JointCalibration {
    pub id: u8,
    pub drive_mode: u8,
    /// The servo firmware applies this offset itself; it is kept because the
    /// file holds it.
    pub homing_offset: i32,
    pub range_min: i32,
    pub range_max: i32,
}

/// Full arm calibration, keyed by joint name.
pub type ArmCalibration = KeyedList<JointCalibration>;

/// The lookup table from servo id to joint calibration: every servo id of
/// the calibration maps to the calibration of a joint with that id. (Where
/// two joints claim one id, one of them is chosen.)
pub fn by_motor_id(cal: &ArmCalibration) -> (r: HashMap<u8, JointCalibration>)
    requires
        cal.wf(),
    ensures
        forall|id: u8| #[trigger]
            r@.contains_key(id) <==> exists|k: Seq<char>|
                cal.view().contains_key(k) && cal.view()[k].id == id,
        forall|id: u8| #[trigger]
            r@.contains_key(id) ==> r@[id].id == id && holds_value(cal.view(), r@[id]),
{
    broadcast use vstd::std_specs::hash::group_hash_axioms;

    let values = cal.values();
    let mut r: HashMap<u8, JointCalibration> = HashMap::new();
    let mut i: usize = 0;
    while i < values.len()
        invariant
            i <= values@.len(),
            forall|j: int| 0 <= j < values@.len() ==> #[trigger] holds_value(cal.view(), values@[j]),
            forall|id: u8| #[trigger]
                r@.contains_key(id) <==> exists|j: int| 0 <= j < i && values@[j].id == id,
            forall|id: u8| #[trigger]
                r@.contains_key(id) ==> r@[id].id == id && holds_value(cal.view(), r@[id]),
        decreases values@.len() - i,
    {
        let jc = values[i];
        assert(holds_value(cal.view(), values@[i as int]));
        r.insert(jc.id, jc);
        i = i + 1;
    }
    assert forall|id: u8| #[trigger]
        r@.contains_key(id) <==> exists|k: Seq<char>|
            cal.view().contains_key(k) && cal.view()[k].id == id by {
        if r@.contains_key(id) {
            let j = choose|j: int| 0 <= j < i && values@[j].id == id;
            assert(holds_value(cal.view(), values@[j]));
        }
        if exists|k: Seq<char>| cal.view().contains_key(k) && cal.view()[k].id == id {
            let k = choose|k: Seq<char>| cal.view().contains_key(k) && cal.view()[k].id == id;
            assert(values@.contains(cal.view()[k]));
        }
    }
    r
}

/// The file that holds the calibration named `calibration_id`.
pub fn calibration_file_path(calibration_id: &str) -> (r: String)
    ensures
        r@ == "calibration/"@ + calibration_id@ + ".json"@,
{
    let mut p = String::from_str("calibration/");
    p.append(calibration_id);
    p.append(".json");
    p
}

/// The error reported when the calibration named `calibration_id` cannot be
/// loaded for the reason `reason`.
pub fn calibration_load_error(calibration_id: &str, reason: &str) -> (r: String)
    ensures
        r@ == "Failed to load calibration '"@ + calibration_id@ + "': "@ + reason@,
{
    let mut m = String::from_str("Failed to load calibration '");
    m.append(calibration_id);
    m.append("': ");
    m.append(reason);
    m
}

} // verus!
