//! The server's registry of robot clients, keyed by USB serial id.
use vstd::prelude::*;
use vstd::string::StringExecFns;

use crate::calibration::{calibration_file_path, ArmCalibration};
use crate::commands::RobotClient;
use crate::config::Settings;
use crate::keyed::KeyedList;
use crate::ports::{has_serial, is_first_serial_match, lemma_has_serial_push, opt_view, port_has_serial, port_serial, view_or, PortRecord};
use crate::text::str_eq;

verus! {

/// Whether a robot currently has a client in the registry.
#[derive(Debug, Clone, Copy, PartialEq, Eq, Structural)]
pub struct RobotClientInfo {
    pub is_connected: bool,
    pub use_count: u32,
}

/// One robot found on the serial bus, as the robot list reports it.
#[derive(Debug, Clone)]
pub struct RobotInfo {
    pub serial_id: String,
    pub port: String,
    pub description: String,
    pub manufacturer: String,
    pub client: Option<RobotClientInfo>,
}

/// The model of a [`RobotInfo`].
pub struct RobotInfoView {
    pub serial_id: Seq<char>,
    pub port: Seq<char>,
    pub description: Seq<char>,
    pub manufacturer: Seq<char>,
    pub client: Option<RobotClientInfo>,
}

impl View for RobotInfo {
    type V = RobotInfoView;

    open spec fn view(&self) -> RobotInfoView {
        RobotInfoView {
            serial_id: self.serial_id@,
            port: self.port@,
            description: self.description@,
            manufacturer: self.manufacturer@,
            client: self.client,
        }
    }
}

/// A registered robot client and the calibration it was created with
/// (`None`: the server's default calibration).
pub struct RobotEntry<C> {
    pub client: C,
    pub calibration_id: Option<String>,
}

/// The robot clients of the server, at most one per serial id.
pub type RobotRegistry<C> = KeyedList<RobotEntry<C>>;

/// Where the calibration of a new robot client comes from.
#[derive(Debug, Clone)]
pub enum CalibrationSource {
    /// Load the calibration file at this path.
    File(String),
    /// Use the server's default calibration.
    Default,
}

/// The client information the robot list gives a robot.
pub open spec fn listed_client(connected: Set<Seq<char>>, serial: Seq<char>) -> Option<
    RobotClientInfo,
> {
    if connected.contains(serial) {
        Some(RobotClientInfo { is_connected: true, use_count: 1 })
    } else {
        None
    }
}

/// The entry the robot list gives a port with the USB serial number `s`.
pub open spec fn listed_robot(p: PortRecord, s: Seq<char>, connected: Set<Seq<char>>) -> RobotInfoView {
    RobotInfoView {
        serial_id: s,
        port: p.port_name@,
        description: "USB Serial Device"@,
        manufacturer: view_or(p.usb.unwrap().manufacturer, "Unknown"@),
        client: listed_client(connected, s),
    }
}

/// The robot list for the ports `ports` when the robots with serial ids in
/// `connected` have clients: one entry per distinct USB serial number, in
/// the order of its first port; ports without a serial number are left out.
pub open spec fn robot_listing(ports: Seq<PortRecord>, connected: Set<Seq<char>>) -> Seq<
    RobotInfoView,
>
    decreases ports.len(),
{
    if ports.len() == 0 {
        Seq::empty()
    } else {
        let prev = robot_listing(ports.drop_last(), connected);
        let p = ports.last();
        match port_serial(p) {
            Some(s) => if has_serial(ports.drop_last(), s) {
                prev
            } else {
                prev.push(listed_robot(p, s, connected))
            },
            None => prev,
        }
    }
}

/// The calibration id a registered robot was created with.
pub open spec fn entry_calibration<C>(e: RobotEntry<C>) -> Option<Seq<char>> {
    opt_view(e.calibration_id)
}

/// Whether a registered robot can serve a request with calibration
/// `calibration_id` as it is: it exists and was created with that
/// calibration.
pub open spec fn reuses<C>(
    robots: Map<Seq<char>, RobotEntry<C>>,
    serial_id: Seq<char>,
    calibration_id: Option<Seq<char>>,
) -> bool {
    robots.contains_key(serial_id) && entry_calibration(robots[serial_id]) == calibration_id
}

/// A robot is reused only when it is registered, and a registered robot is
/// reused exactly when it was created with the calibration asked for; with
/// no robot registered under the serial id, a new one is always made.
pub proof fn lemma_reuse_needs_registered_robot<C>(
    robots: Map<Seq<char>, RobotEntry<C>>,
    serial_id: Seq<char>,
    calibration_id: Option<Seq<char>>,
)
    ensures
        reuses(robots, serial_id, calibration_id) ==> robots.contains_key(serial_id),
        !robots.contains_key(serial_id) ==> !reuses(robots, serial_id, calibration_id),
        robots.contains_key(serial_id) ==> (reuses(robots, serial_id, calibration_id) <==> opt_view(
            robots[serial_id].calibration_id,
        ) == calibration_id),
{
}

/// Every robot in the list is described as `USB Serial Device`, whatever
/// the USB adapter calls itself.
pub proof fn lemma_robot_listing_description(ports: Seq<PortRecord>, connected: Set<Seq<char>>)
    ensures
        forall|i: int|
            0 <= i < robot_listing(ports, connected).len() ==> (#[trigger] robot_listing(
                ports,
                connected,
            )[i]).description == "USB Serial Device"@,
    decreases ports.len(),
{
    if ports.len() > 0 {
        lemma_robot_listing_description(ports.drop_last(), connected);
    }
}

/// Entry `e` of the robot list describes the first port `k` with its serial
/// number: that port's name, the adapter's manufacturer (`Unknown` when it
/// gives none), and a connected client with a use count of 1 exactly when
/// the robot has a client.
pub open spec fn describes_port(
    ports: Seq<PortRecord>,
    connected: Set<Seq<char>>,
    e: RobotInfoView,
    k: int,
) -> bool {
    &&& is_first_serial_match(ports, e.serial_id, k)
    &&& e.port == ports[k].port_name@
    &&& e.manufacturer == (match ports[k].usb {
        Some(u) => match u.manufacturer {
            Some(m) => m@,
            None => "Unknown"@,
        },
        None => "Unknown"@,
    })
    &&& e.client == (if connected.contains(e.serial_id) {
        Some(RobotClientInfo { is_connected: true, use_count: 1 })
    } else {
        None
    })
}

/// The port that entry `i` of the robot list describes.
proof fn listing_entry_port(ports: Seq<PortRecord>, connected: Set<Seq<char>>, i: int) -> (k: int)
    requires
        0 <= i < robot_listing(ports, connected).len(),
    ensures
        describes_port(ports, connected, robot_listing(ports, connected)[i], k),
    decreases ports.len(),
{
    let before = ports.drop_last();
    let prev = robot_listing(before, connected);
    let cur = robot_listing(ports, connected);
    let p = ports.last();
    assert(ports =~= before.push(p));
    if i < prev.len() {
        assert(cur[i] == prev[i]);
        let k = listing_entry_port(before, connected, i);
        assert(ports[k] == before[k]);
        assert forall|j: int| 0 <= j < k implies port_serial(#[trigger] ports[j]) != Some(
            cur[i].serial_id,
        ) by {
            assert(ports[j] == before[j]);
        }
        k
    } else {
        let k = ports.len() - 1;
        let s0 = port_serial(p).unwrap();
        assert(cur[i].serial_id == s0);
        assert forall|j: int| 0 <= j < k implies port_serial(#[trigger] ports[j]) != Some(s0) by {
            assert(ports[j] == before[j]);
            if port_serial(ports[j]) == Some(s0) {
                assert(has_serial(before, s0));
            }
        }
        k
    }
}

/// Each entry of the robot list describes the first port with its serial
/// number.
pub proof fn lemma_robot_listing_entry(ports: Seq<PortRecord>, connected: Set<Seq<char>>, i: int)
    requires
        0 <= i < robot_listing(ports, connected).len(),
    ensures
        exists|k: int| #[trigger] describes_port(ports, connected, robot_listing(ports, connected)[i], k),
{
    let k = listing_entry_port(ports, connected, i);
}

/// The view of an optional `&str`.
pub open spec fn opt_str_view(s: Option<&str>) -> Option<Seq<char>> {
    match s {
        Some(x) => Some(x@),
        None => None,
    }
}

/// Where the calibration of a robot created for `calibration_id` comes from:
/// the file `calibration/<id>.json` when an id is given, else the server's
/// default.
pub fn calibration_source(calibration_id: Option<&str>) -> (r: CalibrationSource)
    ensures
        match calibration_id {
            Some(id) => r matches CalibrationSource::File(path) && path@ == "calibration/"@ + id@
                + ".json"@,
            None => r is Default,
        },
{
    match calibration_id {
        Some(id) => CalibrationSource::File(calibration_file_path(id)),
        None => CalibrationSource::Default,
    }
}

/// The port a new client for robot `serial_id` opens: the port of the USB
/// device with that serial number, or, when there is none, the serial id
/// itself taken as a port path.
pub fn port_for_robot(ports: &Vec<PortRecord>, serial_id: &str) -> (r: String)
    ensures
        (exists|i: int| crate::ports::is_first_serial_match(ports@, serial_id@, i) && r@
            == (#[trigger] ports@[i]).port_name@) || (!has_serial(ports@, serial_id@) && r@
            == serial_id@),
{
    let mut i: usize = 0;
    while i < ports.len()
        invariant
            i <= ports@.len(),
            forall|j: int| 0 <= j < i ==> port_serial(#[trigger] ports@[j]) != Some(serial_id@),
        decreases ports@.len() - i,
    {
        if port_has_serial(&ports[i], serial_id) {
            assert(crate::ports::is_first_serial_match(ports@, serial_id@, i as int));
            return ports[i].port_name.clone();
        }
        i = i + 1;
    }
    String::from_str(serial_id)
}

fn contains_string(v: &Vec<String>, s: &str) -> (r: bool)
    ensures
        r == exists|i: int| 0 <= i < v@.len() && (#[trigger] v@[i])@ == s@,
{
    let mut i: usize = 0;
    while i < v.len()
        invariant
            i <= v@.len(),
            forall|j: int| 0 <= j < i ==> (#[trigger] v@[j])@ != s@,
        decreases v@.len() - i,
    {
        if str_eq(v[i].as_str(), s) {
            return true;
        }
        i = i + 1;
    }
    false
}

/// The robot list: one entry per distinct USB serial number among `ports`,
/// in the order of its first port; ports without a serial number are left
/// out; robots with a serial id in `connected` are marked as connected.
pub fn list_robots_on(ports: &Vec<PortRecord>, connected: &Vec<String>) -> (r: Vec<RobotInfo>)
    ensures
        r@.map_values(|x: RobotInfo| x@) == robot_listing(
            ports@,
            Set::new(|k: Seq<char>| exists|i: int| 0 <= i < connected@.len() && (#[trigger] connected@[i])@ == k),
        ),
        forall|i: int| 0 <= i < r@.len() ==> (#[trigger] r@[i]).description@ == "USB Serial Device"@,
{
    let ghost conn = Set::new(
        |k: Seq<char>| exists|i: int| 0 <= i < connected@.len() && (#[trigger] connected@[i])@ == k,
    );
    let mut robots: Vec<RobotInfo> = Vec::new();
    let mut seen: Vec<String> = Vec::new();
    let mut i: usize = 0;
    while i < ports.len()
        invariant
            i <= ports@.len(),
            conn == Set::new(
                |k: Seq<char>| exists|i: int| 0 <= i < connected@.len() && (#[trigger] connected@[i])@ == k,
            ),
            robots@.map_values(|x: RobotInfo| x@) == robot_listing(ports@.take(i as int), conn),
            forall|k: int| 0 <= k < robots@.len() ==> (#[trigger] robots@[k]).description@ == "USB Serial Device"@,
            forall|s: Seq<char>|
                has_serial(ports@.take(i as int), s) <==> exists|k: int|
                    0 <= k < seen@.len() && (#[trigger] seen@[k])@ == s,
        decreases ports@.len() - i,
    {
        let p = &ports[i];
        let ghost before = ports@.take(i as int);
        let ghost after = ports@.take(i + 1);
        assert(after =~= before.push(*p));
        assert(after.drop_last() =~= before);
        assert(after.last() == *p);
        proof {
            lemma_has_serial_push(before, *p);
        }
        match &p.usb {
            Some(u) => match &u.serial_number {
                Some(sn) => {
                    let already = contains_string(&seen, sn.as_str());
                    let ghost old_seen = seen@;
                    if !already {
                        let connected_now = contains_string(connected, sn.as_str());
                        let client = if connected_now {
                            Some(RobotClientInfo { is_connected: true, use_count: 1 })
                        } else {
                            None
                        };
                        let manufacturer = match &u.manufacturer {
                            Some(m) => m.clone(),
                            None => String::from_str("Unknown"),
                        };
                        let info = RobotInfo {
                            serial_id: sn.clone(),
                            port: p.port_name.clone(),
                            description: String::from_str("USB Serial Device"),
                            manufacturer,
                            client,
                        };
                        let ghost old_robots = robots@;
                        robots.push(info);
                        assert(robots@.map_values(|x: RobotInfo| x@) =~= old_robots.map_values(
                            |x: RobotInfo| x@,
                        ).push(listed_robot(*p, sn@, conn)));
                        seen.push(sn.clone());
                    }
                    assert forall|s: Seq<char>|
                        has_serial(after, s) <==> exists|k: int|
                            0 <= k < seen@.len() && (#[trigger] seen@[k])@ == s by {
                        assert(has_serial(after, s) == has_serial(before.push(*p), s));
                        if has_serial(before, s) || (already && s == sn@) {
                            let k = choose|k: int| 0 <= k < old_seen.len() && (#[trigger] old_seen[k])@ == s;
                            assert(seen@[k] == old_seen[k]);
                        } else if !already && s == sn@ {
                            assert(seen@[seen@.len() - 1]@ == s);
                        }
                        if exists|k: int| 0 <= k < seen@.len() && (#[trigger] seen@[k])@ == s {
                            let k = choose|k: int| 0 <= k < seen@.len() && (#[trigger] seen@[k])@ == s;
                            if already || k < old_seen.len() {
                                assert(seen@[k] == old_seen[k]);
                            }
                        }
                    }
                },
                None => {},
            },
            None => {},
        }
        i = i + 1;
    }
    assert(ports@.take(i as int) =~= ports@);
    robots
}

fn opt_str_eq(a: &Option<String>, b: Option<&str>) -> (r: bool)
    ensures
        r == (opt_view(*a) == opt_str_view(b)),
{
    match (a, b) {
        (Some(x), Some(y)) => str_eq(x.as_str(), y),
        (None, None) => true,
        _ => false,
    }
}

fn opt_to_string(s: Option<&str>) -> (r: Option<String>)
    ensures
        opt_view(r) == opt_str_view(s),
{
    match s {
        Some(x) => Some(String::from_str(x)),
        None => None,
    }
}

/// The state of the server: its settings, its robot clients and its default
/// calibration.
pub struct AppState<C> {
    pub settings: Settings,
    pub robots: RobotRegistry<C>,
    pub calibration: Option<ArmCalibration>,
}

impl<C> AppState<C> {
    /// The registry holds each serial id once, and so does the default
    /// calibration each joint name.
    pub open spec fn wf(&self) -> bool {
        &&& self.robots.wf()
        &&& self.calibration matches Some(c) ==> c.wf()
    }

    /// A server state without robot clients; `calibration` is the default
    /// calibration (`None` when the settings' calibration file could not be
    /// loaded).
    pub fn new(settings: Settings, calibration: Option<ArmCalibration>) -> (r: Self)
        requires
            calibration matches Some(c) ==> c.wf(),
        ensures
            r.wf(),
            r.settings == settings,
            r.calibration == calibration,
            r.robots.view() == Map::<Seq<char>, RobotEntry<C>>::empty(),
    {
        AppState { settings, robots: KeyedList::new(), calibration }
    }

    /// The first step of getting a robot client for `serial_id` with the
    /// calibration `calibration_id`: when a client exists that was created
    /// with that calibration it is reused and `true` is returned; otherwise
    /// any client of `serial_id` is dropped, so that a new one can be made,
    /// and `false` is returned.
    pub fn reuse_or_evict(&mut self, serial_id: &str, calibration_id: Option<&str>) -> (reused: bool)
        requires
            old(self).wf(),
        ensures
            final(self).wf(),
            reused == reuses(old(self).robots.view(), serial_id@, opt_str_view(calibration_id)),
            reused ==> old(self).robots.view().contains_key(serial_id@) && opt_view(
                old(self).robots.view()[serial_id@].calibration_id,
            ) == opt_str_view(calibration_id),
            old(self).robots.view().contains_key(serial_id@) && opt_view(
                old(self).robots.view()[serial_id@].calibration_id,
            ) == opt_str_view(calibration_id) ==> reused,
            !old(self).robots.view().contains_key(serial_id@) ==> !reused,
            reused ==> final(self).robots.view() == old(self).robots.view(),
            !reused ==> final(self).robots.view() == old(self).robots.view().remove(serial_id@),
            final(self).settings == old(self).settings,
            final(self).calibration == old(self).calibration,
    {
        let same = match self.robots.get(serial_id) {
            Some(entry) => opt_str_eq(&entry.calibration_id, calibration_id),
            None => {
                assert(self.robots.view() =~= self.robots.view().remove(serial_id@));
                return false;
            },
        };
        if same {
            return true;
        }
        self.robots.remove(serial_id);
        false
    }

    /// A copy of the default calibration.
    pub fn default_calibration(&self) -> (r: Option<ArmCalibration>)
        requires
            self.wf(),
        ensures
            match (r, self.calibration) {
                (Some(a), Some(b)) => a.wf() && a.view() == b.view(),
                (None, None) => true,
                _ => false,
            },
    {
        match &self.calibration {
            Some(c) => Some(c.copied()),
            None => None,
        }
    }

    /// The last step of getting a robot client: registers `client` for
    /// `serial_id`, created with the calibration `calibration_id`.
    pub fn register_robot(&mut self, serial_id: &str, client: C, calibration_id: Option<&str>)
        requires
            old(self).wf(),
        ensures
            final(self).wf(),
            final(self).robots.view().contains_key(serial_id@),
            final(self).robots.view() == old(self).robots.view().insert(
                serial_id@,
                final(self).robots.view()[serial_id@],
            ),
            final(self).robots.view()[serial_id@].client == client,
            entry_calibration(final(self).robots.view()[serial_id@]) == opt_str_view(calibration_id),
            final(self).settings == old(self).settings,
            final(self).calibration == old(self).calibration,
    {
        let entry = RobotEntry { client, calibration_id: opt_to_string(calibration_id) };
        self.robots.insert(String::from_str(serial_id), entry);
    }

    /// The client of robot `serial_id`, or the error
    /// `Robot not found: <serial_id>` when there is none.
    pub fn robot_client(&self, serial_id: &str) -> (r: Result<&C, String>)
        requires
            self.wf(),
        ensures
            match r {
                Ok(c) => self.robots.view().contains_key(serial_id@) && *c == self.robots.view()[serial_id@].client,
                Err(msg) => !self.robots.view().contains_key(serial_id@) && msg@ == "Robot not found: "@ + serial_id@,
            },
    {
        match self.robots.get(serial_id) {
            Some(entry) => Ok(&entry.client),
            None => {
                let mut msg = String::from_str("Robot not found: ");
                msg.append(serial_id);
                Err(msg)
            },
        }
    }

    /// The robots found on the serial ports `ports`: one entry per distinct
    /// USB serial number, in the order of its first port, marked as connected
    /// when the server holds a client for it.
    pub fn list_robots(&self, ports: &Vec<PortRecord>) -> (r: Vec<RobotInfo>)
        requires
            self.wf(),
        ensures
            r@.map_values(|x: RobotInfo| x@) == robot_listing(ports@, self.robots.view().dom()),
            forall|i: int| 0 <= i < r@.len() ==> (#[trigger] r@[i]).description@ == "USB Serial Device"@,
    {
        let connected = self.robots.keys();
        let r = list_robots_on(ports, &connected);
        let ghost conn = Set::new(
            |k: Seq<char>| exists|i: int| 0 <= i < connected@.len() && (#[trigger] connected@[i])@ == k,
        );
        assert(conn =~= self.robots.view().dom());
        r
    }
}

impl<C: RobotClient> AppState<C> {
    /// The state of robot `serial_id`'s arm as its client reads it, or the
    /// error `Robot not found: <serial_id>` when the robot has no client.
    pub fn get_robot_state(&self, serial_id: &str) -> (r: Result<C::State, String>)
        requires
            self.wf(),
        ensures
            !self.robots.view().contains_key(serial_id@) ==> (r matches Err(m) && m@ == "Robot not found: "@
                + serial_id@),
            self.robots.view().contains_key(serial_id@) ==> self.robots.view()[serial_id@].client.read_state_outcome(r),
    {
        match self.robot_client(serial_id) {
            Ok(client) => client.read_state(),
            Err(msg) => Err(msg),
        }
    }

    /// The port, use count and connection state reported for robot
    /// `serial_id`: its client's port and connection state with a use count
    /// of 1 when it is registered, else `unknown`, 0 and not connected.
    pub fn robot_status(&self, serial_id: &str) -> (r: (String, u32, bool))
        requires
            self.wf(),
        ensures
            self.robots.view().contains_key(serial_id@) ==> r.1 == 1
                && self.robots.view()[serial_id@].client.reports_port(r.0@)
                && self.robots.view()[serial_id@].client.reports_connected(r.2),
            !self.robots.view().contains_key(serial_id@) ==> r.0@ == "unknown"@ && r.1 == 0
                && !r.2,
    {
        match self.robots.get(serial_id) {
            Some(entry) => (String::from_str(entry.client.port()), 1, entry.client.is_connected()),
            None => (String::from_str("unknown"), 0, false),
        }
    }
}

/// The robot list names each USB serial number of the ports exactly once:
/// no two entries share a serial id, and every serial number that a port
/// reports is listed.
pub proof fn lemma_robot_listing_serials(ports: Seq<PortRecord>, connected: Set<Seq<char>>)
    ensures
        forall|i: int, j: int|
            0 <= i < j < robot_listing(ports, connected).len() ==> (#[trigger] robot_listing(
                ports,
                connected,
            )[i]).serial_id != (#[trigger] robot_listing(ports, connected)[j]).serial_id,
        forall|s: Seq<char>|
            has_serial(ports, s) <==> exists|i: int|
                0 <= i < robot_listing(ports, connected).len() && (#[trigger] robot_listing(
                    ports,
                    connected,
                )[i]).serial_id == s,
    decreases ports.len(),
{
    if ports.len() > 0 {
        let before = ports.drop_last();
        lemma_robot_listing_serials(before, connected);
        let prev = robot_listing(before, connected);
        let cur = robot_listing(ports, connected);
        let p = ports.last();
        assert(ports =~= before.push(p));
        lemma_has_serial_push(before, p);
        match port_serial(p) {
            Some(s0) => {
                if !has_serial(before, s0) {
                    assert(cur == prev.push(listed_robot(p, s0, connected)));
                    assert forall|i: int, j: int| 0 <= i < j < cur.len() implies (#[trigger] cur[i]).serial_id
                        != (#[trigger] cur[j]).serial_id by {
                        if j == cur.len() - 1 {
                            assert(cur[i] == prev[i]);
                        } else {
                            assert(cur[i] == prev[i] && cur[j] == prev[j]);
                        }
                    }
                    assert forall|s: Seq<char>| has_serial(ports, s) <==> exists|i: int|
                        0 <= i < cur.len() && (#[trigger] cur[i]).serial_id == s by {
                        if has_serial(before, s) {
                            let i = choose|i: int| 0 <= i < prev.len() && (#[trigger] prev[i]).serial_id == s;
                            assert(cur[i] == prev[i]);
                        }
                        if s == s0 {
                            assert(cur[prev.len() as int].serial_id == s);
                        }
                        if exists|i: int| 0 <= i < cur.len() && (#[trigger] cur[i]).serial_id == s {
                            let i = choose|i: int| 0 <= i < cur.len() && (#[trigger] cur[i]).serial_id == s;
                            if i < prev.len() {
                                assert(cur[i] == prev[i]);
                            }
                        }
                    }
                }
            },
            None => {},
        }
    }
}

/// A robot client that was just registered is found under its serial id,
/// is reused by the next request for the same robot with the same
/// calibration, and is replaced by a request with another calibration; the
/// other robots keep their clients.
pub proof fn lemma_registered_robot_is_reused<C>(
    robots: Map<Seq<char>, RobotEntry<C>>,
    serial_id: Seq<char>,
    entry: RobotEntry<C>,
    calibration_id: Option<Seq<char>>,
)
    ensures
        robots.insert(serial_id, entry).contains_key(serial_id),
        robots.insert(serial_id, entry)[serial_id] == entry,
        reuses(robots.insert(serial_id, entry), serial_id, calibration_id) <==> calibration_id
            == entry_calibration(entry),
        forall|k: Seq<char>|
            k != serial_id ==> robots.insert(serial_id, entry).contains_key(k) == robots.contains_key(k)
                && (robots.contains_key(k) ==> #[trigger] robots.insert(serial_id, entry)[k] == robots[k]),
{
}

} // verus!
