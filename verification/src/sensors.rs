//! Temperature sensor references and the sensor directory.
//!
//! A sensor is referred to by a stable `SensorId`: the backend kind plus a
//! backend-specific identifier (a PCI bus id, a component label). The
//! directory built at startup maps those ids to readable sensors; reading a
//! temperature is platform work and happens outside this library.

use vstd::prelude::*;

verus! {

/// The sensor backends a reading can come from.
#[derive(Clone, Copy, PartialEq, Eq, Structural, Debug)]
pub enum SensorType {
    LhmSensor,
    SysInfoSensor,
    NvmlSensor,
}

/// Stable external reference to one sensor: backend kind plus identifier.
pub struct SensorId {
    pub sensor_type: SensorType,
    pub identifier: String,
}

impl Clone for SensorId {
    fn clone(&self) -> (r: Self)
        ensures
            r == *self,
    {
        SensorId { sensor_type: self.sensor_type, identifier: self.identifier.clone() }
    }
}

impl SensorId {
    /// Whether two sensor references name the same sensor.
    pub fn same_sensor(&self, other: &SensorId) -> (r: bool)
        ensures
            r == (self.sensor_type == other.sensor_type && self.identifier@ == other.identifier@),
    {
        let kind_eq = match (self.sensor_type, other.sensor_type) {
            (SensorType::LhmSensor, SensorType::LhmSensor) => true,
            (SensorType::SysInfoSensor, SensorType::SysInfoSensor) => true,
            (SensorType::NvmlSensor, SensorType::NvmlSensor) => true,
            _ => false,
        };
        kind_eq && self.identifier == other.identifier
    }
}

/// Which sensor backends came up at startup. A backend that failed to
/// initialise stays absent for the whole run; sensors of its kind cannot be
/// created.
pub struct SensorsProvidersStates {
    pub lhm_state: bool,
    pub nvml_state: bool,
}

/// A hardware-monitor sensor, read through the dedicated worker that owns
/// the monitor connection.
pub struct LhmSensor {
    pub identifier: String,
}

impl LhmSensor {
    /// A hardware-monitor sensor reference; fails when that backend did not
    /// come up.
    pub fn new(sensors_providers_state: &SensorsProvidersStates, identifier: String) -> (r: Result<
        LhmSensor,
        String,
    >)
        ensures
            sensors_providers_state.lhm_state ==> (r matches Ok(s) && s.identifier == identifier),
            !sensors_providers_state.lhm_state ==> (r matches Err(e) && e@ == "No lhm state"@),
    {
        if sensors_providers_state.lhm_state {
            Ok(LhmSensor { identifier })
        } else {
            Err("No lhm state".to_owned())
        }
    }

    /// The stable reference this sensor is stored and looked up under.
    pub fn get_sensor_id(&self) -> (r: SensorId)
        ensures
            r.sensor_type == SensorType::LhmSensor,
            r.identifier == self.identifier,
    {
        SensorId { sensor_type: SensorType::LhmSensor, identifier: self.identifier.clone() }
    }
}

/// A GPU sensor, addressed by its PCI bus id and read through the GPU
/// driver.
pub struct NvmlSensor {
    pub identifier: String,
}

impl NvmlSensor {
    /// A GPU sensor reference; fails when the driver backend did not come
    /// up.
    pub fn new(sensors_providers_state: &SensorsProvidersStates, identifier: String) -> (r: Result<
        NvmlSensor,
        String,
    >)
        ensures
            sensors_providers_state.nvml_state ==> (r matches Ok(s) && s.identifier == identifier),
            !sensors_providers_state.nvml_state ==> (r matches Err(e) && e@ == "NVML not inited"@),
    {
        if sensors_providers_state.nvml_state {
            Ok(NvmlSensor { identifier })
        } else {
            Err("NVML not inited".to_owned())
        }
    }

    /// The stable reference this sensor is stored and looked up under.
    pub fn get_sensor_id(&self) -> (r: SensorId)
        ensures
            r.sensor_type == SensorType::NvmlSensor,
            r.identifier == self.identifier,
    {
        SensorId { sensor_type: SensorType::NvmlSensor, identifier: self.identifier.clone() }
    }
}

/// An OS-aggregate sensor, matched by component label on every read.
pub struct SysInfoSensor {
    pub identifier: String,
}

impl SysInfoSensor {
    /// An OS-aggregate sensor reference; this backend needs no state, so
    /// construction always succeeds.
    pub fn new(_sensors_providers_state: &SensorsProvidersStates, identifier: String) -> (r: Result<
        SysInfoSensor,
        String,
    >)
        ensures
            r matches Ok(s) && s.identifier == identifier,
    {
        Ok(SysInfoSensor { identifier })
    }

    /// The stable reference this sensor is stored and looked up under.
    pub fn get_sensor_id(&self) -> (r: SensorId)
        ensures
            r.sensor_type == SensorType::SysInfoSensor,
            r.identifier == self.identifier,
    {
        SensorId { sensor_type: SensorType::SysInfoSensor, identifier: self.identifier.clone() }
    }
}

/// The sensor references of one backend, one per enumerated name.
pub open spec fn spec_sensor_ids(t: SensorType, names: Seq<String>) -> Seq<SensorId> {
    names.map_values(|n: String| SensorId { sensor_type: t, identifier: n })
}

/// The first occurrence of each name, in enumeration order; a repeated name
/// contributes one directory entry, as a directory keyed by name would keep
/// one sensor per name.
pub open spec fn spec_dedup_names(names: Seq<String>) -> Seq<String>
    decreases names.len(),
{
    if names.len() == 0 {
        Seq::empty()
    } else {
        let front = spec_dedup_names(names.drop_last());
        if exists|j: int| 0 <= j < names.len() - 1 && names[j]@ == names.last()@ {
            front
        } else {
            front.push(names.last())
        }
    }
}

/// Whether one of the names reads the same as the given one.
pub open spec fn spec_name_in(names: Seq<String>, name: Seq<char>) -> bool {
    exists|k: int| 0 <= k < names.len() && names[k]@ == name
}

/// Dropping repeats leaves pairwise-distinct names, and exactly the names
/// that were enumerated.
pub proof fn lemma_dedup_names_facts(names: Seq<String>)
    ensures
        forall|i: int, j: int|
            0 <= i < j < spec_dedup_names(names).len() ==> spec_dedup_names(names)[i]@
                != spec_dedup_names(names)[j]@,
        forall|i: int|
            0 <= i < spec_dedup_names(names).len() ==> spec_name_in(
                names,
                (#[trigger] spec_dedup_names(names)[i])@,
            ),
        forall|k: int|
            0 <= k < names.len() ==> spec_name_in(
                spec_dedup_names(names),
                (#[trigger] names[k])@,
            ),
    decreases names.len(),
{
    if names.len() > 0 {
        let rest = names.drop_last();
        let front = spec_dedup_names(rest);
        let out = spec_dedup_names(names);
        lemma_dedup_names_facts(rest);
        assert(forall|k: int| 0 <= k < rest.len() ==> rest[k] == names[k]);
        if exists|j: int| 0 <= j < names.len() - 1 && names[j]@ == names.last()@ {
            assert(out == front);
            assert forall|k: int| 0 <= k < names.len() implies spec_name_in(
                out,
                (#[trigger] names[k])@,
            ) by {
                if k < names.len() - 1 {
                    assert(spec_name_in(front, rest[k]@));
                } else {
                    let j = choose|j: int|
                        0 <= j < names.len() - 1 && names[j]@ == names.last()@;
                    assert(spec_name_in(front, rest[j]@));
                }
            }
            assert forall|i: int| 0 <= i < out.len() implies spec_name_in(
                names,
                (#[trigger] out[i])@,
            ) by {
                assert(spec_name_in(rest, front[i]@));
                let k = choose|k: int| 0 <= k < rest.len() && rest[k]@ == front[i]@;
                assert(names[k]@ == out[i]@);
            }
        } else {
            assert(out == front.push(names.last()));
            assert forall|i: int, j: int| 0 <= i < j < out.len() implies out[i]@ != out[j]@ by {
                if j < front.len() {
                } else {
                    assert(out[j] == names.last());
                    assert(spec_name_in(rest, front[i]@));
                    let k = choose|k: int| 0 <= k < rest.len() && rest[k]@ == front[i]@;
                    assert(names[k]@ == front[i]@);
                }
            }
            assert forall|i: int| 0 <= i < out.len() implies spec_name_in(
                names,
                (#[trigger] out[i])@,
            ) by {
                if i < front.len() {
                    assert(spec_name_in(rest, front[i]@));
                    let k = choose|k: int| 0 <= k < rest.len() && rest[k]@ == front[i]@;
                    assert(names[k]@ == out[i]@);
                } else {
                    assert(names[names.len() - 1]@ == out[i]@);
                }
            }
            assert forall|k: int| 0 <= k < names.len() implies spec_name_in(
                out,
                (#[trigger] names[k])@,
            ) by {
                if k < names.len() - 1 {
                    assert(spec_name_in(front, rest[k]@));
                    let i = choose|i: int| 0 <= i < front.len() && front[i]@ == rest[k]@;
                    assert(out[i]@ == names[k]@);
                } else {
                    assert(out[out.len() - 1]@ == names[k]@);
                }
            }
        }
    }
}

/// Whether one of the names reads the same as the given one.
fn contains_name(names: &Vec<String>, name: &String) -> (r: bool)
    ensures
        r == spec_name_in(names@, name@),
{
    let mut i: usize = 0;
    while i < names.len()
        invariant
            i <= names@.len(),
            forall|k: int| 0 <= k < i ==> names@[k]@ != name@,
        decreases names@.len() - i,
    {
        if names[i] == *name {
            return true;
        }
        i = i + 1;
    }
    false
}

/// Keeps the first occurrence of each enumerated name.
fn dedup_names(names: &Vec<String>) -> (r: Vec<String>)
    ensures
        r@ == spec_dedup_names(names@),
{
    let mut out: Vec<String> = Vec::new();
    let mut i: usize = 0;
    assert(names@.take(0) =~= Seq::<String>::empty());
    while i < names.len()
        invariant
            i <= names@.len(),
            out@ == spec_dedup_names(names@.take(i as int)),
        decreases names@.len() - i,
    {
        let ghost prefix = names@.take(i as int + 1);
        proof {
            assert(prefix.drop_last() =~= names@.take(i as int));
            assert(prefix.last() == names@[i as int]);
            lemma_dedup_names_facts(names@.take(i as int));
            assert(forall|k: int| 0 <= k < i ==> names@.take(i as int)[k] == names@[k]);
            assert(forall|k: int| 0 <= k < prefix.len() - 1 ==> prefix[k] == names@[k]);
        }
        let seen = contains_name(&out, &names[i]);
        proof {
            if seen {
                let k = choose|k: int| 0 <= k < out@.len() && out@[k]@ == names@[i as int]@;
                assert(spec_name_in(names@.take(i as int), out@[k]@));
                let j = choose|j: int|
                    0 <= j < names@.take(i as int).len() && names@.take(i as int)[j]@ == out@[k]@;
                assert(prefix[j]@ == prefix.last()@);
            } else {
                assert forall|j: int| 0 <= j < prefix.len() - 1 implies prefix[j]@
                    != prefix.last()@ by {
                    assert(spec_name_in(out@, names@.take(i as int)[j]@));
                }
            }
        }
        if !seen {
            out.push(names[i].clone());
        }
        i = i + 1;
    }
    assert(names@.take(names@.len() as int) =~= names@);
    out
}

/// Whether a backend's sensors can be constructed at all.
pub open spec fn spec_provider_available(states: SensorsProvidersStates, t: SensorType) -> bool {
    match t {
        SensorType::LhmSensor => states.lhm_state,
        SensorType::SysInfoSensor => true,
        SensorType::NvmlSensor => states.nvml_state,
    }
}

/// What one backend contributes to the directory: one reference per
/// enumerated name when the backend is available and its enumeration
/// succeeded, nothing otherwise.
pub open spec fn spec_provider_entries(
    states: SensorsProvidersStates,
    t: SensorType,
    names: Option<Vec<String>>,
) -> Seq<SensorId> {
    match names {
        Some(list) => if spec_provider_available(states, t) {
            spec_sensor_ids(t, spec_dedup_names(list@))
        } else {
            Seq::empty()
        },
        None => Seq::empty(),
    }
}

/// One backend's directory entries all carry its kind and pairwise
/// distinct identifiers.
pub proof fn lemma_provider_entries_wf(
    states: SensorsProvidersStates,
    t: SensorType,
    names: Option<Vec<String>>,
)
    ensures
        forall|k: int|
            0 <= k < spec_provider_entries(states, t, names).len() ==> #[trigger] spec_provider_entries(
                states,
                t,
                names,
            )[k].sensor_type == t,
        forall|k1: int, k2: int|
            0 <= k1 < k2 < spec_provider_entries(states, t, names).len()
                ==> spec_provider_entries(states, t, names)[k1].identifier@
                != spec_provider_entries(states, t, names)[k2].identifier@,
{
    match names {
        Some(list) => {
            lemma_dedup_names_facts(list@);
        },
        None => {},
    }
}

/// Builds sensor references for one backend's enumerated names.
fn sensors_from_names(t: SensorType, names: Vec<String>) -> (ids: Vec<SensorId>)
    ensures
        ids@ == spec_sensor_ids(t, names@),
{
    let mut ids: Vec<SensorId> = Vec::new();
    let mut i: usize = 0;
    while i < names.len()
        invariant
            i <= names@.len(),
            ids@ == spec_sensor_ids(t, names@.take(i as int)),
        decreases names@.len() - i,
    {
        ids.push(SensorId { sensor_type: t, identifier: names[i].clone() });
        assert(ids@ =~= spec_sensor_ids(t, names@.take(i as int + 1)));
        i = i + 1;
    }
    assert(names@.take(names@.len() as int) =~= names@);
    ids
}

/// Constructs sensors and builds the startup directory.
pub struct SensorFactory {}

impl SensorFactory {
    /// A sensor reference of the given backend; fails exactly when that
    /// backend did not come up.
    pub fn create_sensor(
        sensor_type: SensorType,
        sensors_providers_state: &SensorsProvidersStates,
        identifier: String,
    ) -> (r: Result<SensorId, String>)
        ensures
            spec_provider_available(*sensors_providers_state, sensor_type) ==> (r matches Ok(s)
                && s.sensor_type == sensor_type && s.identifier == identifier),
            !spec_provider_available(*sensors_providers_state, sensor_type) ==> r is Err,
            sensor_type is LhmSensor && !sensors_providers_state.lhm_state ==> (r matches Err(e)
                && e@ == "No lhm state"@),
            sensor_type is NvmlSensor && !sensors_providers_state.nvml_state ==> (r matches Err(e)
                && e@ == "NVML not inited"@),
    {
        match sensor_type {
            SensorType::LhmSensor => match LhmSensor::new(sensors_providers_state, identifier) {
                Ok(s) => Ok(s.get_sensor_id()),
                Err(e) => Err(e),
            },
            SensorType::SysInfoSensor => match SysInfoSensor::new(
                sensors_providers_state,
                identifier,
            ) {
                Ok(s) => Ok(s.get_sensor_id()),
                Err(e) => Err(e),
            },
            SensorType::NvmlSensor => match NvmlSensor::new(sensors_providers_state, identifier) {
                Ok(s) => Ok(s.get_sensor_id()),
                Err(e) => Err(e),
            },
        }
    }

    /// The whole sensor directory, built from each backend's enumeration.
    /// A backend whose enumeration failed, and a backend that did not come
    /// up, simply contribute nothing: that is never fatal. A name one
    /// backend enumerates twice gets one entry, so no two entries name the
    /// same sensor.
    pub fn get_all_sensors(
        sensors_providers_state: &SensorsProvidersStates,
        nvml_names: Option<Vec<String>>,
        sys_info_names: Option<Vec<String>>,
        lhm_names: Option<Vec<String>>,
    ) -> (r: Vec<SensorId>)
        ensures
            r@ == spec_provider_entries(*sensors_providers_state, SensorType::NvmlSensor, nvml_names)
                + spec_provider_entries(
                *sensors_providers_state,
                SensorType::SysInfoSensor,
                sys_info_names,
            ) + spec_provider_entries(*sensors_providers_state, SensorType::LhmSensor, lhm_names),
            forall|i: int, j: int|
                0 <= i < j < r@.len() ==> !(r@[i].sensor_type == r@[j].sensor_type
                    && r@[i].identifier@ == r@[j].identifier@),
    {
        let mut sensors: Vec<SensorId> = Vec::new();
        if sensors_providers_state.nvml_state {
            if let Some(names) = nvml_names {
                let unique = dedup_names(&names);
                let mut ids = sensors_from_names(SensorType::NvmlSensor, unique);
                sensors.append(&mut ids);
            }
        }
        if let Some(names) = sys_info_names {
            let unique = dedup_names(&names);
            let mut ids = sensors_from_names(SensorType::SysInfoSensor, unique);
            sensors.append(&mut ids);
        }
        if sensors_providers_state.lhm_state {
            if let Some(names) = lhm_names {
                let unique = dedup_names(&names);
                let mut ids = sensors_from_names(SensorType::LhmSensor, unique);
                sensors.append(&mut ids);
            }
        }
        proof {
            let st = *sensors_providers_state;
            let a = spec_provider_entries(st, SensorType::NvmlSensor, nvml_names);
            let b = spec_provider_entries(st, SensorType::SysInfoSensor, sys_info_names);
            let c = spec_provider_entries(st, SensorType::LhmSensor, lhm_names);
            lemma_provider_entries_wf(st, SensorType::NvmlSensor, nvml_names);
            lemma_provider_entries_wf(st, SensorType::SysInfoSensor, sys_info_names);
            lemma_provider_entries_wf(st, SensorType::LhmSensor, lhm_names);
            assert(sensors@ =~= a + b + c);
            assert forall|i: int, j: int| 0 <= i < j < sensors@.len() implies !(
            sensors@[i].sensor_type == sensors@[j].sensor_type && sensors@[i].identifier@
                == sensors@[j].identifier@) by {
                let x = sensors@[i];
                let y = sensors@[j];
                if i < a.len() {
                    assert(x == a[i]);
                } else if i < a.len() + b.len() {
                    assert(x == b[i - a.len()]);
                } else {
                    assert(x == c[i - a.len() - b.len()]);
                }
                if j < a.len() {
                    assert(y == a[j]);
                } else if j < a.len() + b.len() {
                    assert(y == b[j - a.len()]);
                } else {
                    assert(y == c[j - a.len() - b.len()]);
                }
            }
        }
        sensors
    }
}

/// Whether the directory holds a sensor with the given reference.
pub fn find_sensor(sensors: &Vec<SensorId>, sensor_id: &SensorId) -> (found: bool)
    ensures
        found == exists|i: int|
            0 <= i < sensors@.len() && sensors@[i].sensor_type == sensor_id.sensor_type
                && sensors@[i].identifier@ == sensor_id.identifier@,
{
    let mut i: usize = 0;
    while i < sensors.len()
        invariant
            i <= sensors@.len(),
            forall|j: int|
                0 <= j < i ==> !(sensors@[j].sensor_type == sensor_id.sensor_type
                    && sensors@[j].identifier@ == sensor_id.identifier@),
        decreases sensors@.len() - i,
    {
        if sensors[i].same_sensor(sensor_id) {
            return true;
        }
        i = i + 1;
    }
    false
}

/// The names the directory holds for one backend, in directory order.
pub open spec fn spec_names_of_type(sensors: Seq<SensorId>, t: SensorType) -> Seq<String>
    decreases sensors.len(),
{
    if sensors.len() == 0 {
        Seq::empty()
    } else if sensors[0].sensor_type == t {
        seq![sensors[0].identifier] + spec_names_of_type(sensors.skip(1), t)
    } else {
        spec_names_of_type(sensors.skip(1), t)
    }
}

/// Lists the names the directory holds for one backend.
pub fn get_sensors_names_by_type(sensors: &Vec<SensorId>, sensor_type: SensorType) -> (names: Vec<
    String,
>)
    ensures
        names@ == spec_names_of_type(sensors@, sensor_type),
{
    let mut names: Vec<String> = Vec::new();
    let mut i: usize = 0;
    assert(sensors@.skip(0) =~= sensors@);
    while i < sensors.len()
        invariant
            i <= sensors@.len(),
            spec_names_of_type(sensors@, sensor_type) == names@ + spec_names_of_type(
                sensors@.skip(i as int),
                sensor_type,
            ),
        decreases sensors@.len() - i,
    {
        let ghost rest = sensors@.skip(i as int);
        assert(rest[0] == sensors@[i as int]);
        assert(rest.skip(1) =~= sensors@.skip(i as int + 1));
        let matches_type = match (sensors[i].sensor_type, sensor_type) {
            (SensorType::LhmSensor, SensorType::LhmSensor) => true,
            (SensorType::SysInfoSensor, SensorType::SysInfoSensor) => true,
            (SensorType::NvmlSensor, SensorType::NvmlSensor) => true,
            _ => false,
        };
        if matches_type {
            names.push(sensors[i].identifier.clone());
        }
        assert(names@ + spec_names_of_type(sensors@.skip(i as int + 1), sensor_type)
            =~= spec_names_of_type(sensors@, sensor_type));
        i = i + 1;
    }
    assert(sensors@.skip(sensors@.len() as int) =~= Seq::<SensorId>::empty());
    assert(names@ =~= spec_names_of_type(sensors@, sensor_type));
    names
}

} // verus!
